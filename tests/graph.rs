use pubmed_parser::{Abstract, Article, Chemical, Date, Journal, JournalIssue, Keyword, Mesh, MeshTopic, SupplMesh};

fn article() -> Article {
    Article {
        completion_date: None,
        revision_date: None,
        pubmed_id: 42,
        article_ids: Vec::new(),
        journal: Journal {
            issn: None,
            title: "J".to_string(),
            iso_abbreviation: None,
            journal_issue: JournalIssue {
                volume: None,
                issue: None,
                pubblication_date: Date { year: None, month: None, day: None },
            },
        },
        title: Some("Title".to_string()),
        abstract_text: None,
        other_abstract_texts: Vec::new(),
        chemical_list: vec![Chemical {
            registry_number: "0".to_string(),
            name_of_substance: "Substance X".to_string(),
            code: "D000001".to_string(),
        }],
        gene_symbol_list: Vec::new(),
        mesh_list: vec![Mesh {
            descriptor: MeshTopic { name: "Humans".to_string(), code: "D2".to_string(), is_major_topic: false },
            qualifier: Some(MeshTopic { name: "metabolism".to_string(), code: "Q3".to_string(), is_major_topic: true }),
        }],
        suppl_mesh_list: Vec::new(),
        references: vec![7],
        keywords: Vec::new(),
    }
}

#[test]
fn projection_counts_nodes_and_edges() {
    let a = article();
    let nodes = a.to_nodes();
    assert_eq!(nodes.len(), 4);
    let types: Vec<&str> = nodes.iter().map(|n| n.node_type.as_str()).collect();
    assert_eq!(types, vec!["Paper", "Chemical", "Mesh", "Mesh"]);
    assert_eq!(nodes[0].node_name, "42");
    assert_eq!(nodes[0].description, "Title");
    assert_eq!(nodes[1].node_name, "D000001");
    assert_eq!(nodes[1].description, "Substance X");
    assert_eq!(nodes[2].node_name, "D2");
    assert_eq!(nodes[3].node_name, "Q3");
    assert_eq!(nodes[3].description, "metabolism");

    let edges = a.to_edges();
    assert_eq!(edges.len(), 4);
    let types: Vec<&str> = edges.iter().map(|e| e.edge_type.as_str()).collect();
    assert_eq!(types, vec!["PaperToChemical", "PaperToMesh", "PaperToMesh", "Citation"]);
    assert!(edges.iter().all(|e| e.subject == "42"));
    assert_eq!(edges[0].object, "D000001");
    assert_eq!(edges[1].object, "D2");
    assert_eq!(edges[2].object, "Q3");
    assert_eq!(edges[3].object, "7");
}

#[test]
fn description_joins_title_and_abstracts() {
    let mut a = article();
    a.abstract_text = Some(Abstract { text: "Main.".to_string(), abstract_type: None, language: None });
    a.other_abstract_texts = vec![
        Abstract { text: "Other one.".to_string(), abstract_type: None, language: None },
        Abstract { text: "Other two.".to_string(), abstract_type: None, language: None },
    ];
    assert_eq!(a.to_nodes()[0].description, "Title|Main.|Other one.|Other two.");
}

#[test]
fn description_without_title_or_abstract() {
    let mut a = article();
    a.title = None;
    assert_eq!(a.to_nodes()[0].description, "");
    a.abstract_text = Some(Abstract { text: "Only.".to_string(), abstract_type: None, language: None });
    assert_eq!(a.to_nodes()[0].description, "Only.");
}

#[test]
fn other_entities_project_with_their_types() {
    let mut a = article();
    a.pubmed_id = 1000;
    a.chemical_list.clear();
    a.mesh_list.clear();
    a.references = vec![0, 123456789];
    a.gene_symbol_list = vec!["BRCA1".to_string()];
    a.suppl_mesh_list = vec![SupplMesh { code: "C1".to_string(), name: "Rare".to_string(), mesh_type: "Disease".to_string() }];
    a.keywords = vec![Keyword { name: "aging".to_string(), is_major_topic: false }];
    let nodes = a.to_nodes();
    let names: Vec<(&str, &str, &str)> = nodes.iter().map(|n| (n.node_name.as_str(), n.node_type.as_str(), n.description.as_str())).collect();
    assert_eq!(names, vec![
        ("1000", "Paper", "Title"),
        ("BRCA1", "Gene", ""),
        ("C1", "Disease", "Rare"),
        ("aging", "Keyword", ""),
    ]);
    let edges = a.to_edges();
    let e: Vec<(&str, &str, &str)> = edges.iter().map(|e| (e.subject.as_str(), e.edge_type.as_str(), e.object.as_str())).collect();
    assert_eq!(e, vec![
        ("1000", "PaperToGene", "BRCA1"),
        ("1000", "PaperToDisease", "C1"),
        ("1000", "PaperToKeyword", "aging"),
        ("1000", "Citation", "0"),
        ("1000", "Citation", "123456789"),
    ]);
}
