use pubmed_parser::{
    default_skip_patterns, is_skipped, GeneSymbolListBuilder, IgnoreTag, JournalIssueBuilder,
    OtherAbstractBuilder, RecordReader, SupplMeshListBuilder,
};

const RECORD: &str = "<PubmedArticle>
<MedlineCitation Status=\"MEDLINE\" Owner=\"NLM\">
<PMID Version=\"1\">10</PMID>
<DateCompleted>
<Year>1999</Year>
<Month>12</Month>
<Day>01</Day>
</DateCompleted>
<DateRevised>
<Year>2019</Year>
<Month>02</Month>
<Day>08</Day>
</DateRevised>
<Article PubModel=\"Print\">
<Journal>
<ISSN IssnType=\"Print\">0006-2952</ISSN>
<JournalIssue CitedMedium=\"Print\">
<Volume>24</Volume>
<Issue>16</Issue>
<PubDate>
<Year>1975</Year>
<Month>Aug</Month>
<Day>15</Day>
</PubDate>
</JournalIssue>
<Title>Biochemical pharmacology</Title>
<ISOAbbreviation>Biochem Pharmacol</ISOAbbreviation>
</Journal>
<ArticleTitle>Formate assay in body fluids:
application in methanol poisoning.</ArticleTitle>
<Pagination>
<MedlinePgn>1493-7</MedlinePgn>
</Pagination>
<Abstract>
<AbstractText>Some text.</AbstractText>
</Abstract>
<AuthorList CompleteYN=\"Y\">
<Author ValidYN=\"Y\">
<LastName>Makar</LastName>
</Author>
</AuthorList>
<Language>eng</Language>
<PublicationTypeList>
<PublicationType UI=\"D016428\">Journal Article</PublicationType>
</PublicationTypeList>
</Article>
<MedlineJournalInfo>
<Country>England</Country>
</MedlineJournalInfo>
<ChemicalList>
<Chemical>
<RegistryNumber>0</RegistryNumber>
<NameOfSubstance UI=\"D005561\">Formates</NameOfSubstance>
</Chemical>
<Chemical>
<RegistryNumber>Y4S76JWI15</RegistryNumber>
<NameOfSubstance UI=\"D000432\">Methanol</NameOfSubstance>
</Chemical>
</ChemicalList>
<CitationSubset>IM</CitationSubset>
<MeshHeadingList>
<MeshHeading>
<DescriptorName UI=\"D000445\" MajorTopicYN=\"N\">Aldehyde Oxidoreductases</DescriptorName>
<QualifierName UI=\"Q000378\" MajorTopicYN=\"Y\">metabolism</QualifierName>
</MeshHeading>
<MeshHeading>
<DescriptorName UI=\"D000818\" MajorTopicYN=\"N\">Animals</DescriptorName>
</MeshHeading>
</MeshHeadingList>
</MedlineCitation>
<PubmedData>
<History>
<PubMedPubDate PubStatus=\"pubmed\">
<Year>1975</Year>
</PubMedPubDate>
</History>
<PublicationStatus>ppublish</PublicationStatus>
<ArticleIdList>
<ArticleId IdType=\"pubmed\">10</ArticleId>
<ArticleId IdType=\"doi\">10.1016/0006-2952(75)90029-5</ArticleId>
</ArticleIdList>
<ReferenceList>
<Reference>
<Citation>Ref one.</Citation>
<ArticleIdList>
<ArticleId IdType=\"pubmed\">123</ArticleId>
</ArticleIdList>
</Reference>
</ReferenceList>
</PubmedData>
</PubmedArticle>";

#[test]
fn full_record_through_filter_and_reader() {
    let patterns = default_skip_patterns();
    let mut reader = RecordReader::new();
    let mut records = Vec::new();
    for line in RECORD.lines() {
        let line = line.trim();
        if is_skipped(line, &patterns) {
            continue;
        }
        if let Some(a) = reader.feed(line).unwrap() {
            records.push(a);
        }
    }
    assert_eq!(records.len(), 1);
    let a = &records[0];
    assert_eq!(a.pubmed_id, 10);
    let completed = a.completion_date.as_ref().unwrap();
    assert_eq!((completed.year, completed.month.as_deref(), completed.day), (Some(1999), Some("12"), Some(1)));
    let revised = a.revision_date.as_ref().unwrap();
    assert_eq!((revised.year, revised.month.as_deref(), revised.day), (Some(2019), Some("02"), Some(8)));
    assert_eq!(a.journal.title, "Biochemical pharmacology");
    assert_eq!(a.journal.journal_issue.pubblication_date.day, Some(15));
    assert_eq!(a.title.as_deref(), Some("Formate assay in body fluids: application in methanol poisoning."));
    assert_eq!(a.abstract_text.as_ref().unwrap().text, "Some text.");
    assert_eq!(a.chemical_list.len(), 2);
    assert_eq!(a.chemical_list[1].code, "D000432");
    assert_eq!(a.mesh_list.len(), 2);
    assert!(a.mesh_list[1].qualifier.is_none());
    assert_eq!(a.article_ids.len(), 2);
    assert_eq!(a.article_ids[1].value, "10.1016/0006-2952(75)90029-5");
    assert_eq!(a.references, vec![123usize]);

    let nodes = a.to_nodes();
    assert_eq!(nodes.len(), 1 + 2 + 3);
    assert_eq!(nodes[0].description, "Formate assay in body fluids: application in methanol poisoning.|Some text.");
    let edges = a.to_edges();
    assert_eq!(edges.len(), 2 + 3 + 1);
    assert_eq!(edges[5].edge_type, "Citation");
    assert_eq!(edges[5].object, "123");
}

#[test]
fn journal_issue_needs_its_date() {
    let mut issue = JournalIssueBuilder::new();
    for line in ["<JournalIssue>", "<Volume>1</Volume>", "</JournalIssue>"] {
        issue.parse(line).unwrap();
    }
    assert!(issue.can_build());
    assert!(issue.build().is_err());
}

#[test]
fn gene_symbols_are_listed() {
    let mut genes = GeneSymbolListBuilder::new();
    for line in ["<GeneSymbolList>", "<GeneSymbol>BRCA1</GeneSymbol>", "<GeneSymbol>TP53</GeneSymbol>", "</GeneSymbolList>"] {
        assert!(genes.parse(line).unwrap());
    }
    assert!(genes.can_build());
    assert_eq!(genes.build().unwrap(), vec!["BRCA1".to_string(), "TP53".to_string()]);
}

#[test]
fn supplemental_headings_carry_type() {
    let mut suppl = SupplMeshListBuilder::new();
    for line in [
        "<SupplMeshList>",
        "<SupplMeshName Type=\"Disease\" UI=\"C538\">Rare syndrome</SupplMeshName>",
        "</SupplMeshList>",
    ] {
        assert!(suppl.parse(line).unwrap());
    }
    let v = suppl.build().unwrap();
    assert_eq!(v.len(), 1);
    assert_eq!(v[0].code, "C538");
    assert_eq!(v[0].mesh_type, "Disease");
    assert_eq!(v[0].name, "Rare syndrome");
}

#[test]
fn other_abstracts_are_collected() {
    let mut others = OtherAbstractBuilder::new();
    assert!(!others.parse("<Unrelated>x</Unrelated>").unwrap());
    for line in [
        "<OtherAbstract Type=\"Publisher\" Language=\"eng\">",
        "<AbstractText>One.</AbstractText>",
        "</OtherAbstract>",
        "<OtherAbstract Type=\"Publisher\" Language=\"spa\">",
        "<AbstractText>Dos.</AbstractText>",
        "</OtherAbstract>",
    ] {
        assert!(others.parse(line).unwrap());
    }
    let v = others.build().unwrap();
    assert_eq!(v.len(), 2);
    assert_eq!(v[0].text, "One.");
    assert_eq!(v[1].language.as_deref(), Some("spa"));
}

#[test]
fn ignored_tag_tracks_its_block() {
    let mut tag = IgnoreTag::new("GrantList");
    assert!(!tag.parse("<Other>").unwrap());
    assert!(tag.parse("<GrantList CompleteYN=\"Y\">").unwrap());
    assert!(tag.parse("<Grant>").unwrap());
    assert!(tag.parse("</GrantList>").unwrap());
    assert!(!tag.parse("<Other>").unwrap());
}
