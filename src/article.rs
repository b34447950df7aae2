//! The record model: immutable entities produced by the builders, and their
//! mathematical views.

use vstd::prelude::*;
use crate::text::{append_chars, chars_of, decimal, decimal_string, join, join_strings, strip, strip_chars, string_of};

verus! {

/// A sequence of values seen through their views.
pub open spec fn seq_view<T: View>(s: Seq<T>) -> Seq<T::V> {
    s.map_values(|x: T| x@)
}

/// An optional string seen as characters.
pub open spec fn opt_view(o: Option<String>) -> Option<Seq<char>> {
    match o {
        Some(s) => Some(s@),
        None => None,
    }
}

pub struct Date {
    pub year: Option<u16>,
    pub month: Option<String>,
    pub day: Option<u8>,
}

pub struct DateView {
    pub year: Option<nat>,
    pub month: Option<Seq<char>>,
    pub day: Option<nat>,
}

impl View for Date {
    type V = DateView;

    open spec fn view(&self) -> DateView {
        DateView {
            year: match self.year {
                Some(y) => Some(y as nat),
                None => None,
            },
            month: opt_view(self.month),
            day: match self.day {
                Some(d) => Some(d as nat),
                None => None,
            },
        }
    }
}

pub struct JournalIssue {
    pub volume: Option<String>,
    pub issue: Option<String>,
    pub pubblication_date: Date,
}

pub struct JournalIssueView {
    pub volume: Option<Seq<char>>,
    pub issue: Option<Seq<char>>,
    pub pubblication_date: DateView,
}

impl View for JournalIssue {
    type V = JournalIssueView;

    open spec fn view(&self) -> JournalIssueView {
        JournalIssueView {
            volume: opt_view(self.volume),
            issue: opt_view(self.issue),
            pubblication_date: self.pubblication_date@,
        }
    }
}

pub struct Journal {
    pub issn: Option<String>,
    pub title: String,
    pub iso_abbreviation: Option<String>,
    pub journal_issue: JournalIssue,
}

pub struct JournalView {
    pub issn: Option<Seq<char>>,
    pub title: Seq<char>,
    pub iso_abbreviation: Option<Seq<char>>,
    pub journal_issue: JournalIssueView,
}

impl View for Journal {
    type V = JournalView;

    open spec fn view(&self) -> JournalView {
        JournalView {
            issn: opt_view(self.issn),
            title: self.title@,
            iso_abbreviation: opt_view(self.iso_abbreviation),
            journal_issue: self.journal_issue@,
        }
    }
}

pub struct Chemical {
    pub registry_number: String,
    pub name_of_substance: String,
    pub code: String,
}

pub struct ChemicalView {
    pub registry_number: Seq<char>,
    pub name_of_substance: Seq<char>,
    pub code: Seq<char>,
}

impl View for Chemical {
    type V = ChemicalView;

    open spec fn view(&self) -> ChemicalView {
        ChemicalView {
            registry_number: self.registry_number@,
            name_of_substance: self.name_of_substance@,
            code: self.code@,
        }
    }
}

#[derive(Debug)]
pub struct MeshTopic {
    pub name: String,
    pub code: String,
    pub is_major_topic: bool,
}

pub struct MeshTopicView {
    pub name: Seq<char>,
    pub code: Seq<char>,
    pub is_major_topic: bool,
}

impl View for MeshTopic {
    type V = MeshTopicView;

    open spec fn view(&self) -> MeshTopicView {
        MeshTopicView { name: self.name@, code: self.code@, is_major_topic: self.is_major_topic }
    }
}

#[derive(Debug)]
pub struct Keyword {
    pub name: String,
    pub is_major_topic: bool,
}

pub struct KeywordView {
    pub name: Seq<char>,
    pub is_major_topic: bool,
}

impl View for Keyword {
    type V = KeywordView;

    open spec fn view(&self) -> KeywordView {
        KeywordView { name: self.name@, is_major_topic: self.is_major_topic }
    }
}

#[derive(Debug)]
pub struct Mesh {
    pub descriptor: MeshTopic,
    pub qualifier: Option<MeshTopic>,
}

pub struct MeshView {
    pub descriptor: MeshTopicView,
    pub qualifier: Option<MeshTopicView>,
}

impl View for Mesh {
    type V = MeshView;

    open spec fn view(&self) -> MeshView {
        MeshView {
            descriptor: self.descriptor@,
            qualifier: match self.qualifier {
                Some(q) => Some(q@),
                None => None,
            },
        }
    }
}

#[derive(Debug)]
pub struct SupplMesh {
    pub code: String,
    pub name: String,
    pub mesh_type: String,
}

pub struct SupplMeshView {
    pub code: Seq<char>,
    pub name: Seq<char>,
    pub mesh_type: Seq<char>,
}

impl View for SupplMesh {
    type V = SupplMeshView;

    open spec fn view(&self) -> SupplMeshView {
        SupplMeshView { code: self.code@, name: self.name@, mesh_type: self.mesh_type@ }
    }
}

#[derive(Debug)]
pub struct Abstract {
    pub text: String,
    pub abstract_type: Option<String>,
    pub language: Option<String>,
}

pub struct AbstractView {
    pub text: Seq<char>,
    pub abstract_type: Option<Seq<char>>,
    pub language: Option<Seq<char>>,
}

impl View for Abstract {
    type V = AbstractView;

    open spec fn view(&self) -> AbstractView {
        AbstractView {
            text: self.text@,
            abstract_type: opt_view(self.abstract_type),
            language: opt_view(self.language),
        }
    }
}

#[derive(Debug)]
pub struct ArticleId {
    pub id_type: String,
    pub value: String,
}

pub struct ArticleIdView {
    pub id_type: Seq<char>,
    pub value: Seq<char>,
}

impl View for ArticleId {
    type V = ArticleIdView;

    open spec fn view(&self) -> ArticleIdView {
        ArticleIdView { id_type: self.id_type@, value: self.value@ }
    }
}

/// A node of the graph.
pub struct Node {
    pub node_name: String,
    pub node_type: String,
    pub description: String,
}

pub struct NodeView {
    pub node_name: Seq<char>,
    pub node_type: Seq<char>,
    pub description: Seq<char>,
}

impl View for Node {
    type V = NodeView;

    open spec fn view(&self) -> NodeView {
        NodeView {
            node_name: self.node_name@,
            node_type: self.node_type@,
            description: self.description@,
        }
    }
}

/// A directed edge of the graph.
pub struct Edge {
    pub subject: String,
    pub object: String,
    pub edge_type: String,
}

pub struct EdgeView {
    pub subject: Seq<char>,
    pub object: Seq<char>,
    pub edge_type: Seq<char>,
}

impl View for Edge {
    type V = EdgeView;

    open spec fn view(&self) -> EdgeView {
        EdgeView { subject: self.subject@, object: self.object@, edge_type: self.edge_type@ }
    }
}

/// One citation record.
pub struct Article {
    pub completion_date: Option<Date>,
    pub revision_date: Option<Date>,
    pub pubmed_id: u32,
    pub article_ids: Vec<ArticleId>,
    pub journal: Journal,
    pub title: Option<String>,
    pub abstract_text: Option<Abstract>,
    pub other_abstract_texts: Vec<Abstract>,
    pub chemical_list: Vec<Chemical>,
    pub gene_symbol_list: Vec<String>,
    pub mesh_list: Vec<Mesh>,
    pub suppl_mesh_list: Vec<SupplMesh>,
    pub references: Vec<usize>,
    pub keywords: Vec<Keyword>,
}

pub struct ArticleView {
    pub completion_date: Option<DateView>,
    pub revision_date: Option<DateView>,
    pub pubmed_id: nat,
    pub article_ids: Seq<ArticleIdView>,
    pub journal: JournalView,
    pub title: Option<Seq<char>>,
    pub abstract_text: Option<AbstractView>,
    pub other_abstract_texts: Seq<AbstractView>,
    pub chemical_list: Seq<ChemicalView>,
    pub gene_symbol_list: Seq<Seq<char>>,
    pub mesh_list: Seq<MeshView>,
    pub suppl_mesh_list: Seq<SupplMeshView>,
    pub references: Seq<nat>,
    pub keywords: Seq<KeywordView>,
}

pub open spec fn opt_date_view(o: Option<Date>) -> Option<DateView> {
    match o {
        Some(d) => Some(d@),
        None => None,
    }
}

pub open spec fn nat_seq(s: Seq<usize>) -> Seq<nat> {
    s.map_values(|x: usize| x as nat)
}

impl View for Article {
    type V = ArticleView;

    open spec fn view(&self) -> ArticleView {
        ArticleView {
            completion_date: opt_date_view(self.completion_date),
            revision_date: opt_date_view(self.revision_date),
            pubmed_id: self.pubmed_id as nat,
            article_ids: seq_view(self.article_ids@),
            journal: self.journal@,
            title: opt_view(self.title),
            abstract_text: match self.abstract_text {
                Some(a) => Some(a@),
                None => None,
            },
            other_abstract_texts: seq_view(self.other_abstract_texts@),
            chemical_list: seq_view(self.chemical_list@),
            gene_symbol_list: seq_view(self.gene_symbol_list@),
            mesh_list: seq_view(self.mesh_list@),
            suppl_mesh_list: seq_view(self.suppl_mesh_list@),
            references: nat_seq(self.references@),
            keywords: seq_view(self.keywords@),
        }
    }
}

pub open spec fn abstract_texts(s: Seq<AbstractView>) -> Seq<Seq<char>> {
    s.map_values(|x: AbstractView| x.text)
}

/// The description of a record's node: title, abstract and other abstracts
/// separated by `|`, without `|` at either end; a missing title stands as `|`.
pub open spec fn paper_description(a: ArticleView) -> Seq<char> {
    let title = match a.title {
        Some(t) => t,
        None => seq!['|'],
    };
    let abstract_text = match a.abstract_text {
        Some(x) => x.text,
        None => Seq::empty(),
    };
    let others = join(abstract_texts(a.other_abstract_texts), seq!['|']);
    strip(title + seq!['|'] + abstract_text + seq!['|'] + others, Some('|'))
}

pub open spec fn chemical_nodes(cs: Seq<ChemicalView>) -> Seq<NodeView> {
    cs.map_values(
        |c: ChemicalView|
            NodeView { node_name: c.code, node_type: "Chemical"@, description: c.name_of_substance },
    )
}

pub open spec fn gene_nodes(gs: Seq<Seq<char>>) -> Seq<NodeView> {
    gs.map_values(
        |g: Seq<char>| NodeView { node_name: g, node_type: "Gene"@, description: Seq::empty() },
    )
}

pub open spec fn topic_node(t: MeshTopicView) -> NodeView {
    NodeView { node_name: t.code, node_type: "Mesh"@, description: t.name }
}

/// The nodes of one heading: its descriptor, then its qualifier if any.
pub open spec fn heading_nodes(m: MeshView) -> Seq<NodeView> {
    seq![topic_node(m.descriptor)] + match m.qualifier {
        Some(q) => seq![topic_node(q)],
        None => Seq::empty(),
    }
}

pub open spec fn mesh_nodes(ms: Seq<MeshView>) -> Seq<NodeView>
    decreases ms.len(),
{
    if ms.len() == 0 {
        Seq::empty()
    } else {
        mesh_nodes(ms.drop_last()) + heading_nodes(ms.last())
    }
}

pub open spec fn suppl_nodes(ss: Seq<SupplMeshView>) -> Seq<NodeView> {
    ss.map_values(
        |m: SupplMeshView| NodeView { node_name: m.code, node_type: m.mesh_type, description: m.name },
    )
}

pub open spec fn keyword_nodes(ks: Seq<KeywordView>) -> Seq<NodeView> {
    ks.map_values(
        |k: KeywordView| NodeView { node_name: k.name, node_type: "Keyword"@, description: Seq::empty() },
    )
}

/// The nodes of a record: one paper node, then one node per chemical, gene
/// symbol, heading descriptor and qualifier, supplemental heading and
/// keyword, in that order.
pub open spec fn nodes_of(a: ArticleView) -> Seq<NodeView> {
    seq![
        NodeView {
            node_name: decimal(a.pubmed_id),
            node_type: "Paper"@,
            description: paper_description(a),
        },
    ] + chemical_nodes(a.chemical_list) + gene_nodes(a.gene_symbol_list) + mesh_nodes(
        a.mesh_list,
    ) + suppl_nodes(a.suppl_mesh_list) + keyword_nodes(a.keywords)
}

pub open spec fn chemical_edges(id: Seq<char>, cs: Seq<ChemicalView>) -> Seq<EdgeView> {
    cs.map_values(
        |c: ChemicalView| EdgeView { subject: id, object: c.code, edge_type: "PaperToChemical"@ },
    )
}

pub open spec fn gene_edges(id: Seq<char>, gs: Seq<Seq<char>>) -> Seq<EdgeView> {
    gs.map_values(|g: Seq<char>| EdgeView { subject: id, object: g, edge_type: "PaperToGene"@ })
}

pub open spec fn topic_edge(id: Seq<char>, t: MeshTopicView) -> EdgeView {
    EdgeView { subject: id, object: t.code, edge_type: "PaperToMesh"@ }
}

pub open spec fn heading_edges(id: Seq<char>, m: MeshView) -> Seq<EdgeView> {
    seq![topic_edge(id, m.descriptor)] + match m.qualifier {
        Some(q) => seq![topic_edge(id, q)],
        None => Seq::empty(),
    }
}

pub open spec fn mesh_edges(id: Seq<char>, ms: Seq<MeshView>) -> Seq<EdgeView>
    decreases ms.len(),
{
    if ms.len() == 0 {
        Seq::empty()
    } else {
        mesh_edges(id, ms.drop_last()) + heading_edges(id, ms.last())
    }
}

/// The edge type of a supplemental heading names the heading's own type.
pub open spec fn suppl_edges(id: Seq<char>, ss: Seq<SupplMeshView>) -> Seq<EdgeView> {
    ss.map_values(
        |m: SupplMeshView|
            EdgeView { subject: id, object: m.code, edge_type: "PaperTo"@ + m.mesh_type },
    )
}

pub open spec fn keyword_edges(id: Seq<char>, ks: Seq<KeywordView>) -> Seq<EdgeView> {
    ks.map_values(
        |k: KeywordView| EdgeView { subject: id, object: k.name, edge_type: "PaperToKeyword"@ },
    )
}

pub open spec fn reference_edges(id: Seq<char>, rs: Seq<nat>) -> Seq<EdgeView> {
    rs.map_values(|r: nat| EdgeView { subject: id, object: decimal(r), edge_type: "Citation"@ })
}

/// The edges of a record, all from the record's id: one per chemical, gene
/// symbol, heading descriptor and qualifier, supplemental heading, keyword
/// and reference, in that order.
pub open spec fn edges_of(a: ArticleView) -> Seq<EdgeView> {
    let id = decimal(a.pubmed_id);
    chemical_edges(id, a.chemical_list) + gene_edges(id, a.gene_symbol_list) + mesh_edges(
        id,
        a.mesh_list,
    ) + suppl_edges(id, a.suppl_mesh_list) + keyword_edges(id, a.keywords) + reference_edges(
        id,
        a.references,
    )
}

fn node(node_name: String, node_type: &str, description: String) -> (r: Node)
    ensures
        r@ == (NodeView { node_name: node_name@, node_type: node_type@, description: description@ }),
{
    Node { node_name, node_type: String::from_str(node_type), description }
}

fn edge(subject: &String, object: String, edge_type: String) -> (r: Edge)
    ensures
        r@ == (EdgeView { subject: subject@, object: object@, edge_type: edge_type@ }),
{
    Edge { subject: subject.clone(), object, edge_type }
}

impl Article {
    fn description(&self) -> (r: String)
        ensures
            r@ == paper_description(self@),
    {
        let mut d: Vec<char> = Vec::new();
        match &self.title {
            Some(t) => append_chars(&mut d, chars_of(t.as_str()).as_slice()),
            None => d.push('|'),
        }
        d.push('|');
        match &self.abstract_text {
            Some(a) => append_chars(&mut d, chars_of(a.text.as_str()).as_slice()),
            None => {},
        }
        d.push('|');
        let mut texts: Vec<String> = Vec::new();
        let mut i: usize = 0;
        while i < self.other_abstract_texts.len()
            invariant
                i <= self.other_abstract_texts@.len(),
                texts@.len() == i,
                seq_view(texts@) == abstract_texts(self@.other_abstract_texts).subrange(0, i as int),
            decreases self.other_abstract_texts@.len() - i,
        {
            let ghost before = texts@;
            texts.push(self.other_abstract_texts[i].text.clone());
            assert(texts@[i as int]@ == abstract_texts(self@.other_abstract_texts)[i as int]);
            assert(seq_view(texts@) =~= seq_view(before).push(texts@[i as int]@));
            assert(seq_view(texts@) =~= abstract_texts(self@.other_abstract_texts).subrange(0, i + 1));
            i = i + 1;
        }
        assert(abstract_texts(self@.other_abstract_texts).subrange(0, i as int) =~= abstract_texts(self@.other_abstract_texts));
        let others = join_strings(&texts, "|");
        proof {
            reveal_strlit("|");
        }
        assert("|"@ =~= seq!['|']);
        assert(seq_view(texts@) == abstract_texts(self@.other_abstract_texts));
        assert(others@ == join(abstract_texts(self@.other_abstract_texts), seq!['|']));
        append_chars(&mut d, chars_of(others.as_str()).as_slice());
        let ghost title = match self@.title {
            Some(t) => t,
            None => seq!['|'],
        };
        let ghost abstract_text = match self@.abstract_text {
            Some(x) => x.text,
            None => Seq::<char>::empty(),
        };
        assert(d@ =~= title + seq!['|'] + abstract_text + seq!['|'] + others@);
        let r = string_of(strip_chars(d.as_slice(), Some('|')));
        assert(r@ == strip(title + seq!['|'] + abstract_text + seq!['|'] + others@, Some('|')));
        r
    }

    /// The graph nodes of the record.
    pub fn to_nodes(&self) -> (r: Vec<Node>)
        ensures
            seq_view(r@) == nodes_of(self@),
    {
        let id = decimal_string(self.pubmed_id as u64);
        let mut nodes = vec![node(id, "Paper", self.description())];
        let ghost base = seq_view(nodes@);
        let mut i: usize = 0;
        while i < self.chemical_list.len()
            invariant
                i <= self.chemical_list@.len(),
                seq_view(nodes@) == base + chemical_nodes(self@.chemical_list.subrange(0, i as int)),
            decreases self.chemical_list@.len() - i,
        {
            let c = &self.chemical_list[i];
            let ghost before = nodes@;
            nodes.push(node(c.code.clone(), "Chemical", c.name_of_substance.clone()));
            assert(seq_view(nodes@) =~= seq_view(before).push(nodes@.last()@));
            assert(chemical_nodes(self@.chemical_list.subrange(0, i + 1)) =~= chemical_nodes(self@.chemical_list.subrange(0, i as int)).push(nodes@.last()@));
            i = i + 1;
        }
        assert(self@.chemical_list.subrange(0, i as int) =~= self@.chemical_list);
        let ghost base = seq_view(nodes@);
        let mut i: usize = 0;
        while i < self.gene_symbol_list.len()
            invariant
                i <= self.gene_symbol_list@.len(),
                seq_view(nodes@) == base + gene_nodes(self@.gene_symbol_list.subrange(0, i as int)),
            decreases self.gene_symbol_list@.len() - i,
        {
            let ghost before = nodes@;
            nodes.push(node(self.gene_symbol_list[i].clone(), "Gene", String::new()));
            assert(seq_view(nodes@) =~= seq_view(before).push(nodes@.last()@));
            assert(gene_nodes(self@.gene_symbol_list.subrange(0, i + 1)) =~= gene_nodes(self@.gene_symbol_list.subrange(0, i as int)).push(nodes@.last()@));
            i = i + 1;
        }
        assert(self@.gene_symbol_list.subrange(0, i as int) =~= self@.gene_symbol_list);
        let ghost base = seq_view(nodes@);
        let mut i: usize = 0;
        assert(self@.mesh_list.subrange(0, 0) =~= Seq::<MeshView>::empty());
        while i < self.mesh_list.len()
            invariant
                i <= self.mesh_list@.len(),
                seq_view(nodes@) == base + mesh_nodes(self@.mesh_list.subrange(0, i as int)),
            decreases self.mesh_list@.len() - i,
        {
            let m = &self.mesh_list[i];
            let ghost before = seq_view(nodes@);
            assert(self@.mesh_list.subrange(0, i + 1).drop_last() =~= self@.mesh_list.subrange(0, i as int));
            nodes.push(node(m.descriptor.code.clone(), "Mesh", m.descriptor.name.clone()));
            match &m.qualifier {
                Some(q) => {
                    nodes.push(node(q.code.clone(), "Mesh", q.name.clone()));
                },
                None => {},
            }
            assert(seq_view(nodes@) =~= before + heading_nodes(m@));
            i = i + 1;
        }
        assert(self@.mesh_list.subrange(0, i as int) =~= self@.mesh_list);
        let ghost base = seq_view(nodes@);
        let mut i: usize = 0;
        while i < self.suppl_mesh_list.len()
            invariant
                i <= self.suppl_mesh_list@.len(),
                seq_view(nodes@) == base + suppl_nodes(self@.suppl_mesh_list.subrange(0, i as int)),
            decreases self.suppl_mesh_list@.len() - i,
        {
            let m = &self.suppl_mesh_list[i];
            let ghost before = nodes@;
            nodes.push(Node { node_name: m.code.clone(), node_type: m.mesh_type.clone(), description: m.name.clone() });
            assert(seq_view(nodes@) =~= seq_view(before).push(nodes@.last()@));
            assert(suppl_nodes(self@.suppl_mesh_list.subrange(0, i + 1)) =~= suppl_nodes(self@.suppl_mesh_list.subrange(0, i as int)).push(nodes@.last()@));
            i = i + 1;
        }
        assert(self@.suppl_mesh_list.subrange(0, i as int) =~= self@.suppl_mesh_list);
        let ghost base = seq_view(nodes@);
        let mut i: usize = 0;
        while i < self.keywords.len()
            invariant
                i <= self.keywords@.len(),
                seq_view(nodes@) == base + keyword_nodes(self@.keywords.subrange(0, i as int)),
            decreases self.keywords@.len() - i,
        {
            let ghost before = nodes@;
            nodes.push(node(self.keywords[i].name.clone(), "Keyword", String::new()));
            assert(seq_view(nodes@) =~= seq_view(before).push(nodes@.last()@));
            assert(keyword_nodes(self@.keywords.subrange(0, i + 1)) =~= keyword_nodes(self@.keywords.subrange(0, i as int)).push(nodes@.last()@));
            i = i + 1;
        }
        assert(self@.keywords.subrange(0, i as int) =~= self@.keywords);
        assert(seq_view(nodes@) =~= nodes_of(self@));
        nodes
    }

    /// The graph edges of the record.
    pub fn to_edges(&self) -> (r: Vec<Edge>)
        ensures
            seq_view(r@) == edges_of(self@),
    {
        let id = decimal_string(self.pubmed_id as u64);
        let ghost sid = decimal(self.pubmed_id as nat);
        let mut edges: Vec<Edge> = Vec::new();
        let mut i: usize = 0;
        assert(seq_view(edges@) =~= Seq::<EdgeView>::empty());
        while i < self.chemical_list.len()
            invariant
                id@ == sid,
                i <= self.chemical_list@.len(),
                seq_view(edges@) == chemical_edges(sid, self@.chemical_list.subrange(0, i as int)),
            decreases self.chemical_list@.len() - i,
        {
            let ghost before = edges@;
            edges.push(edge(&id, self.chemical_list[i].code.clone(), String::from_str("PaperToChemical")));
            assert(seq_view(edges@) =~= seq_view(before).push(edges@.last()@));
            assert(chemical_edges(sid, self@.chemical_list.subrange(0, i + 1)) =~= chemical_edges(sid, self@.chemical_list.subrange(0, i as int)).push(edges@.last()@));
            i = i + 1;
        }
        assert(self@.chemical_list.subrange(0, i as int) =~= self@.chemical_list);
        let ghost base = seq_view(edges@);
        let mut i: usize = 0;
        while i < self.gene_symbol_list.len()
            invariant
                id@ == sid,
                i <= self.gene_symbol_list@.len(),
                seq_view(edges@) == base + gene_edges(sid, self@.gene_symbol_list.subrange(0, i as int)),
            decreases self.gene_symbol_list@.len() - i,
        {
            let ghost before = edges@;
            edges.push(edge(&id, self.gene_symbol_list[i].clone(), String::from_str("PaperToGene")));
            assert(seq_view(edges@) =~= seq_view(before).push(edges@.last()@));
            assert(gene_edges(sid, self@.gene_symbol_list.subrange(0, i + 1)) =~= gene_edges(sid, self@.gene_symbol_list.subrange(0, i as int)).push(edges@.last()@));
            i = i + 1;
        }
        assert(self@.gene_symbol_list.subrange(0, i as int) =~= self@.gene_symbol_list);
        let ghost base = seq_view(edges@);
        let mut i: usize = 0;
        assert(self@.mesh_list.subrange(0, 0) =~= Seq::<MeshView>::empty());
        while i < self.mesh_list.len()
            invariant
                id@ == sid,
                i <= self.mesh_list@.len(),
                seq_view(edges@) == base + mesh_edges(sid, self@.mesh_list.subrange(0, i as int)),
            decreases self.mesh_list@.len() - i,
        {
            let m = &self.mesh_list[i];
            let ghost before = seq_view(edges@);
            assert(self@.mesh_list.subrange(0, i + 1).drop_last() =~= self@.mesh_list.subrange(0, i as int));
            edges.push(edge(&id, m.descriptor.code.clone(), String::from_str("PaperToMesh")));
            match &m.qualifier {
                Some(q) => {
                    edges.push(edge(&id, q.code.clone(), String::from_str("PaperToMesh")));
                },
                None => {},
            }
            assert(seq_view(edges@) =~= before + heading_edges(sid, m@));
            i = i + 1;
        }
        assert(self@.mesh_list.subrange(0, i as int) =~= self@.mesh_list);
        let ghost base = seq_view(edges@);
        let mut i: usize = 0;
        while i < self.suppl_mesh_list.len()
            invariant
                id@ == sid,
                i <= self.suppl_mesh_list@.len(),
                seq_view(edges@) == base + suppl_edges(sid, self@.suppl_mesh_list.subrange(0, i as int)),
            decreases self.suppl_mesh_list@.len() - i,
        {
            let m = &self.suppl_mesh_list[i];
            let ghost before = edges@;
            let edge_type = String::from_str("PaperTo").concat(m.mesh_type.as_str());
            edges.push(edge(&id, m.code.clone(), edge_type));
            assert(seq_view(edges@) =~= seq_view(before).push(edges@.last()@));
            assert(suppl_edges(sid, self@.suppl_mesh_list.subrange(0, i + 1)) =~= suppl_edges(sid, self@.suppl_mesh_list.subrange(0, i as int)).push(edges@.last()@));
            i = i + 1;
        }
        assert(self@.suppl_mesh_list.subrange(0, i as int) =~= self@.suppl_mesh_list);
        let ghost base = seq_view(edges@);
        let mut i: usize = 0;
        while i < self.keywords.len()
            invariant
                id@ == sid,
                i <= self.keywords@.len(),
                seq_view(edges@) == base + keyword_edges(sid, self@.keywords.subrange(0, i as int)),
            decreases self.keywords@.len() - i,
        {
            let ghost before = edges@;
            edges.push(edge(&id, self.keywords[i].name.clone(), String::from_str("PaperToKeyword")));
            assert(seq_view(edges@) =~= seq_view(before).push(edges@.last()@));
            assert(keyword_edges(sid, self@.keywords.subrange(0, i + 1)) =~= keyword_edges(sid, self@.keywords.subrange(0, i as int)).push(edges@.last()@));
            i = i + 1;
        }
        assert(self@.keywords.subrange(0, i as int) =~= self@.keywords);
        let ghost base = seq_view(edges@);
        let mut i: usize = 0;
        while i < self.references.len()
            invariant
                id@ == sid,
                i <= self.references@.len(),
                seq_view(edges@) == base + reference_edges(sid, self@.references.subrange(0, i as int)),
            decreases self.references@.len() - i,
        {
            let ghost before = edges@;
            let r = self.references[i];
            edges.push(edge(&id, decimal_string(r as u64), String::from_str("Citation")));
            assert(seq_view(edges@) =~= seq_view(before).push(edges@.last()@));
            assert(reference_edges(sid, self@.references.subrange(0, i + 1)) =~= reference_edges(sid, self@.references.subrange(0, i as int)).push(edges@.last()@));
            i = i + 1;
        }
        assert(self@.references.subrange(0, i as int) =~= self@.references);
        assert(seq_view(edges@) =~= edges_of(self@));
        edges
    }
}

} // verus!
