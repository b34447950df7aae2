//! The record parser: dispatches each line of one record to the parser of
//! the element it belongs to, and assembles the record once it closes.

use vstd::prelude::*;
use crate::article::{Article, ArticleView, seq_view};
use crate::error::{ErrorView, ParseError, outcome};
use crate::leaf::{
    LeafKind, LeafModel, LineModel, ObjectBuilder, attempt, offer, offer_always,
};
use crate::lists::{
    ArticleIdsBuilder, ArticleIdsModel, ChemicalListBuilder, ChemicalListModel,
    GeneSymbolListBuilder, GeneSymbolListModel, KeywordListBuilder, KeywordListModel,
    MeshListBuilder, MeshListModel, OtherAbstractBuilder, OtherAbstractModel, ReferencesBuilder,
    ReferencesModel, SupplMeshListBuilder, SupplMeshListModel,
};
use crate::records::{AbstractBuilder, AbstractModel, DateBuilder, DateModel, JournalBuilder, JournalModel};
use crate::tag::{TagModel, XMLHelper};
use crate::text::{chars_of, has_suffix};

verus! {

/// One line offered to an ignored tag: taken while the tag is open or on
/// the line that closes it; its content is dropped.
pub open spec fn ignore_step(tag: TagModel, line: Seq<char>) -> (TagModel, Result<bool, ErrorView>) {
    let (t, r) = tag.step(line);
    match r {
        Err(e) => (t, Err(e)),
        Ok(_) => (t, Ok(t.reports())),
    }
}

/// Offers a line to the ignored tags from index `i` on, until one takes it.
pub open spec fn ignore_from(tags: Seq<TagModel>, line: Seq<char>, i: int) -> (
    Seq<TagModel>,
    Result<bool, ErrorView>,
)
    decreases tags.len() - i,
{
    if i < 0 || i >= tags.len() {
        (tags, Ok(false))
    } else {
        let (t, r) = ignore_step(tags[i], line);
        let next = tags.update(i, t);
        if r == Ok::<bool, ErrorView>(false) {
            ignore_from(next, line, i + 1)
        } else {
            (next, r)
        }
    }
}

/// Skips one well-formed block whose content the record does not keep.
pub struct IgnoreTag {
    xml_helper: XMLHelper,
}

impl View for IgnoreTag {
    type V = TagModel;

    closed spec fn view(&self) -> TagModel {
        self.xml_helper@
    }
}

impl IgnoreTag {
    pub fn new(tag: &str) -> (r: Self)
        ensures
            r@ == TagModel::fresh(tag@, false, Seq::empty()),
    {
        IgnoreTag { xml_helper: XMLHelper::new(tag) }
    }

    pub fn step(&mut self, line: &[char]) -> (r: Result<bool, ParseError>)
        ensures
            (final(self)@, outcome(r)) == ignore_step(old(self)@, line@),
    {
        let _ = self.xml_helper.step(line)?;
        Ok(self.xml_helper.reports())
    }

    pub fn parse(&mut self, line: &str) -> (r: Result<bool, ParseError>)
        ensures
            (final(self)@, outcome(r)) == ignore_step(old(self)@, line@),
    {
        let chars = chars_of(line);
        self.step(chars.as_slice())
    }
}

/// The states of the ignored tags, in order.
pub struct IgnoreTagsModel {
    pub tags: Seq<TagModel>,
}

impl IgnoreTagsModel {
    pub open spec fn fresh(names: Seq<Seq<char>>) -> IgnoreTagsModel {
        IgnoreTagsModel {
            tags: names.map_values(|n: Seq<char>| TagModel::fresh(n, false, Seq::empty())),
        }
    }
}

impl LineModel for IgnoreTagsModel {
    /// Ignored blocks may come anywhere: the set never completes.
    open spec fn ready(self) -> bool {
        false
    }

    open spec fn step(self, line: Seq<char>) -> (IgnoreTagsModel, Result<bool, ErrorView>) {
        let (tags, r) = ignore_from(self.tags, line, 0);
        (IgnoreTagsModel { tags }, r)
    }
}

/// Skips the blocks of any of several tags.
pub struct IgnoreTags {
    ignored_tags: Vec<IgnoreTag>,
}

impl View for IgnoreTags {
    type V = IgnoreTagsModel;

    closed spec fn view(&self) -> IgnoreTagsModel {
        IgnoreTagsModel { tags: seq_view(self.ignored_tags@) }
    }
}

impl IgnoreTags {
    pub fn new(tags: &[&str]) -> (r: Self)
        ensures
            r@ == IgnoreTagsModel::fresh(tags@.map_values(|s: &str| s@)),
    {
        let mut ignored_tags: Vec<IgnoreTag> = Vec::new();
        let ghost names = tags@.map_values(|s: &str| s@);
        let ghost fresh = IgnoreTagsModel::fresh(names).tags;
        let mut i: usize = 0;
        while i < tags.len()
            invariant
                i <= tags@.len(),
                names == tags@.map_values(|s: &str| s@),
                fresh == IgnoreTagsModel::fresh(names).tags,
                seq_view(ignored_tags@) == fresh.subrange(0, i as int),
            decreases tags@.len() - i,
        {
            let t = IgnoreTag::new(tags[i]);
            assert(names[i as int] == tags@[i as int]@);
            assert(fresh[i as int] == t@);
            let ghost before = ignored_tags@;
            ignored_tags.push(t);
            assert(seq_view(ignored_tags@) =~= seq_view(before).push(t@));
            assert(seq_view(ignored_tags@) =~= fresh.subrange(0, i + 1));
            i = i + 1;
        }
        assert(fresh.subrange(0, i as int) =~= fresh);
        IgnoreTags { ignored_tags }
    }

    pub fn step(&mut self, line: &[char]) -> (r: Result<bool, ParseError>)
        ensures
            (final(self)@, outcome(r)) == old(self)@.step(line@),
    {
        let ghost start = seq_view(self.ignored_tags@);
        let mut i: usize = 0;
        while i < self.ignored_tags.len()
            invariant
                i <= self.ignored_tags@.len(),
                self.ignored_tags@.len() == start.len(),
                start == old(self)@.tags,
                ignore_from(seq_view(self.ignored_tags@), line@, i as int) == ignore_from(
                    start,
                    line@,
                    0,
                ),
            decreases self.ignored_tags@.len() - i,
        {
            let ghost before = seq_view(self.ignored_tags@);
            let ghost first = self.ignored_tags@[i as int]@;
            assert(before[i as int] == first);
            let r = self.ignored_tags[i].step(line);
            assert(ignore_step(first, line@) == (self.ignored_tags@[i as int]@, outcome(r)));
            assert(seq_view(self.ignored_tags@) =~= before.update(
                i as int,
                self.ignored_tags@[i as int]@,
            ));
            assert(ignore_from(before, line@, i as int) == if outcome(r) == Ok::<bool, ErrorView>(false) {
                ignore_from(seq_view(self.ignored_tags@), line@, i + 1)
            } else {
                (seq_view(self.ignored_tags@), outcome(r))
            });
            match r {
                Err(e) => return Err(e),
                Ok(true) => return Ok(true),
                Ok(false) => {},
            }
            i = i + 1;
        }
        Ok(false)
    }

    pub fn parse(&mut self, line: &str) -> (r: Result<bool, ParseError>)
        ensures
            (final(self)@, outcome(r)) == old(self)@.step(line@),
    {
        let chars = chars_of(line);
        self.step(chars.as_slice())
    }
}

/// The value of a build that may fail, where it did not.
pub open spec fn ok_of<T>(r: Result<T, ErrorView>) -> Option<T> {
    match r {
        Ok(v) => Some(v),
        Err(_) => None,
    }
}

/// The tags whose blocks a record skips.
pub open spec fn ignored_names() -> Seq<Seq<char>> {
    seq![
        "AuthorList"@,
        "PublicationTypeList"@,
        "MedlineJournalInfo"@,
        "History"@,
        "PersonalNameSubjectList"@,
        "DataBankList"@,
        "GrantList"@,
        "CoiStatement"@,
        "VernacularTitle"@,
        "CommentsCorrectionsList"@,
        "ArticleDate"@,
        "InvestigatorList"@,
    ]
}

/// The state of one record's parser.
pub struct ArticleModel {
    pub tag: TagModel,
    pub completion_date: DateModel,
    pub revised_date: DateModel,
    pub pmid: LeafModel,
    pub article_ids: ArticleIdsModel,
    pub journal: JournalModel,
    pub title: LeafModel,
    pub abstract_text: AbstractModel,
    pub other_abstracts: OtherAbstractModel,
    pub language: LeafModel,
    pub chemical_list: ChemicalListModel,
    pub mesh_list: MeshListModel,
    pub suppl_mesh_list: SupplMeshListModel,
    pub references: ReferencesModel,
    pub pip_keywords: KeywordListModel,
    pub kie_keywords: KeywordListModel,
    pub gene_symbol_list: GeneSymbolListModel,
    pub ignored_tags: IgnoreTagsModel,
}

impl ArticleModel {
    /// A parser that has seen no line.
    pub open spec fn fresh() -> ArticleModel {
        ArticleModel {
            tag: TagModel::fresh("PubmedArticle"@, false, Seq::empty()),
            completion_date: DateModel::fresh("DateCompleted"@),
            revised_date: DateModel::fresh("DateRevised"@),
            pmid: LeafModel::fresh("PMID"@, LeafKind::Number { max: 4294967295 }, Seq::empty()),
            article_ids: ArticleIdsModel::fresh(),
            journal: JournalModel::fresh(),
            title: LeafModel::fresh("ArticleTitle"@, LeafKind::Text, Seq::empty()),
            abstract_text: AbstractModel::fresh("Abstract"@),
            other_abstracts: OtherAbstractModel::fresh(),
            language: LeafModel::fresh("Language"@, LeafKind::Text, Seq::empty()),
            chemical_list: ChemicalListModel::fresh(),
            mesh_list: MeshListModel::fresh(),
            suppl_mesh_list: SupplMeshListModel::fresh(),
            references: ReferencesModel::fresh(),
            pip_keywords: KeywordListModel::fresh("PIP"@),
            kie_keywords: KeywordListModel::fresh("KIE"@),
            gene_symbol_list: GeneSymbolListModel::fresh(),
            ignored_tags: IgnoreTagsModel::fresh(ignored_names()),
        }
    }

    /// The number leaves read numbers that fit their fields.
    pub open spec fn wf(self) -> bool {
        &&& self.pmid.kind == (LeafKind::Number { max: 4294967295 })
        &&& self.completion_date.wf()
        &&& self.revised_date.wf()
        &&& self.journal.wf()
        &&& self.references.wf()
    }

    /// The record is complete once its own tag has closed.
    pub open spec fn ready(self) -> bool {
        self.tag.ready()
    }

    /// The first parsers of the record, which complete once: dates, id,
    /// identifiers, journal, title and abstract.
    #[verifier::opaque]
    pub open spec fn front(self, rest: Seq<char>) -> (ArticleModel, Result<bool, ErrorView>) {
        let (completion_date, r1) = attempt(self.completion_date, rest);
        let (revised_date, r2) = offer(r1, self.revised_date, rest);
        let (pmid, r3) = offer(r2, self.pmid, rest);
        let (article_ids, r4) = offer(r3, self.article_ids, rest);
        let (journal, r5) = offer(r4, self.journal, rest);
        let (title, r6) = offer(r5, self.title, rest);
        let (abstract_text, r7) = offer(r6, self.abstract_text, rest);
        (
            ArticleModel {
                completion_date,
                revised_date,
                pmid,
                article_ids,
                journal,
                title,
                abstract_text,
                ..self
            },
            r7,
        )
    }

    /// The parsers offered every line: other abstracts, ignored blocks and
    /// the language.
    #[verifier::opaque]
    pub open spec fn middle(self, rest: Seq<char>) -> (ArticleModel, Result<bool, ErrorView>) {
        let (other_abstracts, r8) = self.other_abstracts.step(rest);
        let (ignored_tags, r9) = offer_always(r8, self.ignored_tags, rest);
        let (language, r10) = offer_always(r9, self.language, rest);
        (ArticleModel { other_abstracts, ignored_tags, language, ..self }, r10)
    }

    /// The lists of the record; the reference list is offered every line.
    #[verifier::opaque]
    pub open spec fn back(self, rest: Seq<char>) -> (ArticleModel, Result<bool, ErrorView>) {
        let (chemical_list, r11) = attempt(self.chemical_list, rest);
        let (gene_symbol_list, r12) = offer(r11, self.gene_symbol_list, rest);
        let (mesh_list, r13) = offer(r12, self.mesh_list, rest);
        let (suppl_mesh_list, r14) = offer(r13, self.suppl_mesh_list, rest);
        let (pip_keywords, r15) = offer(r14, self.pip_keywords, rest);
        let (kie_keywords, r16) = offer(r15, self.kie_keywords, rest);
        let (references, r17) = offer_always(r16, self.references, rest);
        (
            ArticleModel {
                chemical_list,
                gene_symbol_list,
                mesh_list,
                suppl_mesh_list,
                pip_keywords,
                kie_keywords,
                references,
                ..self
            },
            r17,
        )
    }

    /// The parsers, in their fixed order, until one takes the line.
    pub open spec fn dispatch(self, rest: Seq<char>) -> (ArticleModel, Result<bool, ErrorView>) {
        let (m1, ra) = self.front(rest);
        if ra != Ok::<bool, ErrorView>(false) {
            (m1, ra)
        } else {
            let (m2, rb) = m1.middle(rest);
            if rb != Ok::<bool, ErrorView>(false) {
                (m2, rb)
            } else {
                m2.back(rest)
            }
        }
    }

    /// One line: the new state, and whether some parser took the line. The
    /// record's own tag strips the line first; what is left goes to the
    /// parsers in a fixed order, skipping those already complete (the other
    /// abstracts, the ignored blocks, the language and the references are
    /// offered every line), until one takes it. A line that none takes is
    /// an error.
    pub open spec fn step(self, line: Seq<char>) -> (ArticleModel, Result<(), ErrorView>) {
        let (tag, r0) = self.tag.step(line);
        match r0 {
            Err(e) => (ArticleModel { tag, ..self }, Err(e)),
            Ok(rest) => if rest.len() == 0 {
                (ArticleModel { tag, ..self }, Ok(()))
            } else {
                let (m, r) = ArticleModel { tag, ..self }.dispatch(rest);
                (
                    m,
                    match r {
                        Ok(true) => Ok(()),
                        Ok(false) => Err(ErrorView::UnhandledLine { line: rest }),
                        Err(e) => Err(e),
                    },
                )
            },
        }
    }

    /// The record, once its tag has closed. The record id and the journal
    /// (with its title) are required; the keyword lists of both owners are
    /// merged, those of `PIP` first.
    pub open spec fn build(self) -> Result<ArticleView, ErrorView> {
        if !self.tag.ready() {
            Err(ErrorView::NotReady { tag: self.tag.tag })
        } else {
            match (self.pip_keywords.build(), self.kie_keywords.build()) {
                (Err(e), _) => Err(e),
                (Ok(_), Err(e)) => Err(e),
                (Ok(k1), Ok(k2)) => {
                    let pmid = self.pmid.number_value();
                    if pmid is None {
                        Err(ErrorView::MissingValue { tag: self.pmid.tag.tag })
                    } else {
                        self.build_rest(pmid->0, k1 + k2)
                    }
                },
            }
        }
    }

    pub open spec fn build_rest(self, pmid: nat, keywords: Seq<crate::article::KeywordView>) -> Result<ArticleView, ErrorView> {
        match (self.article_ids.build(), self.journal.build(), self.other_abstracts.build()) {
            (Err(e), _, _) => Err(e),
            (Ok(_), Err(e), _) => Err(e),
            (Ok(_), Ok(_), Err(e)) => Err(e),
            (Ok(ids), Ok(journal), Ok(others)) => match (
                self.chemical_list.build(),
                self.mesh_list.build(),
                self.gene_symbol_list.build(),
                self.suppl_mesh_list.build(),
                self.references.build(),
            ) {
                (Err(e), _, _, _, _) => Err(e),
                (Ok(_), Err(e), _, _, _) => Err(e),
                (Ok(_), Ok(_), Err(e), _, _) => Err(e),
                (Ok(_), Ok(_), Ok(_), Err(e), _) => Err(e),
                (Ok(_), Ok(_), Ok(_), Ok(_), Err(e)) => Err(e),
                (Ok(chemicals), Ok(meshes), Ok(genes), Ok(suppl), Ok(references)) => Ok(
                    ArticleView {
                        completion_date: ok_of(self.completion_date.build()),
                        revision_date: ok_of(self.revised_date.build()),
                        pubmed_id: pmid,
                        article_ids: ids,
                        journal,
                        title: self.title.text_value(),
                        abstract_text: ok_of(self.abstract_text.build()),
                        other_abstract_texts: others,
                        chemical_list: chemicals,
                        gene_symbol_list: genes,
                        mesh_list: meshes,
                        suppl_mesh_list: suppl,
                        references,
                        keywords,
                    },
                ),
            },
        }
    }
}

/// Parses one full record, line by line. Once it can build, the caller
/// takes the record and starts the next one with a new parser.
pub struct ArticleBuilder {
    xml_helper: XMLHelper,
    completion_date_builder: DateBuilder,
    revised_date_builder: DateBuilder,
    pmid_builder: ObjectBuilder,
    article_ids_builder: ArticleIdsBuilder,
    journal_builder: JournalBuilder,
    title_builder: ObjectBuilder,
    abstract_text_builder: AbstractBuilder,
    other_abstracts_builders: OtherAbstractBuilder,
    language_builder: ObjectBuilder,
    chemical_list_builder: ChemicalListBuilder,
    mesh_list_builder: MeshListBuilder,
    suppl_mesh_list_builder: SupplMeshListBuilder,
    references_builder: ReferencesBuilder,
    pip_keywords_builder: KeywordListBuilder,
    kie_keywords_builder: KeywordListBuilder,
    gene_symbol_list_builder: GeneSymbolListBuilder,
    ignored_tags: IgnoreTags,
}

impl View for ArticleBuilder {
    type V = ArticleModel;

    closed spec fn view(&self) -> ArticleModel {
        ArticleModel {
            tag: self.xml_helper@,
            completion_date: self.completion_date_builder@,
            revised_date: self.revised_date_builder@,
            pmid: self.pmid_builder@,
            article_ids: self.article_ids_builder@,
            journal: self.journal_builder@,
            title: self.title_builder@,
            abstract_text: self.abstract_text_builder@,
            other_abstracts: self.other_abstracts_builders@,
            language: self.language_builder@,
            chemical_list: self.chemical_list_builder@,
            mesh_list: self.mesh_list_builder@,
            suppl_mesh_list: self.suppl_mesh_list_builder@,
            references: self.references_builder@,
            pip_keywords: self.pip_keywords_builder@,
            kie_keywords: self.kie_keywords_builder@,
            gene_symbol_list: self.gene_symbol_list_builder@,
            ignored_tags: self.ignored_tags@,
        }
    }
}

impl ArticleBuilder {
    pub fn new() -> (r: Self)
        ensures
            r@.wf(),
            r@ == ArticleModel::fresh(),
    {
        let names = vec![
            "AuthorList",
            "PublicationTypeList",
            "MedlineJournalInfo",
            "History",
            "PersonalNameSubjectList",
            "DataBankList",
            "GrantList",
            "CoiStatement",
            "VernacularTitle",
            "CommentsCorrectionsList",
            "ArticleDate",
            "InvestigatorList",
        ];
        let ignored_tags = IgnoreTags::new(names.as_slice());
        assert(names@.map_values(|s: &str| s@) =~= ignored_names());
        ArticleBuilder {
            xml_helper: XMLHelper::new("PubmedArticle"),
            completion_date_builder: DateBuilder::new("DateCompleted"),
            revised_date_builder: DateBuilder::new("DateRevised"),
            pmid_builder: ObjectBuilder::number("PMID", 4294967295),
            article_ids_builder: ArticleIdsBuilder::new(),
            journal_builder: JournalBuilder::new(),
            title_builder: ObjectBuilder::new("ArticleTitle"),
            abstract_text_builder: AbstractBuilder::new("Abstract"),
            other_abstracts_builders: OtherAbstractBuilder::new(),
            language_builder: ObjectBuilder::new("Language"),
            chemical_list_builder: ChemicalListBuilder::new(),
            mesh_list_builder: MeshListBuilder::new(),
            suppl_mesh_list_builder: SupplMeshListBuilder::new(),
            references_builder: ReferencesBuilder::new(),
            pip_keywords_builder: KeywordListBuilder::new("PIP"),
            kie_keywords_builder: KeywordListBuilder::new("KIE"),
            gene_symbol_list_builder: GeneSymbolListBuilder::new(),
            ignored_tags,
        }
    }

    #[verifier::rlimit(50)]
    fn step_front(&mut self, rest: &[char]) -> (r: Result<bool, ParseError>)
        requires
            old(self)@.wf(),
        ensures
            (final(self)@, outcome(r)) == old(self)@.front(rest@),
            final(self)@.wf(),
    {
        proof {
            reveal(ArticleModel::front);
        }
        if !self.completion_date_builder.can_build() && self.completion_date_builder.step(rest)? {
            return Ok(true);
        }
        if !self.revised_date_builder.can_build() && self.revised_date_builder.step(rest)? {
            return Ok(true);
        }
        if !self.pmid_builder.can_build() && self.pmid_builder.step(rest)? {
            return Ok(true);
        }
        if !self.article_ids_builder.can_build() && self.article_ids_builder.step(rest)? {
            return Ok(true);
        }
        if !self.journal_builder.can_build() && self.journal_builder.step(rest)? {
            return Ok(true);
        }
        if !self.title_builder.can_build() && self.title_builder.step(rest)? {
            return Ok(true);
        }
        if !self.abstract_text_builder.can_build() && self.abstract_text_builder.step(rest)? {
            return Ok(true);
        }
        Ok(false)
    }

    fn step_middle(&mut self, rest: &[char]) -> (r: Result<bool, ParseError>)
        requires
            old(self)@.wf(),
        ensures
            (final(self)@, outcome(r)) == old(self)@.middle(rest@),
            final(self)@.wf(),
    {
        proof {
            reveal(ArticleModel::middle);
        }
        if self.other_abstracts_builders.step(rest)? {
            return Ok(true);
        }
        if self.ignored_tags.step(rest)? {
            return Ok(true);
        }
        self.language_builder.step(rest)
    }

    #[verifier::rlimit(50)]
    fn step_back(&mut self, rest: &[char]) -> (r: Result<bool, ParseError>)
        requires
            old(self)@.wf(),
        ensures
            (final(self)@, outcome(r)) == old(self)@.back(rest@),
            final(self)@.wf(),
    {
        proof {
            reveal(ArticleModel::back);
        }
        if !self.chemical_list_builder.can_build() && self.chemical_list_builder.step(rest)? {
            return Ok(true);
        }
        if !self.gene_symbol_list_builder.can_build() && self.gene_symbol_list_builder.step(
            rest,
        )? {
            return Ok(true);
        }
        if !self.mesh_list_builder.can_build() && self.mesh_list_builder.step(rest)? {
            return Ok(true);
        }
        if !self.suppl_mesh_list_builder.can_build() && self.suppl_mesh_list_builder.step(rest)? {
            return Ok(true);
        }
        if !self.pip_keywords_builder.can_build() && self.pip_keywords_builder.step(rest)? {
            return Ok(true);
        }
        if !self.kie_keywords_builder.can_build() && self.kie_keywords_builder.step(rest)? {
            return Ok(true);
        }
        self.references_builder.step(rest)
    }

    pub fn step(&mut self, line: &[char]) -> (r: Result<(), ParseError>)
        requires
            old(self)@.wf(),
        ensures
            (final(self)@, outcome(r)) == old(self)@.step(line@),
            final(self)@.wf(),
    {
        let rest = self.xml_helper.step(line)?;
        if rest.len() == 0 {
            return Ok(());
        }
        if self.step_front(rest)? {
            return Ok(());
        }
        if self.step_middle(rest)? {
            return Ok(());
        }
        if self.step_back(rest)? {
            return Ok(());
        }
        Err(ParseError::UnhandledLine { line: crate::text::string_of(rest) })
    }

    /// Reads one line of the record.
    pub fn parse(&mut self, line: &str) -> (r: Result<(), ParseError>)
        requires
            old(self)@.wf(),
        ensures
            (final(self)@, outcome(r)) == old(self)@.step(line@),
            final(self)@.wf(),
    {
        let chars = chars_of(line);
        self.step(chars.as_slice())
    }

    pub fn build(self) -> (r: Result<Article, ParseError>)
        requires
            self@.wf(),
        ensures
            crate::error::result_view(r) == self@.build(),
    {
        if !self.xml_helper.can_build() {
            return Err(ParseError::NotReady { tag: self.xml_helper.tag_name() });
        }
        let mut keywords = self.pip_keywords_builder.build()?;
        let mut kie = self.kie_keywords_builder.build()?;
        let ghost k1 = keywords@;
        let ghost k2 = kie@;
        keywords.append(&mut kie);
        assert(seq_view(keywords@) =~= seq_view(k1) + seq_view(k2));
        let pubmed_id: u32 = match self.pmid_builder.number_value() {
            Some(n) => n as u32,
            None => return Err(ParseError::MissingValue { tag: self.pmid_builder.tag_name() }),
        };
        let completion_date = self.completion_date_builder.build().ok();
        let revision_date = self.revised_date_builder.build().ok();
        let article_ids = self.article_ids_builder.build()?;
        let journal = self.journal_builder.build()?;
        let title = self.title_builder.build();
        let abstract_text = self.abstract_text_builder.build().ok();
        let other_abstract_texts = self.other_abstracts_builders.build()?;
        let chemical_list = self.chemical_list_builder.build()?;
        let mesh_list = self.mesh_list_builder.build()?;
        let gene_symbol_list = self.gene_symbol_list_builder.build()?;
        let suppl_mesh_list = self.suppl_mesh_list_builder.build()?;
        let references = self.references_builder.build()?;
        Ok(
            Article {
                completion_date,
                revision_date,
                pubmed_id,
                article_ids,
                journal,
                title,
                abstract_text,
                other_abstract_texts,
                chemical_list,
                gene_symbol_list,
                mesh_list,
                suppl_mesh_list,
                references,
                keywords,
            },
        )
    }

    pub fn can_build(&self) -> (r: bool)
        ensures
            r == self@.ready(),
    {
        self.xml_helper.can_build()
    }
    /// The record id read so far, if any.
    pub fn partial_id(&self) -> (r: Option<u64>)
        ensures
            r is None ==> self@.pmid.number_value() is None,
            r matches Some(n) ==> self@.pmid.number_value() == Some(n as nat),
    {
        self.pmid_builder.number_value()
    }
}

/// The outcome of feeding one line, seen through the views.
pub open spec fn feed_view(r: Result<Option<Article>, ParseError>) -> Result<
    Option<ArticleView>,
    ErrorView,
> {
    match r {
        Ok(Some(a)) => Ok(Some(a@)),
        Ok(None) => Ok(None),
        Err(e) => Err(e@),
    }
}

/// The state of a record stream: the parser of the current record, and
/// whether the rest of a failed record is being skipped.
pub struct ReaderModel {
    pub parser: ArticleModel,
    pub skipping: bool,
}

impl ReaderModel {
    pub open spec fn wf(self) -> bool {
        self.parser.wf()
    }

    pub open spec fn fresh() -> ReaderModel {
        ReaderModel { parser: ArticleModel::fresh(), skipping: false }
    }

    /// The record's own tag, as a fresh parser sees it.
    pub open spec fn boundary() -> TagModel {
        ArticleModel::fresh().tag
    }

    /// A line given to the parser. A completed record is built and the
    /// parser starts afresh; after an error the parser starts afresh too,
    /// and the rest of the failed record is skipped, unless the failing
    /// line closed it.
    pub open spec fn parse_line(self, line: Seq<char>) -> (ReaderModel, Result<
        Option<ArticleView>,
        ErrorView,
    >) {
        let (m, pr) = self.parser.step(line);
        match pr {
            Err(e) => (
                ReaderModel {
                    parser: ArticleModel::fresh(),
                    skipping: !has_suffix(line, Self::boundary().closing()),
                },
                Err(e),
            ),
            Ok(_) => if m.ready() {
                (
                    Self::fresh(),
                    match m.build() {
                        Ok(a) => Ok(Some(a)),
                        Err(e) => Err(e),
                    },
                )
            } else {
                (ReaderModel { parser: m, skipping: false }, Ok(None))
            },
        }
    }

    /// One line of the stream. While skipping, lines are dropped up to the
    /// failed record's closing line; a line that opens a new record ends the
    /// skipping and goes to a fresh parser.
    pub open spec fn feed(self, line: Seq<char>) -> (ReaderModel, Result<
        Option<ArticleView>,
        ErrorView,
    >) {
        if self.skipping {
            if Self::boundary().opens(line) {
                Self::fresh().parse_line(line)
            } else if has_suffix(line, Self::boundary().closing()) {
                (Self::fresh(), Ok(None))
            } else {
                (self, Ok(None))
            }
        } else {
            self.parse_line(line)
        }
    }
}

/// Once a record comes out of the stream, the next one starts on a parser
/// that has seen nothing: nothing of one record reaches the next.
pub proof fn lemma_reader_resets(m: ReaderModel, line: Seq<char>)
    ensures
        m.feed(line).1 is Ok && m.feed(line).1->Ok_0 is Some ==> m.feed(line).0
            == ReaderModel::fresh(),
{
}

/// Reads a stream of records line by line: each record is built as soon
/// as its tag closes, and the next one starts on a fresh parser. A line
/// that fails drops the record it belongs to.
pub struct RecordReader {
    builder: ArticleBuilder,
    skipping: bool,
}

impl View for RecordReader {
    type V = ReaderModel;

    closed spec fn view(&self) -> ReaderModel {
        ReaderModel { parser: self.builder@, skipping: self.skipping }
    }
}

impl RecordReader {
    pub fn new() -> (r: Self)
        ensures
            r@.wf(),
            r@ == ReaderModel::fresh(),
    {
        RecordReader { builder: ArticleBuilder::new(), skipping: false }
    }

    fn parse_line(&mut self, line: &[char]) -> (r: Result<Option<Article>, ParseError>)
        requires
            !old(self)@.skipping,
            old(self)@.wf(),
        ensures
            (final(self)@, feed_view(r)) == old(self)@.parse_line(line@),
            final(self)@.wf(),
    {
        match self.builder.step(line) {
            Err(e) => {
                let boundary = XMLHelper::new("PubmedArticle");
                self.builder = ArticleBuilder::new();
                self.skipping = !boundary.closes_line(line);
                Err(e)
            },
            Ok(()) => if self.builder.can_build() {
                let mut done = ArticleBuilder::new();
                core::mem::swap(&mut self.builder, &mut done);
                match done.build() {
                    Ok(a) => Ok(Some(a)),
                    Err(e) => Err(e),
                }
            } else {
                Ok(None)
            },
        }
    }

    /// The id of the record being read, if its id has been read; a report
    /// of a failure can name it.
    pub fn partial_id(&self) -> (r: Option<u64>)
        ensures
            r is None ==> self@.parser.pmid.number_value() is None,
            r matches Some(n) ==> self@.parser.pmid.number_value() == Some(n as nat),
    {
        self.builder.partial_id()
    }

    /// Reads one line; returns the record that the line completes, if any.
    pub fn feed(&mut self, line: &str) -> (r: Result<Option<Article>, ParseError>)
        requires
            old(self)@.wf(),
        ensures
            (final(self)@, feed_view(r)) == old(self)@.feed(line@),
            final(self)@.wf(),
    {
        let chars = chars_of(line);
        if self.skipping {
            let boundary = XMLHelper::new("PubmedArticle");
            if boundary.opens_line(chars.as_slice()) {
                self.builder = ArticleBuilder::new();
                self.skipping = false;
                self.parse_line(chars.as_slice())
            } else {
                if boundary.closes_line(chars.as_slice()) {
                    self.builder = ArticleBuilder::new();
                    self.skipping = false;
                }
                Ok(None)
            }
        } else {
            self.parse_line(chars.as_slice())
        }
    }
}

/// A record whose tag has closed, with a record id and a complete titled
/// journal, and whose lists are each closed or empty, builds; the record
/// carries that id and that journal, title included.
pub proof fn lemma_complete_record_builds(m: ArticleModel)
    requires
        m.tag.ready(),
        m.pmid.number_value() is Some,
        m.journal.build() is Ok,
        m.pip_keywords.build() is Ok,
        m.kie_keywords.build() is Ok,
        m.article_ids.build() is Ok,
        m.other_abstracts.build() is Ok,
        m.chemical_list.build() is Ok,
        m.mesh_list.build() is Ok,
        m.gene_symbol_list.build() is Ok,
        m.suppl_mesh_list.build() is Ok,
        m.references.build() is Ok,
    ensures
        m.build() is Ok,
        m.build()->Ok_0.pubmed_id == m.pmid.number_value()->0,
        m.build()->Ok_0.journal == m.journal.build()->Ok_0,
        m.build()->Ok_0.journal.title == m.journal.title.text_value()->0,
{
}

} // verus!
