//! Builders of the repeated elements of a record. Each reads one element at
//! a time; when the element closes, its value is added to the list and the
//! element's builder starts afresh.

use vstd::prelude::*;
use crate::article::{
    AbstractView, Abstract, ArticleId, ArticleIdView, Chemical, ChemicalView, Keyword,
    KeywordView, Mesh, MeshView, SupplMesh, SupplMeshView, nat_seq, seq_view,
};
use crate::error::{ErrorView, ParseError, outcome};
use crate::leaf::{LeafKind, LeafModel, LineModel, ObjectBuilder};
use crate::records::{AbstractBuilder, AbstractModel, ChemicalBuilder, ChemicalModel, MeshBuilder, MeshModel};
use crate::tag::{TagModel, XMLHelper};
use crate::text::chars_of;

verus! {

/// The outcome of a list build, seen through the views of the items.
pub open spec fn vec_result<T: View>(r: Result<Vec<T>, ParseError>) -> Result<
    Seq<T::V>,
    ErrorView,
> {
    match r {
        Ok(v) => Ok(seq_view(v@)),
        Err(e) => Err(e@),
    }
}

/// A list is complete once its tag has closed; a list that never opened
/// is complete and empty.
pub open spec fn list_build<T>(tag: TagModel, items: Seq<T>) -> Result<Seq<T>, ErrorView> {
    if !tag.ready() && (tag.opened || items.len() > 0) {
        Err(ErrorView::NotReady { tag: tag.tag })
    } else {
        Ok(items)
    }
}

/// The state of a chemical list.
pub struct ChemicalListModel {
    pub tag: TagModel,
    pub items: Seq<ChemicalView>,
    pub current: ChemicalModel,
}

impl ChemicalListModel {
    pub open spec fn fresh() -> ChemicalListModel {
        ChemicalListModel {
            tag: TagModel::fresh("ChemicalList"@, false, Seq::empty()),
            items: Seq::empty(),
            current: ChemicalModel::fresh(),
        }
    }

    pub open spec fn build(self) -> Result<Seq<ChemicalView>, ErrorView> {
        list_build(self.tag, self.items)
    }
}

impl LineModel for ChemicalListModel {
    open spec fn ready(self) -> bool {
        self.tag.ready()
    }

    open spec fn step(self, line: Seq<char>) -> (ChemicalListModel, Result<bool, ErrorView>) {
        let (tag, r0) = self.tag.step(line);
        match r0 {
            Err(e) => (ChemicalListModel { tag, ..self }, Err(e)),
            Ok(rest) => if rest.len() == 0 {
                (ChemicalListModel { tag, ..self }, Ok(tag.reports()))
            } else {
                let (current, r1) = self.current.step(rest);
                if r1 is Err {
                    (ChemicalListModel { tag, current, ..self }, r1)
                } else if current.ready() {
                    match current.build() {
                        Err(e) => (
                            ChemicalListModel { tag, current: ChemicalModel::fresh(), ..self },
                            Err(e),
                        ),
                        Ok(c) => (
                            ChemicalListModel {
                                tag,
                                items: self.items.push(c),
                                current: ChemicalModel::fresh(),
                            },
                            Ok(tag.reports()),
                        ),
                    }
                } else {
                    (ChemicalListModel { tag, current, ..self }, Ok(tag.reports()))
                }
            },
        }
    }
}

/// Builds the list of chemicals.
pub struct ChemicalListBuilder {
    xml_helper: XMLHelper,
    chemicals: Vec<Chemical>,
    chemical_builder: ChemicalBuilder,
}

impl View for ChemicalListBuilder {
    type V = ChemicalListModel;

    closed spec fn view(&self) -> ChemicalListModel {
        ChemicalListModel {
            tag: self.xml_helper@,
            items: seq_view(self.chemicals@),
            current: self.chemical_builder@,
        }
    }
}

impl ChemicalListBuilder {
    pub fn new() -> (r: Self)
        ensures
            r@ == ChemicalListModel::fresh(),
    {
        let r = ChemicalListBuilder {
            xml_helper: XMLHelper::new("ChemicalList"),
            chemicals: Vec::new(),
            chemical_builder: ChemicalBuilder::new(),
        };
        assert(seq_view(r.chemicals@) =~= Seq::empty());
        r
    }

    pub fn step(&mut self, line: &[char]) -> (r: Result<bool, ParseError>)
        ensures
            (final(self)@, outcome(r)) == old(self)@.step(line@),
    {
        let rest = self.xml_helper.step(line)?;
        if rest.len() == 0 {
            return Ok(self.xml_helper.reports());
        }
        self.chemical_builder.step(rest)?;
        if self.chemical_builder.can_build() {
            let built = self.chemical_builder.current();
            self.chemical_builder = ChemicalBuilder::new();
            let c = built?;
            let ghost before = self.chemicals@;
            self.chemicals.push(c);
            assert(seq_view(self.chemicals@) =~= seq_view(before).push(c@));
        }
        Ok(self.xml_helper.reports())
    }

    pub fn parse(&mut self, line: &str) -> (r: Result<bool, ParseError>)
        ensures
            (final(self)@, outcome(r)) == old(self)@.step(line@),
    {
        let chars = chars_of(line);
        self.step(chars.as_slice())
    }

    pub fn build(self) -> (r: Result<Vec<Chemical>, ParseError>)
        ensures
            vec_result(r) == self@.build(),
    {
        if !self.xml_helper.can_build() && (self.xml_helper.is_opened() || self.chemicals.len() > 0) {
            return Err(ParseError::NotReady { tag: self.xml_helper.tag_name() });
        }
        Ok(self.chemicals)
    }

    pub fn can_build(&self) -> (r: bool)
        ensures
            r == self@.ready(),
    {
        self.xml_helper.can_build()
    }
}

/// The state of a subject heading list.
pub struct MeshListModel {
    pub tag: TagModel,
    pub items: Seq<MeshView>,
    pub current: MeshModel,
}

impl MeshListModel {
    pub open spec fn fresh() -> MeshListModel {
        MeshListModel {
            tag: TagModel::fresh("MeshHeadingList"@, false, Seq::empty()),
            items: Seq::empty(),
            current: MeshModel::fresh(),
        }
    }

    pub open spec fn build(self) -> Result<Seq<MeshView>, ErrorView> {
        list_build(self.tag, self.items)
    }
}

impl LineModel for MeshListModel {
    open spec fn ready(self) -> bool {
        self.tag.ready()
    }

    open spec fn step(self, line: Seq<char>) -> (MeshListModel, Result<bool, ErrorView>) {
        let (tag, r0) = self.tag.step(line);
        match r0 {
            Err(e) => (MeshListModel { tag, ..self }, Err(e)),
            Ok(rest) => if rest.len() == 0 {
                (MeshListModel { tag, ..self }, Ok(tag.reports()))
            } else {
                let (current, r1) = self.current.step(rest);
                if r1 is Err {
                    (MeshListModel { tag, current, ..self }, r1)
                } else if current.ready() {
                    match current.build() {
                        Err(e) => (
                            MeshListModel { tag, current: MeshModel::fresh(), ..self },
                            Err(e),
                        ),
                        Ok(c) => (
                            MeshListModel {
                                tag,
                                items: self.items.push(c),
                                current: MeshModel::fresh(),
                            },
                            Ok(tag.reports()),
                        ),
                    }
                } else {
                    (MeshListModel { tag, current, ..self }, Ok(tag.reports()))
                }
            },
        }
    }
}

/// Builds the list of subject headings.
#[derive(Debug)]
pub struct MeshListBuilder {
    xml_helper: XMLHelper,
    meshes: Vec<Mesh>,
    mesh_builder: MeshBuilder,
}

impl View for MeshListBuilder {
    type V = MeshListModel;

    closed spec fn view(&self) -> MeshListModel {
        MeshListModel {
            tag: self.xml_helper@,
            items: seq_view(self.meshes@),
            current: self.mesh_builder@,
        }
    }
}

impl MeshListBuilder {
    pub fn new() -> (r: Self)
        ensures
            r@ == MeshListModel::fresh(),
    {
        let r = MeshListBuilder {
            xml_helper: XMLHelper::new("MeshHeadingList"),
            meshes: Vec::new(),
            mesh_builder: MeshBuilder::new(),
        };
        assert(seq_view(r.meshes@) =~= Seq::empty());
        r
    }

    pub fn step(&mut self, line: &[char]) -> (r: Result<bool, ParseError>)
        ensures
            (final(self)@, outcome(r)) == old(self)@.step(line@),
    {
        let rest = self.xml_helper.step(line)?;
        if rest.len() == 0 {
            return Ok(self.xml_helper.reports());
        }
        self.mesh_builder.step(rest)?;
        if self.mesh_builder.can_build() {
            let built = self.mesh_builder.current();
            self.mesh_builder = MeshBuilder::new();
            let m = built?;
            let ghost before = self.meshes@;
            self.meshes.push(m);
            assert(seq_view(self.meshes@) =~= seq_view(before).push(m@));
        }
        Ok(self.xml_helper.reports())
    }

    pub fn parse(&mut self, line: &str) -> (r: Result<bool, ParseError>)
        ensures
            (final(self)@, outcome(r)) == old(self)@.step(line@),
    {
        let chars = chars_of(line);
        self.step(chars.as_slice())
    }

    pub fn build(self) -> (r: Result<Vec<Mesh>, ParseError>)
        ensures
            vec_result(r) == self@.build(),
    {
        if !self.xml_helper.can_build() && (self.xml_helper.is_opened() || self.meshes.len() > 0) {
            return Err(ParseError::NotReady { tag: self.xml_helper.tag_name() });
        }
        Ok(self.meshes)
    }

    pub fn can_build(&self) -> (r: bool)
        ensures
            r == self@.ready(),
    {
        self.xml_helper.can_build()
    }
}

/// The keyword read from one leaf; its major-topic flag comes from the
/// leaf's attribute.
pub open spec fn keyword(leaf: LeafModel) -> Result<KeywordView, ErrorView> {
    if leaf.attribute("MajorTopicYN"@) is None {
        Err(ErrorView::MissingAttribute { tag: leaf.tag.tag, attribute: "MajorTopicYN"@ })
    } else if leaf.text_value() is None {
        Err(ErrorView::MissingValue { tag: leaf.tag.tag })
    } else {
        Ok(
            KeywordView {
                name: leaf.text_value()->0,
                is_major_topic: leaf.attribute("MajorTopicYN"@)->0 == "Y"@,
            },
        )
    }
}

/// The state of a keyword list of one owner.
pub struct KeywordListModel {
    pub tag: TagModel,
    pub items: Seq<KeywordView>,
    pub owner: Seq<char>,
    pub current: LeafModel,
}

impl KeywordListModel {
    /// A keyword leaf that takes only keywords of `owner`.
    pub open spec fn fresh_keyword(owner: Seq<char>) -> LeafModel {
        LeafModel::fresh("Keyword"@, LeafKind::Text, seq![("Owner"@, owner)])
    }

    pub open spec fn fresh(owner: Seq<char>) -> KeywordListModel {
        KeywordListModel {
            tag: TagModel::fresh("KeywordList"@, false, Seq::empty()),
            items: Seq::empty(),
            owner,
            current: Self::fresh_keyword(owner),
        }
    }

    pub open spec fn build(self) -> Result<Seq<KeywordView>, ErrorView> {
        list_build(self.tag, self.items)
    }
}

impl LineModel for KeywordListModel {
    open spec fn ready(self) -> bool {
        self.tag.ready()
    }

    open spec fn step(self, line: Seq<char>) -> (KeywordListModel, Result<bool, ErrorView>) {
        let (tag, r0) = self.tag.step(line);
        match r0 {
            Err(e) => (KeywordListModel { tag, ..self }, Err(e)),
            Ok(rest) => if rest.len() == 0 {
                (KeywordListModel { tag, ..self }, Ok(tag.reports()))
            } else {
                let (current, r1) = self.current.step(rest);
                let fresh = Self::fresh_keyword(self.owner);
                if r1 is Err {
                    (KeywordListModel { tag, current, ..self }, r1)
                } else if current.ready() {
                    match keyword(current) {
                        Err(e) => (KeywordListModel { tag, current: fresh, ..self }, Err(e)),
                        Ok(k) => (
                            KeywordListModel {
                                tag,
                                items: self.items.push(k),
                                current: fresh,
                                ..self
                            },
                            Ok(tag.reports()),
                        ),
                    }
                } else {
                    (KeywordListModel { tag, current, ..self }, Ok(tag.reports()))
                }
            },
        }
    }
}

/// Builds the keywords of one owner.
#[derive(Debug)]
pub struct KeywordListBuilder {
    xml_helper: XMLHelper,
    keywords: Vec<Keyword>,
    owner: String,
    keyword_builder: ObjectBuilder,
}

impl View for KeywordListBuilder {
    type V = KeywordListModel;

    closed spec fn view(&self) -> KeywordListModel {
        KeywordListModel {
            tag: self.xml_helper@,
            items: seq_view(self.keywords@),
            owner: self.owner@,
            current: self.keyword_builder@,
        }
    }
}

fn keyword_leaf(owner: &String) -> (r: ObjectBuilder)
    ensures
        r@ == KeywordListModel::fresh_keyword(owner@),
{
    let attrs = vec![(String::from_str("Owner"), owner.clone())];
    let r = ObjectBuilder::with_attributes("Keyword", attrs);
    assert(crate::tag::string_pairs_view(attrs@) =~= seq![("Owner"@, owner@)]);
    r
}

fn build_keyword(leaf: &ObjectBuilder) -> (r: Result<Keyword, ParseError>)
    ensures
        crate::error::result_view(r) == keyword(leaf@),
{
    let major = match leaf.attribute("MajorTopicYN") {
        Some(v) => v,
        None => return Err(
            ParseError::MissingAttribute {
                tag: leaf.tag_name(),
                attribute: String::from_str("MajorTopicYN"),
            },
        ),
    };
    let name = match leaf.value() {
        Some(v) => v,
        None => return Err(ParseError::MissingValue { tag: leaf.tag_name() }),
    };
    let yes = String::from_str("Y");
    Ok(Keyword { name, is_major_topic: major == yes })
}

impl KeywordListBuilder {
    /// The keyword list of `owner`: keywords of other owners are not taken.
    pub fn new(owner: &str) -> (r: Self)
        ensures
            r@ == KeywordListModel::fresh(owner@),
    {
        let owner = String::from_str(owner);
        let keyword_builder = keyword_leaf(&owner);
        let r = KeywordListBuilder {
            xml_helper: XMLHelper::new("KeywordList"),
            keywords: Vec::new(),
            owner,
            keyword_builder,
        };
        assert(seq_view(r.keywords@) =~= Seq::empty());
        r
    }

    pub fn step(&mut self, line: &[char]) -> (r: Result<bool, ParseError>)
        ensures
            (final(self)@, outcome(r)) == old(self)@.step(line@),
    {
        let rest = self.xml_helper.step(line)?;
        if rest.len() == 0 {
            return Ok(self.xml_helper.reports());
        }
        self.keyword_builder.step(rest)?;
        if self.keyword_builder.can_build() {
            let built = build_keyword(&self.keyword_builder);
            self.keyword_builder = keyword_leaf(&self.owner);
            let k = built?;
            let ghost before = self.keywords@;
            self.keywords.push(k);
            assert(seq_view(self.keywords@) =~= seq_view(before).push(k@));
        }
        Ok(self.xml_helper.reports())
    }

    pub fn parse(&mut self, line: &str) -> (r: Result<bool, ParseError>)
        ensures
            (final(self)@, outcome(r)) == old(self)@.step(line@),
    {
        let chars = chars_of(line);
        self.step(chars.as_slice())
    }

    pub fn build(self) -> (r: Result<Vec<Keyword>, ParseError>)
        ensures
            vec_result(r) == self@.build(),
    {
        if !self.xml_helper.can_build() && (self.xml_helper.is_opened() || self.keywords.len() > 0) {
            return Err(ParseError::NotReady { tag: self.xml_helper.tag_name() });
        }
        Ok(self.keywords)
    }

    pub fn can_build(&self) -> (r: bool)
        ensures
            r == self@.ready(),
    {
        self.xml_helper.can_build()
    }
}

/// The identifier read from one leaf; its type comes from the `IdType`
/// attribute.
pub open spec fn article_id(leaf: LeafModel) -> Result<ArticleIdView, ErrorView> {
    if leaf.attribute("IdType"@) is None {
        Err(ErrorView::MissingAttribute { tag: leaf.tag.tag, attribute: "IdType"@ })
    } else if leaf.text_value() is None {
        Err(ErrorView::MissingValue { tag: leaf.tag.tag })
    } else {
        Ok(
            ArticleIdView {
                id_type: leaf.attribute("IdType"@)->0,
                value: leaf.text_value()->0,
            },
        )
    }
}

/// The state of an identifier list.
pub struct ArticleIdsModel {
    pub tag: TagModel,
    pub items: Seq<ArticleIdView>,
    pub current: LeafModel,
}

impl ArticleIdsModel {
    pub open spec fn fresh_id() -> LeafModel {
        LeafModel::fresh("ArticleId"@, LeafKind::Text, Seq::empty())
    }

    pub open spec fn fresh() -> ArticleIdsModel {
        ArticleIdsModel {
            tag: TagModel::fresh("ArticleIdList"@, false, Seq::empty()),
            items: Seq::empty(),
            current: Self::fresh_id(),
        }
    }

    pub open spec fn build(self) -> Result<Seq<ArticleIdView>, ErrorView> {
        list_build(self.tag, self.items)
    }
}

impl LineModel for ArticleIdsModel {
    open spec fn ready(self) -> bool {
        self.tag.ready()
    }

    open spec fn step(self, line: Seq<char>) -> (ArticleIdsModel, Result<bool, ErrorView>) {
        let (tag, r0) = self.tag.step(line);
        match r0 {
            Err(e) => (ArticleIdsModel { tag, ..self }, Err(e)),
            Ok(rest) => if rest.len() == 0 {
                (ArticleIdsModel { tag, ..self }, Ok(tag.reports()))
            } else {
                let (current, r1) = self.current.step(rest);
                if r1 is Err {
                    (ArticleIdsModel { tag, current, ..self }, r1)
                } else if current.ready() {
                    match article_id(current) {
                        Err(e) => (
                            ArticleIdsModel { tag, current: Self::fresh_id(), ..self },
                            Err(e),
                        ),
                        Ok(a) => (
                            ArticleIdsModel {
                                tag,
                                items: self.items.push(a),
                                current: Self::fresh_id(),
                            },
                            Ok(tag.reports()),
                        ),
                    }
                } else {
                    (ArticleIdsModel { tag, current, ..self }, Ok(tag.reports()))
                }
            },
        }
    }
}

fn build_article_id(leaf: &ObjectBuilder) -> (r: Result<ArticleId, ParseError>)
    ensures
        crate::error::result_view(r) == article_id(leaf@),
{
    let id_type = match leaf.attribute("IdType") {
        Some(v) => v,
        None => return Err(
            ParseError::MissingAttribute {
                tag: leaf.tag_name(),
                attribute: String::from_str("IdType"),
            },
        ),
    };
    let value = match leaf.value() {
        Some(v) => v,
        None => return Err(ParseError::MissingValue { tag: leaf.tag_name() }),
    };
    Ok(ArticleId { id_type, value })
}

/// Builds the list of the record's identifiers, one per scheme.
#[derive(Debug)]
pub struct ArticleIdsBuilder {
    xml_helper: XMLHelper,
    article_ids: Vec<ArticleId>,
    article_id_builder: ObjectBuilder,
}

impl View for ArticleIdsBuilder {
    type V = ArticleIdsModel;

    closed spec fn view(&self) -> ArticleIdsModel {
        ArticleIdsModel {
            tag: self.xml_helper@,
            items: seq_view(self.article_ids@),
            current: self.article_id_builder@,
        }
    }
}

impl ArticleIdsBuilder {
    pub fn new() -> (r: Self)
        ensures
            r@ == ArticleIdsModel::fresh(),
    {
        let r = ArticleIdsBuilder {
            xml_helper: XMLHelper::new("ArticleIdList"),
            article_ids: Vec::new(),
            article_id_builder: ObjectBuilder::new("ArticleId"),
        };
        assert(seq_view(r.article_ids@) =~= Seq::empty());
        r
    }

    pub fn step(&mut self, line: &[char]) -> (r: Result<bool, ParseError>)
        ensures
            (final(self)@, outcome(r)) == old(self)@.step(line@),
    {
        let rest = self.xml_helper.step(line)?;
        if rest.len() == 0 {
            return Ok(self.xml_helper.reports());
        }
        self.article_id_builder.step(rest)?;
        if self.article_id_builder.can_build() {
            let built = build_article_id(&self.article_id_builder);
            self.article_id_builder = ObjectBuilder::new("ArticleId");
            let a = built?;
            let ghost before = self.article_ids@;
            self.article_ids.push(a);
            assert(seq_view(self.article_ids@) =~= seq_view(before).push(a@));
        }
        Ok(self.xml_helper.reports())
    }

    pub fn parse(&mut self, line: &str) -> (r: Result<bool, ParseError>)
        ensures
            (final(self)@, outcome(r)) == old(self)@.step(line@),
    {
        let chars = chars_of(line);
        self.step(chars.as_slice())
    }

    pub fn build(self) -> (r: Result<Vec<ArticleId>, ParseError>)
        ensures
            vec_result(r) == self@.build(),
    {
        if !self.xml_helper.can_build() && (self.xml_helper.is_opened() || self.article_ids.len() > 0) {
            return Err(ParseError::NotReady { tag: self.xml_helper.tag_name() });
        }
        Ok(self.article_ids)
    }

    pub fn can_build(&self) -> (r: bool)
        ensures
            r == self@.ready(),
    {
        self.xml_helper.can_build()
    }
}

/// The state of the abstracts in other languages or from other sources.
pub struct OtherAbstractModel {
    pub items: Seq<AbstractView>,
    pub current: AbstractModel,
}

impl OtherAbstractModel {
    pub open spec fn fresh() -> OtherAbstractModel {
        OtherAbstractModel { items: Seq::empty(), current: AbstractModel::fresh("OtherAbstract"@) }
    }

    /// The abstracts read; an abstract left open fails the build.
    pub open spec fn build(self) -> Result<Seq<AbstractView>, ErrorView> {
        if self.current.tag.opened && !self.current.tag.ready() {
            Err(ErrorView::NotReady { tag: self.current.tag.tag })
        } else {
            Ok(self.items)
        }
    }
}

impl LineModel for OtherAbstractModel {
    /// Any number of these abstracts may come: the list never completes.
    open spec fn ready(self) -> bool {
        false
    }

    open spec fn step(self, line: Seq<char>) -> (OtherAbstractModel, Result<bool, ErrorView>) {
        let (current, r1) = self.current.step(line);
        if r1 is Err {
            (OtherAbstractModel { current, ..self }, r1)
        } else if current.ready() {
            match current.build() {
                Err(e) => (
                    OtherAbstractModel { current: AbstractModel::fresh("OtherAbstract"@), ..self },
                    Err(e),
                ),
                Ok(a) => (
                    OtherAbstractModel {
                        items: self.items.push(a),
                        current: AbstractModel::fresh("OtherAbstract"@),
                    },
                    Ok(current.tag.opened),
                ),
            }
        } else {
            (OtherAbstractModel { current, ..self }, Ok(current.tag.opened))
        }
    }
}

/// Builds the abstracts in other languages or from other sources.
#[derive(Debug)]
pub struct OtherAbstractBuilder {
    other_abstracts: Vec<Abstract>,
    other_abstract_builder: AbstractBuilder,
}

impl View for OtherAbstractBuilder {
    type V = OtherAbstractModel;

    closed spec fn view(&self) -> OtherAbstractModel {
        OtherAbstractModel {
            items: seq_view(self.other_abstracts@),
            current: self.other_abstract_builder@,
        }
    }
}

impl OtherAbstractBuilder {
    pub fn new() -> (r: Self)
        ensures
            r@ == OtherAbstractModel::fresh(),
    {
        let r = OtherAbstractBuilder {
            other_abstracts: Vec::new(),
            other_abstract_builder: AbstractBuilder::new("OtherAbstract"),
        };
        assert(seq_view(r.other_abstracts@) =~= Seq::empty());
        r
    }

    pub fn step(&mut self, line: &[char]) -> (r: Result<bool, ParseError>)
        ensures
            (final(self)@, outcome(r)) == old(self)@.step(line@),
    {
        self.other_abstract_builder.step(line)?;
        let parsed = self.other_abstract_builder.is_opened();
        if self.other_abstract_builder.can_build() {
            let built = self.other_abstract_builder.current();
            self.other_abstract_builder = AbstractBuilder::new("OtherAbstract");
            let a = built?;
            let ghost before = self.other_abstracts@;
            self.other_abstracts.push(a);
            assert(seq_view(self.other_abstracts@) =~= seq_view(before).push(a@));
        }
        Ok(parsed)
    }

    pub fn parse(&mut self, line: &str) -> (r: Result<bool, ParseError>)
        ensures
            (final(self)@, outcome(r)) == old(self)@.step(line@),
    {
        let chars = chars_of(line);
        self.step(chars.as_slice())
    }

    pub fn build(self) -> (r: Result<Vec<Abstract>, ParseError>)
        ensures
            vec_result(r) == self@.build(),
    {
        if self.other_abstract_builder.is_opened() && !self.other_abstract_builder.can_build() {
            return Err(ParseError::NotReady { tag: self.other_abstract_builder.tag_name() });
        }
        Ok(self.other_abstracts)
    }
}

/// The state of a gene symbol list.
pub struct GeneSymbolListModel {
    pub tag: TagModel,
    pub items: Seq<Seq<char>>,
    pub current: LeafModel,
}

impl GeneSymbolListModel {
    pub open spec fn fresh_symbol() -> LeafModel {
        LeafModel::fresh("GeneSymbol"@, LeafKind::Text, Seq::empty())
    }

    pub open spec fn fresh() -> GeneSymbolListModel {
        GeneSymbolListModel {
            tag: TagModel::fresh("GeneSymbolList"@, false, Seq::empty()),
            items: Seq::empty(),
            current: Self::fresh_symbol(),
        }
    }

    pub open spec fn build(self) -> Result<Seq<Seq<char>>, ErrorView> {
        list_build(self.tag, self.items)
    }
}

impl LineModel for GeneSymbolListModel {
    open spec fn ready(self) -> bool {
        self.tag.ready()
    }

    open spec fn step(self, line: Seq<char>) -> (GeneSymbolListModel, Result<bool, ErrorView>) {
        let (tag, r0) = self.tag.step(line);
        match r0 {
            Err(e) => (GeneSymbolListModel { tag, ..self }, Err(e)),
            Ok(rest) => if rest.len() == 0 {
                (GeneSymbolListModel { tag, ..self }, Ok(tag.reports()))
            } else {
                let (current, r1) = self.current.step(rest);
                if r1 is Err {
                    (GeneSymbolListModel { tag, current, ..self }, r1)
                } else if current.ready() {
                    match current.text_value() {
                        None => (
                            GeneSymbolListModel { tag, current: Self::fresh_symbol(), ..self },
                            Err(ErrorView::MissingValue { tag: current.tag.tag }),
                        ),
                        Some(g) => (
                            GeneSymbolListModel {
                                tag,
                                items: self.items.push(g),
                                current: Self::fresh_symbol(),
                            },
                            Ok(tag.reports()),
                        ),
                    }
                } else {
                    (GeneSymbolListModel { tag, current, ..self }, Ok(tag.reports()))
                }
            },
        }
    }
}

/// Builds the list of gene symbols.
#[derive(Debug)]
pub struct GeneSymbolListBuilder {
    xml_helper: XMLHelper,
    gene_symbols: Vec<String>,
    gene_symbol_builder: ObjectBuilder,
}

impl View for GeneSymbolListBuilder {
    type V = GeneSymbolListModel;

    closed spec fn view(&self) -> GeneSymbolListModel {
        GeneSymbolListModel {
            tag: self.xml_helper@,
            items: seq_view(self.gene_symbols@),
            current: self.gene_symbol_builder@,
        }
    }
}

impl GeneSymbolListBuilder {
    pub fn new() -> (r: Self)
        ensures
            r@ == GeneSymbolListModel::fresh(),
    {
        let r = GeneSymbolListBuilder {
            xml_helper: XMLHelper::new("GeneSymbolList"),
            gene_symbols: Vec::new(),
            gene_symbol_builder: ObjectBuilder::new("GeneSymbol"),
        };
        assert(seq_view(r.gene_symbols@) =~= Seq::empty());
        r
    }

    pub fn step(&mut self, line: &[char]) -> (r: Result<bool, ParseError>)
        ensures
            (final(self)@, outcome(r)) == old(self)@.step(line@),
    {
        let rest = self.xml_helper.step(line)?;
        if rest.len() == 0 {
            return Ok(self.xml_helper.reports());
        }
        self.gene_symbol_builder.step(rest)?;
        if self.gene_symbol_builder.can_build() {
            let value = self.gene_symbol_builder.value();
            let tag = self.gene_symbol_builder.tag_name();
            self.gene_symbol_builder = ObjectBuilder::new("GeneSymbol");
            match value {
                None => return Err(ParseError::MissingValue { tag }),
                Some(g) => {
                    let ghost before = self.gene_symbols@;
                    self.gene_symbols.push(g);
                    assert(seq_view(self.gene_symbols@) =~= seq_view(before).push(g@));
                },
            }
        }
        Ok(self.xml_helper.reports())
    }

    pub fn parse(&mut self, line: &str) -> (r: Result<bool, ParseError>)
        ensures
            (final(self)@, outcome(r)) == old(self)@.step(line@),
    {
        let chars = chars_of(line);
        self.step(chars.as_slice())
    }

    pub fn build(self) -> (r: Result<Vec<String>, ParseError>)
        ensures
            vec_result(r) == self@.build(),
    {
        if !self.xml_helper.can_build() && (self.xml_helper.is_opened() || self.gene_symbols.len() > 0) {
            return Err(ParseError::NotReady { tag: self.xml_helper.tag_name() });
        }
        Ok(self.gene_symbols)
    }

    pub fn can_build(&self) -> (r: bool)
        ensures
            r == self@.ready(),
    {
        self.xml_helper.can_build()
    }
}

/// The supplemental heading read from one leaf: its code and type come from
/// the leaf's attributes.
pub open spec fn suppl_mesh(leaf: LeafModel) -> Result<SupplMeshView, ErrorView> {
    if leaf.attribute("UI"@) is None {
        Err(ErrorView::MissingAttribute { tag: leaf.tag.tag, attribute: "UI"@ })
    } else if leaf.attribute("Type"@) is None {
        Err(ErrorView::MissingAttribute { tag: leaf.tag.tag, attribute: "Type"@ })
    } else if leaf.text_value() is None {
        Err(ErrorView::MissingValue { tag: leaf.tag.tag })
    } else {
        Ok(
            SupplMeshView {
                code: leaf.attribute("UI"@)->0,
                name: leaf.text_value()->0,
                mesh_type: leaf.attribute("Type"@)->0,
            },
        )
    }
}

fn build_suppl_mesh(leaf: &ObjectBuilder) -> (r: Result<SupplMesh, ParseError>)
    ensures
        crate::error::result_view(r) == suppl_mesh(leaf@),
{
    let code = match leaf.attribute("UI") {
        Some(v) => v,
        None => return Err(
            ParseError::MissingAttribute {
                tag: leaf.tag_name(),
                attribute: String::from_str("UI"),
            },
        ),
    };
    let mesh_type = match leaf.attribute("Type") {
        Some(v) => v,
        None => return Err(
            ParseError::MissingAttribute {
                tag: leaf.tag_name(),
                attribute: String::from_str("Type"),
            },
        ),
    };
    let name = match leaf.value() {
        Some(v) => v,
        None => return Err(ParseError::MissingValue { tag: leaf.tag_name() }),
    };
    Ok(SupplMesh { code, name, mesh_type })
}

/// The state of a supplemental heading list.
pub struct SupplMeshListModel {
    pub tag: TagModel,
    pub items: Seq<SupplMeshView>,
    pub current: LeafModel,
}

impl SupplMeshListModel {
    pub open spec fn fresh_name() -> LeafModel {
        LeafModel::fresh("SupplMeshName"@, LeafKind::Text, Seq::empty())
    }

    pub open spec fn fresh() -> SupplMeshListModel {
        SupplMeshListModel {
            tag: TagModel::fresh("SupplMeshList"@, false, Seq::empty()),
            items: Seq::empty(),
            current: Self::fresh_name(),
        }
    }

    pub open spec fn build(self) -> Result<Seq<SupplMeshView>, ErrorView> {
        list_build(self.tag, self.items)
    }
}

impl LineModel for SupplMeshListModel {
    open spec fn ready(self) -> bool {
        self.tag.ready()
    }

    open spec fn step(self, line: Seq<char>) -> (SupplMeshListModel, Result<bool, ErrorView>) {
        let (tag, r0) = self.tag.step(line);
        match r0 {
            Err(e) => (SupplMeshListModel { tag, ..self }, Err(e)),
            Ok(rest) => if rest.len() == 0 {
                (SupplMeshListModel { tag, ..self }, Ok(tag.reports()))
            } else {
                let (current, r1) = self.current.step(rest);
                if r1 is Err {
                    (SupplMeshListModel { tag, current, ..self }, r1)
                } else if current.ready() {
                    match suppl_mesh(current) {
                        Err(e) => (
                            SupplMeshListModel { tag, current: Self::fresh_name(), ..self },
                            Err(e),
                        ),
                        Ok(m) => (
                            SupplMeshListModel {
                                tag,
                                items: self.items.push(m),
                                current: Self::fresh_name(),
                            },
                            Ok(tag.reports()),
                        ),
                    }
                } else {
                    (SupplMeshListModel { tag, current, ..self }, Ok(tag.reports()))
                }
            },
        }
    }
}

/// Builds the list of supplemental headings.
#[derive(Debug)]
pub struct SupplMeshListBuilder {
    xml_helper: XMLHelper,
    meshes: Vec<SupplMesh>,
    suppl_mesh_builder: ObjectBuilder,
}

impl View for SupplMeshListBuilder {
    type V = SupplMeshListModel;

    closed spec fn view(&self) -> SupplMeshListModel {
        SupplMeshListModel {
            tag: self.xml_helper@,
            items: seq_view(self.meshes@),
            current: self.suppl_mesh_builder@,
        }
    }
}

impl SupplMeshListBuilder {
    pub fn new() -> (r: Self)
        ensures
            r@ == SupplMeshListModel::fresh(),
    {
        let r = SupplMeshListBuilder {
            xml_helper: XMLHelper::new("SupplMeshList"),
            meshes: Vec::new(),
            suppl_mesh_builder: ObjectBuilder::new("SupplMeshName"),
        };
        assert(seq_view(r.meshes@) =~= Seq::empty());
        r
    }

    pub fn step(&mut self, line: &[char]) -> (r: Result<bool, ParseError>)
        ensures
            (final(self)@, outcome(r)) == old(self)@.step(line@),
    {
        let rest = self.xml_helper.step(line)?;
        if rest.len() == 0 {
            return Ok(self.xml_helper.reports());
        }
        self.suppl_mesh_builder.step(rest)?;
        if self.suppl_mesh_builder.can_build() {
            let built = build_suppl_mesh(&self.suppl_mesh_builder);
            self.suppl_mesh_builder = ObjectBuilder::new("SupplMeshName");
            let m = built?;
            let ghost before = self.meshes@;
            self.meshes.push(m);
            assert(seq_view(self.meshes@) =~= seq_view(before).push(m@));
        }
        Ok(self.xml_helper.reports())
    }

    pub fn parse(&mut self, line: &str) -> (r: Result<bool, ParseError>)
        ensures
            (final(self)@, outcome(r)) == old(self)@.step(line@),
    {
        let chars = chars_of(line);
        self.step(chars.as_slice())
    }

    pub fn build(self) -> (r: Result<Vec<SupplMesh>, ParseError>)
        ensures
            vec_result(r) == self@.build(),
    {
        if !self.xml_helper.can_build() && (self.xml_helper.is_opened() || self.meshes.len() > 0) {
            return Err(ParseError::NotReady { tag: self.xml_helper.tag_name() });
        }
        Ok(self.meshes)
    }

    pub fn can_build(&self) -> (r: bool)
        ensures
            r == self@.ready(),
    {
        self.xml_helper.can_build()
    }
}

/// The state of the reference list: the cited record ids read so far.
pub struct ReferencesModel {
    pub tag: TagModel,
    pub items: Seq<nat>,
    pub current: LeafModel,
}

impl ReferencesModel {
    /// A leaf that takes only identifiers of type `pubmed`, read as numbers.
    pub open spec fn fresh_reference() -> LeafModel {
        LeafModel::fresh(
            "ArticleId"@,
            LeafKind::Number { max: usize::MAX as u64 },
            seq![("IdType"@, "pubmed"@)],
        )
    }

    /// The reference list may close and open again, still adding to the
    /// same list.
    pub open spec fn fresh() -> ReferencesModel {
        ReferencesModel {
            tag: TagModel::fresh("ReferenceList"@, true, Seq::empty()),
            items: Seq::empty(),
            current: Self::fresh_reference(),
        }
    }

    /// The identifier leaf reads numbers that fit a `usize`.
    pub open spec fn wf(self) -> bool {
        self.current.kind == (LeafKind::Number { max: usize::MAX as u64 })
    }

    pub open spec fn build(self) -> Result<Seq<nat>, ErrorView> {
        list_build(self.tag, self.items)
    }
}

impl LineModel for ReferencesModel {
    open spec fn ready(self) -> bool {
        self.tag.ready()
    }

    open spec fn step(self, line: Seq<char>) -> (ReferencesModel, Result<bool, ErrorView>) {
        let (tag, r0) = self.tag.step(line);
        match r0 {
            Err(e) => (ReferencesModel { tag, ..self }, Err(e)),
            Ok(rest) => if rest.len() == 0 {
                (ReferencesModel { tag, ..self }, Ok(tag.reports()))
            } else {
                let (current, r1) = self.current.step(rest);
                if r1 is Err {
                    (ReferencesModel { tag, current, ..self }, r1)
                } else if current.ready() {
                    match current.number_value() {
                        None => (
                            ReferencesModel { tag, current: Self::fresh_reference(), ..self },
                            Err(ErrorView::MissingValue { tag: current.tag.tag }),
                        ),
                        Some(n) => (
                            ReferencesModel {
                                tag,
                                items: self.items.push(n),
                                current: Self::fresh_reference(),
                            },
                            Ok(tag.reports()),
                        ),
                    }
                } else {
                    (ReferencesModel { tag, current, ..self }, Ok(tag.reports()))
                }
            },
        }
    }
}

fn reference_leaf() -> (r: ObjectBuilder)
    ensures
        r@ == ReferencesModel::fresh_reference(),
{
    let attrs = vec![(String::from_str("IdType"), String::from_str("pubmed"))];
    let r = ObjectBuilder::number_with_attributes("ArticleId", usize::MAX as u64, attrs);
    assert(crate::tag::string_pairs_view(attrs@) =~= seq![("IdType"@, "pubmed"@)]);
    r
}

/// Builds the list of cited record ids.
#[derive(Debug)]
pub struct ReferencesBuilder {
    xml_helper: XMLHelper,
    references: Vec<usize>,
    pubmed_builder: ObjectBuilder,
}

impl View for ReferencesBuilder {
    type V = ReferencesModel;

    closed spec fn view(&self) -> ReferencesModel {
        ReferencesModel {
            tag: self.xml_helper@,
            items: nat_seq(self.references@),
            current: self.pubmed_builder@,
        }
    }
}

impl ReferencesBuilder {
    pub fn new() -> (r: Self)
        ensures
            r@.wf(),
            r@ == ReferencesModel::fresh(),
    {
        let r = ReferencesBuilder {
            xml_helper: XMLHelper::with_reopening("ReferenceList"),
            references: Vec::new(),
            pubmed_builder: reference_leaf(),
        };
        assert(nat_seq(r.references@) =~= Seq::empty());
        r
    }

    pub fn step(&mut self, line: &[char]) -> (r: Result<bool, ParseError>)
        requires
            old(self)@.wf(),
        ensures
            (final(self)@, outcome(r)) == old(self)@.step(line@),
            final(self)@.wf(),
    {
        let rest = self.xml_helper.step(line)?;
        if rest.len() == 0 {
            return Ok(self.xml_helper.reports());
        }
        self.pubmed_builder.step(rest)?;
        if self.pubmed_builder.can_build() {
            let value = self.pubmed_builder.number_value();
            let tag = self.pubmed_builder.tag_name();
            self.pubmed_builder = reference_leaf();
            match value {
                Some(n) => {
                    let ghost before = self.references@;
                    self.references.push(n as usize);
                    assert(nat_seq(self.references@) =~= nat_seq(before).push(n as nat));
                },
                None => return Err(ParseError::MissingValue { tag }),
            }
        }
        Ok(self.xml_helper.reports())
    }

    pub fn parse(&mut self, line: &str) -> (r: Result<bool, ParseError>)
        requires
            old(self)@.wf(),
        ensures
            (final(self)@, outcome(r)) == old(self)@.step(line@),
            final(self)@.wf(),
    {
        let chars = chars_of(line);
        self.step(chars.as_slice())
    }

    pub fn build(self) -> (r: Result<Vec<usize>, ParseError>)
        ensures
            match r {
                Ok(v) => self@.build() == Ok::<Seq<nat>, ErrorView>(nat_seq(v@)),
                Err(e) => self@.build() == Err::<Seq<nat>, ErrorView>(e@),
            },
    {
        if !self.xml_helper.can_build() && (self.xml_helper.is_opened() || self.references.len() > 0) {
            return Err(ParseError::NotReady { tag: self.xml_helper.tag_name() });
        }
        Ok(self.references)
    }
}

/// The reference list only grows: no line removes or changes a reference
/// already read, whether the list is open, closed, or opened again.
pub proof fn lemma_references_kept(m: ReferencesModel, line: Seq<char>)
    ensures
        m.items.len() <= m.step(line).0.items.len(),
        m.step(line).0.items.subrange(0, m.items.len() as int) == m.items,
{
    assert(m.items.push(0).subrange(0, m.items.len() as int) =~= m.items);
    let (u, _) = m.step(line);
    if u.items.len() > m.items.len() {
        assert(u.items.subrange(0, m.items.len() as int) =~= m.items);
    } else {
        assert(u.items.subrange(0, m.items.len() as int) =~= m.items);
    }
}

/// A reference list that has closed opens again on its plain opening line,
/// takes the line, and keeps the references read so far.
pub proof fn lemma_references_reopen(m: ReferencesModel)
    requires
        m.tag.reopenable,
        m.tag.ready(),
        m.tag.required.len() == 0,
        m.tag.tag.len() > 0,
        m.tag.tag.last() != '/',
    ensures
        m.step(m.tag.opening() + seq!['>']).1 == Ok::<bool, ErrorView>(true),
        m.step(m.tag.opening() + seq!['>']).0.items == m.items,
        m.step(m.tag.opening() + seq!['>']).0.tag.opened,
        !m.step(m.tag.opening() + seq!['>']).0.tag.closed,
{
    crate::tag::lemma_reopen(m.tag);
}

/// Each chemical that completes adds exactly one item, its value, to the
/// list; any other line leaves the items as they are.
pub proof fn lemma_chemical_list_items(m: ChemicalListModel, line: Seq<char>)
    ensures
        ({
            let u = m.step(line).0;
            let (tag, r0) = m.tag.step(line);
            let (c, r1) = m.current.step(r0->Ok_0);
            let completes = r0 is Ok && r0->Ok_0.len() > 0 && r1 is Ok && c.ready() && c.build() is Ok;
            &&& completes ==> u.items == m.items.push(c.build()->Ok_0)
            &&& !completes ==> u.items == m.items
        }),
{
}

/// Each heading that completes adds exactly one item, its value, to the
/// list; any other line leaves the items as they are.
pub proof fn lemma_mesh_list_items(m: MeshListModel, line: Seq<char>)
    ensures
        ({
            let u = m.step(line).0;
            let (tag, r0) = m.tag.step(line);
            let (c, r1) = m.current.step(r0->Ok_0);
            let completes = r0 is Ok && r0->Ok_0.len() > 0 && r1 is Ok && c.ready() && c.build() is Ok;
            &&& completes ==> u.items == m.items.push(c.build()->Ok_0)
            &&& !completes ==> u.items == m.items
        }),
{
}

/// Each keyword that completes adds exactly one item, its value, to the
/// list; any other line leaves the items as they are.
pub proof fn lemma_keyword_list_items(m: KeywordListModel, line: Seq<char>)
    ensures
        ({
            let u = m.step(line).0;
            let (tag, r0) = m.tag.step(line);
            let (c, r1) = m.current.step(r0->Ok_0);
            let completes = r0 is Ok && r0->Ok_0.len() > 0 && r1 is Ok && c.ready() && keyword(c) is Ok;
            &&& completes ==> u.items == m.items.push(keyword(c)->Ok_0)
            &&& !completes ==> u.items == m.items
        }),
{
}

/// Each identifier that completes adds exactly one item, its value, to the
/// list; any other line leaves the items as they are.
pub proof fn lemma_article_ids_items(m: ArticleIdsModel, line: Seq<char>)
    ensures
        ({
            let u = m.step(line).0;
            let (tag, r0) = m.tag.step(line);
            let (c, r1) = m.current.step(r0->Ok_0);
            let completes = r0 is Ok && r0->Ok_0.len() > 0 && r1 is Ok && c.ready() && article_id(c) is Ok;
            &&& completes ==> u.items == m.items.push(article_id(c)->Ok_0)
            &&& !completes ==> u.items == m.items
        }),
{
}

/// Each gene symbol that completes adds exactly one item, its value, to the
/// list; any other line leaves the items as they are.
pub proof fn lemma_gene_symbol_list_items(m: GeneSymbolListModel, line: Seq<char>)
    ensures
        ({
            let u = m.step(line).0;
            let (tag, r0) = m.tag.step(line);
            let (c, r1) = m.current.step(r0->Ok_0);
            let completes = r0 is Ok && r0->Ok_0.len() > 0 && r1 is Ok && c.ready() && c.text_value() is Some;
            &&& completes ==> u.items == m.items.push(c.text_value()->0)
            &&& !completes ==> u.items == m.items
        }),
{
}

/// Each supplemental heading that completes adds exactly one item, its value, to the
/// list; any other line leaves the items as they are.
pub proof fn lemma_suppl_mesh_list_items(m: SupplMeshListModel, line: Seq<char>)
    ensures
        ({
            let u = m.step(line).0;
            let (tag, r0) = m.tag.step(line);
            let (c, r1) = m.current.step(r0->Ok_0);
            let completes = r0 is Ok && r0->Ok_0.len() > 0 && r1 is Ok && c.ready() && suppl_mesh(c) is Ok;
            &&& completes ==> u.items == m.items.push(suppl_mesh(c)->Ok_0)
            &&& !completes ==> u.items == m.items
        }),
{
}

/// Each reference that completes adds exactly one item, its value, to the
/// list; any other line leaves the items as they are.
pub proof fn lemma_references_items(m: ReferencesModel, line: Seq<char>)
    ensures
        ({
            let u = m.step(line).0;
            let (tag, r0) = m.tag.step(line);
            let (c, r1) = m.current.step(r0->Ok_0);
            let completes = r0 is Ok && r0->Ok_0.len() > 0 && r1 is Ok && c.ready() && c.number_value() is Some;
            &&& completes ==> u.items == m.items.push(c.number_value()->0)
            &&& !completes ==> u.items == m.items
        }),
{
}

} // verus!
