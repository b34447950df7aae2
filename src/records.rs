//! Builders of the nested entities of a record: dates, journals, abstracts,
//! chemicals and subject headings.

use vstd::prelude::*;
use crate::article::{
    AbstractView, Abstract, Chemical, ChemicalView, Date, DateView, Journal, JournalIssue,
    JournalIssueView, JournalView, Mesh, MeshTopic, MeshTopicView, MeshView, seq_view,
};
use crate::error::{ErrorView, ParseError, outcome, result_view};
use crate::leaf::{
    LeafKind, LeafModel, LineModel, ObjectBuilder, attempt, finish, offer,
};
use crate::tag::{TagModel, XMLHelper, lookup};
use crate::text::{chars_of, has_suffix, join, join_strings};

verus! {

/// The state of a date.
pub struct DateModel {
    pub tag: TagModel,
    pub year: LeafModel,
    pub month: LeafModel,
    pub day: LeafModel,
}

impl DateModel {
    pub open spec fn fresh(tag: Seq<char>) -> DateModel {
        DateModel {
            tag: TagModel::fresh(tag, false, Seq::empty()),
            year: LeafModel::fresh("Year"@, LeafKind::Number { max: 65535 }, Seq::empty()),
            month: LeafModel::fresh("Month"@, LeafKind::Text, Seq::empty()),
            day: LeafModel::fresh("Day"@, LeafKind::Number { max: 255 }, Seq::empty()),
        }
    }

    /// The year and day leaves read numbers that fit their fields.
    pub open spec fn wf(self) -> bool {
        self.year.kind == (LeafKind::Number { max: 65535 }) && self.day.kind == (LeafKind::Number {
            max: 255,
        })
    }

    /// The date, once its tag has closed; every part is optional.
    pub open spec fn build(self) -> Result<DateView, ErrorView> {
        if !self.tag.ready() {
            Err(ErrorView::NotReady { tag: self.tag.tag })
        } else {
            Ok(
                DateView {
                    year: self.year.number_value(),
                    month: self.month.text_value(),
                    day: self.day.number_value(),
                },
            )
        }
    }
}

impl LineModel for DateModel {
    open spec fn ready(self) -> bool {
        self.tag.ready()
    }

    open spec fn step(self, line: Seq<char>) -> (DateModel, Result<bool, ErrorView>) {
        let (tag, r0) = self.tag.step(line);
        match r0 {
            Err(e) => (DateModel { tag, ..self }, Err(e)),
            Ok(rest) => {
                let (year, r1) = attempt(self.year, rest);
                let (month, r2) = offer(r1, self.month, rest);
                let (day, r3) = offer(r2, self.day, rest);
                (DateModel { tag, year, month, day }, finish(r3, tag))
            },
        }
    }
}

/// Builds a [`Date`] from a date tag with optional year, month and day.
pub struct DateBuilder {
    xml_helper: XMLHelper,
    year_builder: ObjectBuilder,
    month_builder: ObjectBuilder,
    day_builder: ObjectBuilder,
}

impl View for DateBuilder {
    type V = DateModel;

    closed spec fn view(&self) -> DateModel {
        DateModel {
            tag: self.xml_helper@,
            year: self.year_builder@,
            month: self.month_builder@,
            day: self.day_builder@,
        }
    }
}

impl DateBuilder {
    pub fn new(tag: &str) -> (r: Self)
        ensures
            r@.wf(),
            r@ == DateModel::fresh(tag@),
    {
        DateBuilder {
            xml_helper: XMLHelper::new(tag),
            year_builder: ObjectBuilder::number("Year", 65535),
            month_builder: ObjectBuilder::new("Month"),
            day_builder: ObjectBuilder::number("Day", 255),
        }
    }

    pub fn step(&mut self, line: &[char]) -> (r: Result<bool, ParseError>)
        requires
            old(self)@.wf(),
        ensures
            (final(self)@, outcome(r)) == old(self)@.step(line@),
            final(self)@.wf(),
    {
        let rest = self.xml_helper.step(line)?;
        if !self.year_builder.can_build() && self.year_builder.step(rest)? {
            return Ok(true);
        }
        if !self.month_builder.can_build() && self.month_builder.step(rest)? {
            return Ok(true);
        }
        if !self.day_builder.can_build() && self.day_builder.step(rest)? {
            return Ok(true);
        }
        Ok(self.xml_helper.reports())
    }

    pub fn parse(&mut self, line: &str) -> (r: Result<bool, ParseError>)
        requires
            old(self)@.wf(),
        ensures
            (final(self)@, outcome(r)) == old(self)@.step(line@),
            final(self)@.wf(),
    {
        let chars = chars_of(line);
        self.step(chars.as_slice())
    }

    pub fn can_build(&self) -> (r: bool)
        ensures
            r == self@.ready(),
    {
        self.xml_helper.can_build()
    }

    pub fn build(self) -> (r: Result<Date, ParseError>)
        requires
            self@.wf(),
        ensures
            result_view(r) == self@.build(),
    {
        if !self.xml_helper.can_build() {
            return Err(ParseError::NotReady { tag: self.xml_helper.tag_name() });
        }
        let year = match self.year_builder.number_value() {
            Some(n) => Some(n as u16),
            None => None,
        };
        let day = match self.day_builder.number_value() {
            Some(n) => Some(n as u8),
            None => None,
        };
        Ok(Date { year, month: self.month_builder.value(), day })
    }
}

/// The state of a journal issue.
pub struct JournalIssueModel {
    pub tag: TagModel,
    pub volume: LeafModel,
    pub issue: LeafModel,
    pub date: DateModel,
}

impl JournalIssueModel {
    pub open spec fn fresh() -> JournalIssueModel {
        JournalIssueModel {
            tag: TagModel::fresh("JournalIssue"@, false, Seq::empty()),
            volume: LeafModel::fresh("Volume"@, LeafKind::Text, Seq::empty()),
            issue: LeafModel::fresh("Issue"@, LeafKind::Text, Seq::empty()),
            date: DateModel::fresh("PubDate"@),
        }
    }

    pub open spec fn wf(self) -> bool {
        self.date.wf()
    }

    /// The issue, once closed; its publication date must have closed too.
    pub open spec fn build(self) -> Result<JournalIssueView, ErrorView> {
        if !self.tag.ready() {
            Err(ErrorView::NotReady { tag: self.tag.tag })
        } else {
            match self.date.build() {
                Err(e) => Err(e),
                Ok(d) => Ok(
                    JournalIssueView {
                        volume: self.volume.text_value(),
                        issue: self.issue.text_value(),
                        pubblication_date: d,
                    },
                ),
            }
        }
    }
}

impl LineModel for JournalIssueModel {
    open spec fn ready(self) -> bool {
        self.tag.ready()
    }

    open spec fn step(self, line: Seq<char>) -> (JournalIssueModel, Result<bool, ErrorView>) {
        let (tag, r0) = self.tag.step(line);
        match r0 {
            Err(e) => (JournalIssueModel { tag, ..self }, Err(e)),
            Ok(rest) => {
                let (volume, r1) = attempt(self.volume, rest);
                let (issue, r2) = offer(r1, self.issue, rest);
                let (date, r3) = offer(r2, self.date, rest);
                (JournalIssueModel { tag, volume, issue, date }, finish(r3, tag))
            },
        }
    }
}

/// Builds a [`JournalIssue`].
pub struct JournalIssueBuilder {
    xml_helper: XMLHelper,
    volume_builder: ObjectBuilder,
    issue_builder: ObjectBuilder,
    pubblication_date_builder: DateBuilder,
}

impl View for JournalIssueBuilder {
    type V = JournalIssueModel;

    closed spec fn view(&self) -> JournalIssueModel {
        JournalIssueModel {
            tag: self.xml_helper@,
            volume: self.volume_builder@,
            issue: self.issue_builder@,
            date: self.pubblication_date_builder@,
        }
    }
}

impl JournalIssueBuilder {
    pub fn new() -> (r: Self)
        ensures
            r@.wf(),
            r@ == JournalIssueModel::fresh(),
    {
        JournalIssueBuilder {
            xml_helper: XMLHelper::new("JournalIssue"),
            volume_builder: ObjectBuilder::new("Volume"),
            issue_builder: ObjectBuilder::new("Issue"),
            pubblication_date_builder: DateBuilder::new("PubDate"),
        }
    }

    pub fn step(&mut self, line: &[char]) -> (r: Result<bool, ParseError>)
        requires
            old(self)@.wf(),
        ensures
            (final(self)@, outcome(r)) == old(self)@.step(line@),
            final(self)@.wf(),
    {
        let rest = self.xml_helper.step(line)?;
        if !self.volume_builder.can_build() && self.volume_builder.step(rest)? {
            return Ok(true);
        }
        if !self.issue_builder.can_build() && self.issue_builder.step(rest)? {
            return Ok(true);
        }
        if !self.pubblication_date_builder.can_build() && self.pubblication_date_builder.step(
            rest,
        )? {
            return Ok(true);
        }
        Ok(self.xml_helper.reports())
    }

    pub fn parse(&mut self, line: &str) -> (r: Result<bool, ParseError>)
        requires
            old(self)@.wf(),
        ensures
            (final(self)@, outcome(r)) == old(self)@.step(line@),
            final(self)@.wf(),
    {
        let chars = chars_of(line);
        self.step(chars.as_slice())
    }

    pub fn can_build(&self) -> (r: bool)
        ensures
            r == self@.ready(),
    {
        self.xml_helper.can_build()
    }

    pub fn build(self) -> (r: Result<JournalIssue, ParseError>)
        requires
            self@.wf(),
        ensures
            result_view(r) == self@.build(),
    {
        if !self.xml_helper.can_build() {
            return Err(ParseError::NotReady { tag: self.xml_helper.tag_name() });
        }
        let volume = self.volume_builder.value();
        let issue = self.issue_builder.value();
        let pubblication_date = self.pubblication_date_builder.build()?;
        Ok(JournalIssue { volume, issue, pubblication_date })
    }
}

/// The state of a journal.
pub struct JournalModel {
    pub tag: TagModel,
    pub issn: LeafModel,
    pub title: LeafModel,
    pub iso_abbreviation: LeafModel,
    pub issue: JournalIssueModel,
}

impl JournalModel {
    pub open spec fn fresh() -> JournalModel {
        JournalModel {
            tag: TagModel::fresh("Journal"@, false, Seq::empty()),
            issn: LeafModel::fresh("ISSN"@, LeafKind::Text, Seq::empty()),
            title: LeafModel::fresh("Title"@, LeafKind::Text, Seq::empty()),
            iso_abbreviation: LeafModel::fresh("ISOAbbreviation"@, LeafKind::Text, Seq::empty()),
            issue: JournalIssueModel::fresh(),
        }
    }

    pub open spec fn wf(self) -> bool {
        self.issue.wf()
    }

    /// The journal, once closed; its title is required.
    pub open spec fn build(self) -> Result<JournalView, ErrorView> {
        if !self.tag.ready() {
            Err(ErrorView::NotReady { tag: self.tag.tag })
        } else if self.title.text_value() is None {
            Err(ErrorView::MissingValue { tag: self.title.tag.tag })
        } else {
            match self.issue.build() {
                Err(e) => Err(e),
                Ok(i) => Ok(
                    JournalView {
                        issn: self.issn.text_value(),
                        title: self.title.text_value()->0,
                        iso_abbreviation: self.iso_abbreviation.text_value(),
                        journal_issue: i,
                    },
                ),
            }
        }
    }
}

impl LineModel for JournalModel {
    open spec fn ready(self) -> bool {
        self.tag.ready()
    }

    open spec fn step(self, line: Seq<char>) -> (JournalModel, Result<bool, ErrorView>) {
        let (tag, r0) = self.tag.step(line);
        match r0 {
            Err(e) => (JournalModel { tag, ..self }, Err(e)),
            Ok(rest) => if rest.len() == 0 {
                (JournalModel { tag, ..self }, Ok(tag.reports()))
            } else {
                let (issn, r1) = attempt(self.issn, rest);
                let (issue, r2) = offer(r1, self.issue, rest);
                let (title, r3) = offer(r2, self.title, rest);
                let (iso_abbreviation, r4) = offer(r3, self.iso_abbreviation, rest);
                (JournalModel { tag, issn, title, iso_abbreviation, issue }, finish(r4, tag))
            },
        }
    }
}

/// Builds a [`Journal`].
pub struct JournalBuilder {
    xml_helper: XMLHelper,
    issn_builder: ObjectBuilder,
    title_builder: ObjectBuilder,
    iso_abbreviation_builder: ObjectBuilder,
    journal_issue_builder: JournalIssueBuilder,
}

impl View for JournalBuilder {
    type V = JournalModel;

    closed spec fn view(&self) -> JournalModel {
        JournalModel {
            tag: self.xml_helper@,
            issn: self.issn_builder@,
            title: self.title_builder@,
            iso_abbreviation: self.iso_abbreviation_builder@,
            issue: self.journal_issue_builder@,
        }
    }
}

impl JournalBuilder {
    pub fn new() -> (r: Self)
        ensures
            r@.wf(),
            r@ == JournalModel::fresh(),
    {
        JournalBuilder {
            xml_helper: XMLHelper::new("Journal"),
            issn_builder: ObjectBuilder::new("ISSN"),
            title_builder: ObjectBuilder::new("Title"),
            iso_abbreviation_builder: ObjectBuilder::new("ISOAbbreviation"),
            journal_issue_builder: JournalIssueBuilder::new(),
        }
    }

    pub fn step(&mut self, line: &[char]) -> (r: Result<bool, ParseError>)
        requires
            old(self)@.wf(),
        ensures
            (final(self)@, outcome(r)) == old(self)@.step(line@),
            final(self)@.wf(),
    {
        let rest = self.xml_helper.step(line)?;
        if rest.len() == 0 {
            return Ok(self.xml_helper.reports());
        }
        if !self.issn_builder.can_build() && self.issn_builder.step(rest)? {
            return Ok(true);
        }
        if !self.journal_issue_builder.can_build() && self.journal_issue_builder.step(rest)? {
            return Ok(true);
        }
        if !self.title_builder.can_build() && self.title_builder.step(rest)? {
            return Ok(true);
        }
        if !self.iso_abbreviation_builder.can_build() && self.iso_abbreviation_builder.step(
            rest,
        )? {
            return Ok(true);
        }
        Ok(self.xml_helper.reports())
    }

    pub fn parse(&mut self, line: &str) -> (r: Result<bool, ParseError>)
        requires
            old(self)@.wf(),
        ensures
            (final(self)@, outcome(r)) == old(self)@.step(line@),
            final(self)@.wf(),
    {
        let chars = chars_of(line);
        self.step(chars.as_slice())
    }

    pub fn build(self) -> (r: Result<Journal, ParseError>)
        requires
            self@.wf(),
        ensures
            result_view(r) == self@.build(),
    {
        if !self.xml_helper.can_build() {
            return Err(ParseError::NotReady { tag: self.xml_helper.tag_name() });
        }
        let title = match self.title_builder.value() {
            Some(t) => t,
            None => return Err(ParseError::MissingValue { tag: self.title_builder.tag_name() }),
        };
        let issn = self.issn_builder.value();
        let iso_abbreviation = self.iso_abbreviation_builder.value();
        let journal_issue = self.journal_issue_builder.build()?;
        Ok(Journal { issn, title, iso_abbreviation, journal_issue })
    }

    pub fn can_build(&self) -> (r: bool)
        ensures
            r == self@.ready(),
    {
        self.xml_helper.can_build()
    }
}

/// The state of an abstract: the texts gathered so far and the text element
/// being read.
pub struct AbstractModel {
    pub tag: TagModel,
    pub texts: Seq<Seq<char>>,
    pub current: LeafModel,
}

impl AbstractModel {
    pub open spec fn fresh_text() -> LeafModel {
        LeafModel::fresh("AbstractText"@, LeafKind::Text, Seq::empty())
    }

    pub open spec fn fresh(tag: Seq<char>) -> AbstractModel {
        AbstractModel {
            tag: TagModel::fresh(tag, false, Seq::empty()),
            texts: Seq::empty(),
            current: Self::fresh_text(),
        }
    }

    /// The abstract, once closed: its texts joined by spaces; its type and
    /// language come from its own tag's attributes.
    pub open spec fn build(self) -> Result<AbstractView, ErrorView> {
        if !self.tag.ready() {
            Err(ErrorView::NotReady { tag: self.tag.tag })
        } else {
            Ok(
                AbstractView {
                    text: join(self.texts, " "@),
                    abstract_type: lookup(self.tag.attributes, "Type"@),
                    language: lookup(self.tag.attributes, "Language"@),
                },
            )
        }
    }
}

impl LineModel for AbstractModel {
    open spec fn ready(self) -> bool {
        self.tag.ready()
    }

    open spec fn step(self, line: Seq<char>) -> (AbstractModel, Result<bool, ErrorView>) {
        let (tag, r0) = self.tag.step(line);
        match r0 {
            Err(e) => (AbstractModel { tag, ..self }, Err(e)),
            Ok(rest) => if rest.len() == 0 {
                (AbstractModel { tag, ..self }, Ok(tag.reports()))
            } else {
                let (current, r1) = self.current.step(rest);
                if r1 is Err {
                    (AbstractModel { tag, current, ..self }, r1)
                } else if current.ready() {
                    match current.text_value() {
                        None => (
                            AbstractModel { tag, current: Self::fresh_text(), ..self },
                            Err(ErrorView::MissingValue { tag: current.tag.tag }),
                        ),
                        Some(v) => (
                            AbstractModel {
                                tag,
                                texts: self.texts.push(v),
                                current: Self::fresh_text(),
                            },
                            Ok(!tag.closed),
                        ),
                    }
                } else {
                    (AbstractModel { tag, current, ..self }, Ok(!tag.closed))
                }
            },
        }
    }
}

/// Builds an [`Abstract`] from one or more text elements.
#[derive(Debug)]
pub struct AbstractBuilder {
    xml_helper: XMLHelper,
    abstract_test: Vec<String>,
    abstract_builder: ObjectBuilder,
}

impl View for AbstractBuilder {
    type V = AbstractModel;

    closed spec fn view(&self) -> AbstractModel {
        AbstractModel {
            tag: self.xml_helper@,
            texts: seq_view(self.abstract_test@),
            current: self.abstract_builder@,
        }
    }
}

impl AbstractBuilder {
    pub fn new(tag: &str) -> (r: Self)
        ensures
            r@ == AbstractModel::fresh(tag@),
    {
        let r = AbstractBuilder {
            xml_helper: XMLHelper::new(tag),
            abstract_test: Vec::new(),
            abstract_builder: ObjectBuilder::new("AbstractText"),
        };
        assert(seq_view(r.abstract_test@) =~= Seq::empty());
        r
    }

    pub fn step(&mut self, line: &[char]) -> (r: Result<bool, ParseError>)
        ensures
            (final(self)@, outcome(r)) == old(self)@.step(line@),
    {
        let rest = self.xml_helper.step(line)?;
        if rest.len() == 0 {
            return Ok(self.xml_helper.reports());
        }
        self.abstract_builder.step(rest)?;
        if self.abstract_builder.can_build() {
            let value = self.abstract_builder.value();
            let tag = self.abstract_builder.tag_name();
            self.abstract_builder = ObjectBuilder::new("AbstractText");
            match value {
                None => return Err(ParseError::MissingValue { tag }),
                Some(v) => {
                    let ghost before = self.abstract_test@;
                    self.abstract_test.push(v);
                    assert(seq_view(self.abstract_test@) =~= seq_view(before).push(v@));
                },
            }
        }
        Ok(!self.xml_helper.is_closed())
    }

    pub fn parse(&mut self, line: &str) -> (r: Result<bool, ParseError>)
        ensures
            (final(self)@, outcome(r)) == old(self)@.step(line@),
    {
        let chars = chars_of(line);
        self.step(chars.as_slice())
    }

    /// Whether the abstract's tag has been opened.
    pub fn is_opened(&self) -> (r: bool)
        ensures
            r == self@.tag.opened,
    {
        self.xml_helper.is_opened()
    }

    /// The abstract's tag name.
    pub fn tag_name(&self) -> (r: String)
        ensures
            r@ == self@.tag.tag,
    {
        self.xml_helper.tag_name()
    }

    /// Whether the abstract's tag has been closed.
    pub fn is_closed(&self) -> (r: bool)
        ensures
            r == self@.tag.closed,
    {
        self.xml_helper.is_closed()
    }

    pub fn build(self) -> (r: Result<Abstract, ParseError>)
        ensures
            result_view(r) == self@.build(),
    {
        self.current()
    }

    /// The abstract as read so far.
    pub fn current(&self) -> (r: Result<Abstract, ParseError>)
        ensures
            result_view(r) == self@.build(),
    {
        if !self.xml_helper.can_build() {
            return Err(ParseError::NotReady { tag: self.xml_helper.tag_name() });
        }
        Ok(
            Abstract {
                language: self.xml_helper.attribute("Language"),
                abstract_type: self.xml_helper.attribute("Type"),
                text: join_strings(&self.abstract_test, " "),
            },
        )
    }

    pub fn can_build(&self) -> (r: bool)
        ensures
            r == self@.ready(),
    {
        self.xml_helper.can_build()
    }
}

/// The state of a chemical.
pub struct ChemicalModel {
    pub tag: TagModel,
    pub registry_number: LeafModel,
    pub name_of_substance: LeafModel,
}

impl ChemicalModel {
    pub open spec fn fresh() -> ChemicalModel {
        ChemicalModel {
            tag: TagModel::fresh("Chemical"@, false, Seq::empty()),
            registry_number: LeafModel::fresh("RegistryNumber"@, LeafKind::Text, Seq::empty()),
            name_of_substance: LeafModel::fresh(
                "NameOfSubstance"@,
                LeafKind::Text,
                Seq::empty(),
            ),
        }
    }

    /// The chemical, once closed: registry number and name are required, and its code is
    /// the `UI` attribute of the name.
    pub open spec fn build(self) -> Result<ChemicalView, ErrorView> {
        if !self.tag.ready() {
            Err(ErrorView::NotReady { tag: self.tag.tag })
        } else if self.registry_number.text_value() is None {
            Err(ErrorView::MissingValue { tag: self.registry_number.tag.tag })
        } else if self.name_of_substance.attribute("UI"@) is None {
            Err(
                ErrorView::MissingAttribute {
                    tag: self.name_of_substance.tag.tag,
                    attribute: "UI"@,
                },
            )
        } else if self.name_of_substance.text_value() is None {
            Err(ErrorView::MissingValue { tag: self.name_of_substance.tag.tag })
        } else {
            Ok(
                ChemicalView {
                    registry_number: self.registry_number.text_value()->0,
                    name_of_substance: self.name_of_substance.text_value()->0,
                    code: self.name_of_substance.attribute("UI"@)->0,
                },
            )
        }
    }
}

impl LineModel for ChemicalModel {
    open spec fn ready(self) -> bool {
        self.tag.ready()
    }

    open spec fn step(self, line: Seq<char>) -> (ChemicalModel, Result<bool, ErrorView>) {
        let (tag, r0) = self.tag.step(line);
        match r0 {
            Err(e) => (ChemicalModel { tag, ..self }, Err(e)),
            Ok(rest) => {
                let (registry_number, r1) = attempt(self.registry_number, rest);
                let (name_of_substance, r2) = offer(r1, self.name_of_substance, rest);
                (ChemicalModel { tag, registry_number, name_of_substance }, finish(r2, tag))
            },
        }
    }
}

/// Builds a [`Chemical`].
pub struct ChemicalBuilder {
    xml_helper: XMLHelper,
    registry_number_builder: ObjectBuilder,
    name_of_substance_builder: ObjectBuilder,
}

impl View for ChemicalBuilder {
    type V = ChemicalModel;

    closed spec fn view(&self) -> ChemicalModel {
        ChemicalModel {
            tag: self.xml_helper@,
            registry_number: self.registry_number_builder@,
            name_of_substance: self.name_of_substance_builder@,
        }
    }
}

impl ChemicalBuilder {
    pub fn new() -> (r: Self)
        ensures
            r@ == ChemicalModel::fresh(),
    {
        ChemicalBuilder {
            xml_helper: XMLHelper::new("Chemical"),
            registry_number_builder: ObjectBuilder::new("RegistryNumber"),
            name_of_substance_builder: ObjectBuilder::new("NameOfSubstance"),
        }
    }

    pub fn step(&mut self, line: &[char]) -> (r: Result<bool, ParseError>)
        ensures
            (final(self)@, outcome(r)) == old(self)@.step(line@),
    {
        let rest = self.xml_helper.step(line)?;
        if !self.registry_number_builder.can_build() && self.registry_number_builder.step(rest)? {
            return Ok(true);
        }
        if !self.name_of_substance_builder.can_build() && self.name_of_substance_builder.step(
            rest,
        )? {
            return Ok(true);
        }
        Ok(self.xml_helper.reports())
    }

    pub fn parse(&mut self, line: &str) -> (r: Result<bool, ParseError>)
        ensures
            (final(self)@, outcome(r)) == old(self)@.step(line@),
    {
        let chars = chars_of(line);
        self.step(chars.as_slice())
    }

    pub fn can_build(&self) -> (r: bool)
        ensures
            r == self@.ready(),
    {
        self.xml_helper.can_build()
    }

    /// The chemical as read so far.
    pub fn current(&self) -> (r: Result<Chemical, ParseError>)
        ensures
            result_view(r) == self@.build(),
    {
        if !self.xml_helper.can_build() {
            return Err(ParseError::NotReady { tag: self.xml_helper.tag_name() });
        }
        let registry_number = match self.registry_number_builder.value() {
            Some(v) => v,
            None => return Err(
                ParseError::MissingValue { tag: self.registry_number_builder.tag_name() },
            ),
        };
        let code = match self.name_of_substance_builder.attribute("UI") {
            Some(v) => v,
            None => return Err(
                ParseError::MissingAttribute {
                    tag: self.name_of_substance_builder.tag_name(),
                    attribute: String::from_str("UI"),
                },
            ),
        };
        let name_of_substance = match self.name_of_substance_builder.value() {
            Some(v) => v,
            None => return Err(
                ParseError::MissingValue { tag: self.name_of_substance_builder.tag_name() },
            ),
        };
        Ok(Chemical { registry_number, name_of_substance, code })
    }

    pub fn build(self) -> (r: Result<Chemical, ParseError>)
        ensures
            result_view(r) == self@.build(),
    {
        self.current()
    }
}

/// The heading's topic read from one leaf: its code and major-topic flag
/// come from the leaf's attributes, its name from the leaf's text.
pub open spec fn topic(leaf: LeafModel) -> Result<MeshTopicView, ErrorView> {
    if leaf.attribute("UI"@) is None {
        Err(ErrorView::MissingAttribute { tag: leaf.tag.tag, attribute: "UI"@ })
    } else if leaf.attribute("MajorTopicYN"@) is None {
        Err(ErrorView::MissingAttribute { tag: leaf.tag.tag, attribute: "MajorTopicYN"@ })
    } else if leaf.text_value() is None {
        Err(ErrorView::MissingValue { tag: leaf.tag.tag })
    } else {
        Ok(
            MeshTopicView {
                name: leaf.text_value()->0,
                code: leaf.attribute("UI"@)->0,
                is_major_topic: leaf.attribute("MajorTopicYN"@)->0 == "Y"@,
            },
        )
    }
}

fn build_topic(leaf: &ObjectBuilder) -> (r: Result<MeshTopic, ParseError>)
    ensures
        result_view(r) == topic(leaf@),
{
    let code = match leaf.attribute("UI") {
        Some(v) => v,
        None => return Err(
            ParseError::MissingAttribute {
                tag: leaf.tag_name(),
                attribute: String::from_str("UI"),
            },
        ),
    };
    let major = match leaf.attribute("MajorTopicYN") {
        Some(v) => v,
        None => return Err(
            ParseError::MissingAttribute {
                tag: leaf.tag_name(),
                attribute: String::from_str("MajorTopicYN"),
            },
        ),
    };
    let name = match leaf.value() {
        Some(v) => v,
        None => return Err(ParseError::MissingValue { tag: leaf.tag_name() }),
    };
    let yes = String::from_str("Y");
    Ok(MeshTopic { name, code, is_major_topic: major == yes })
}

/// The state of a subject heading.
pub struct MeshModel {
    pub tag: TagModel,
    pub descriptor: LeafModel,
    pub qualifier: LeafModel,
}

impl MeshModel {
    pub open spec fn fresh() -> MeshModel {
        MeshModel {
            tag: TagModel::fresh("MeshHeading"@, false, Seq::empty()),
            descriptor: LeafModel::fresh("DescriptorName"@, LeafKind::Text, Seq::empty()),
            qualifier: LeafModel::fresh("QualifierName"@, LeafKind::Text, Seq::empty()),
        }
    }

    /// The heading, once closed.
    pub open spec fn build(self) -> Result<MeshView, ErrorView> {
        if !self.tag.ready() {
            Err(ErrorView::NotReady { tag: self.tag.tag })
        } else {
            self.build_topics()
        }
    }

    /// The heading's topics: the descriptor is required; the qualifier is
    /// present where its tag closed.
    pub open spec fn build_topics(self) -> Result<MeshView, ErrorView> {
        match topic(self.descriptor) {
            Err(e) => Err(e),
            Ok(d) => if self.qualifier.tag.ready() {
                match topic(self.qualifier) {
                    Err(e) => Err(e),
                    Ok(q) => Ok(MeshView { descriptor: d, qualifier: Some(q) }),
                }
            } else {
                Ok(MeshView { descriptor: d, qualifier: None })
            },
        }
    }
}

impl LineModel for MeshModel {
    open spec fn ready(self) -> bool {
        self.tag.ready()
    }

    open spec fn step(self, line: Seq<char>) -> (MeshModel, Result<bool, ErrorView>) {
        let (tag, r0) = self.tag.step(line);
        match r0 {
            Err(e) => (MeshModel { tag, ..self }, Err(e)),
            Ok(rest) => {
                let (descriptor, r1) = attempt(self.descriptor, rest);
                let (qualifier, r2) = offer(r1, self.qualifier, rest);
                (MeshModel { tag, descriptor, qualifier }, finish(r2, tag))
            },
        }
    }
}

/// Builds a [`Mesh`] heading.
#[derive(Debug)]
pub struct MeshBuilder {
    xml_helper: XMLHelper,
    descriptor_builder: ObjectBuilder,
    qualifier_builder: ObjectBuilder,
}

impl View for MeshBuilder {
    type V = MeshModel;

    closed spec fn view(&self) -> MeshModel {
        MeshModel {
            tag: self.xml_helper@,
            descriptor: self.descriptor_builder@,
            qualifier: self.qualifier_builder@,
        }
    }
}

impl MeshBuilder {
    pub fn new() -> (r: Self)
        ensures
            r@ == MeshModel::fresh(),
    {
        MeshBuilder {
            xml_helper: XMLHelper::new("MeshHeading"),
            descriptor_builder: ObjectBuilder::new("DescriptorName"),
            qualifier_builder: ObjectBuilder::new("QualifierName"),
        }
    }

    pub fn step(&mut self, line: &[char]) -> (r: Result<bool, ParseError>)
        ensures
            (final(self)@, outcome(r)) == old(self)@.step(line@),
    {
        let rest = self.xml_helper.step(line)?;
        if !self.descriptor_builder.can_build() && self.descriptor_builder.step(rest)? {
            return Ok(true);
        }
        if !self.qualifier_builder.can_build() && self.qualifier_builder.step(rest)? {
            return Ok(true);
        }
        Ok(self.xml_helper.reports())
    }

    pub fn parse(&mut self, line: &str) -> (r: Result<bool, ParseError>)
        ensures
            (final(self)@, outcome(r)) == old(self)@.step(line@),
    {
        let chars = chars_of(line);
        self.step(chars.as_slice())
    }

    pub fn can_build(&self) -> (r: bool)
        ensures
            r == self@.ready(),
    {
        self.xml_helper.can_build()
    }

    /// The heading as read so far.
    pub fn current(&self) -> (r: Result<Mesh, ParseError>)
        ensures
            result_view(r) == self@.build(),
    {
        if !self.xml_helper.can_build() {
            return Err(ParseError::NotReady { tag: self.xml_helper.tag_name() });
        }
        let descriptor = build_topic(&self.descriptor_builder)?;
        let qualifier = if self.qualifier_builder.can_build() {
            Some(build_topic(&self.qualifier_builder)?)
        } else {
            None
        };
        Ok(Mesh { descriptor, qualifier })
    }

    pub fn build(self) -> (r: Result<Mesh, ParseError>)
        ensures
            result_view(r) == self@.build(),
    {
        self.current()
    }
}

/// While its own tag is unopened, a date takes no line: a line that
/// neither opens nor closes the tag leaves the fresh state as it is.
pub proof fn lemma_date_waits(tag: Seq<char>, line: Seq<char>)
    requires
        !DateModel::fresh(tag).tag.opens(line),
        !has_suffix(line, DateModel::fresh(tag).tag.closing()),
    ensures
        DateModel::fresh(tag).step(line) == (DateModel::fresh(tag), Ok::<bool, ErrorView>(false)),
{
}

/// While its own tag is unopened, a journal takes no line: a line that
/// neither opens nor closes the tag leaves the fresh state as it is.
pub proof fn lemma_journal_waits(line: Seq<char>)
    requires
        !JournalModel::fresh().tag.opens(line),
        !has_suffix(line, JournalModel::fresh().tag.closing()),
    ensures
        JournalModel::fresh().step(line) == (JournalModel::fresh(), Ok::<bool, ErrorView>(false)),
{
}

/// While its own tag is unopened, a chemical takes no line: a line that
/// neither opens nor closes the tag leaves the fresh state as it is.
pub proof fn lemma_chemical_waits(line: Seq<char>)
    requires
        !ChemicalModel::fresh().tag.opens(line),
        !has_suffix(line, ChemicalModel::fresh().tag.closing()),
    ensures
        ChemicalModel::fresh().step(line) == (ChemicalModel::fresh(), Ok::<bool, ErrorView>(false)),
{
}

/// While its own tag is unopened, a heading takes no line: a line that
/// neither opens nor closes the tag leaves the fresh state as it is.
pub proof fn lemma_mesh_waits(line: Seq<char>)
    requires
        !MeshModel::fresh().tag.opens(line),
        !has_suffix(line, MeshModel::fresh().tag.closing()),
    ensures
        MeshModel::fresh().step(line) == (MeshModel::fresh(), Ok::<bool, ErrorView>(false)),
{
}

/// While its own tag is unopened, an abstract takes no line: a line that
/// neither opens nor closes the tag leaves the fresh state as it is.
pub proof fn lemma_abstract_waits(tag: Seq<char>, line: Seq<char>)
    requires
        !AbstractModel::fresh(tag).tag.opens(line),
        !has_suffix(line, AbstractModel::fresh(tag).tag.closing()),
    ensures
        AbstractModel::fresh(tag).step(line) == (AbstractModel::fresh(tag), Ok::<bool, ErrorView>(false)),
{
}

} // verus!
