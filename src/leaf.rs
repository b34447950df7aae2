//! The leaf value parser: the text between a tag's opening and closing,
//! read as a value once the tag closes.

use vstd::prelude::*;
use crate::error::{ErrorView, ParseError};
use crate::tag::{TagModel, XMLHelper, lookup, string_pairs_view, parse_attributes};
use crate::text::{find_from, has_suffix};
use crate::text::{
    append_chars, chars_of, decimal_value, is_unsigned, parse_unsigned, strip_chars,
    string_of, trim, unsigned_digits,
};

verus! {

/// The type of value a leaf's text is read as.
#[derive(Debug, Clone, Copy)]
pub enum LeafKind {
    /// The text itself, without surrounding white space.
    Text,
    /// An unsigned decimal number no larger than `max`.
    Number { max: u64 },
}

/// Whether `text`, without surrounding white space, is a value of `kind`.
pub open spec fn convertible(kind: LeafKind, text: Seq<char>) -> bool {
    match kind {
        LeafKind::Text => true,
        LeafKind::Number { max } => is_unsigned(trim(text)) && decimal_value(
            unsigned_digits(trim(text)),
        ) <= max,
    }
}

/// `text` followed by `rest`, with one space between them where both hold
/// something.
pub open spec fn joined(text: Seq<char>, rest: Seq<char>) -> Seq<char> {
    if rest.len() == 0 {
        text
    } else if text.len() == 0 {
        rest
    } else {
        text + seq![' '] + rest
    }
}

/// A parser that takes one line at a time.
pub trait LineModel: Sized {
    /// The parser's own tag has closed: it takes no more lines.
    spec fn ready(self) -> bool;

    /// One line: the new state, and whether the line was taken.
    spec fn step(self, line: Seq<char>) -> (Self, Result<bool, ErrorView>);
}

/// Offers a line to a parser that has not yet completed.
pub open spec fn attempt<M: LineModel>(m: M, line: Seq<char>) -> (M, Result<bool, ErrorView>) {
    if m.ready() {
        (m, Ok(false))
    } else {
        m.step(line)
    }
}

/// Offers a line to the next parser of a chain, unless an earlier one took
/// it or failed.
pub open spec fn offer<M: LineModel>(prev: Result<bool, ErrorView>, m: M, line: Seq<char>) -> (
    M,
    Result<bool, ErrorView>,
) {
    if prev == Ok::<bool, ErrorView>(false) {
        attempt(m, line)
    } else {
        (m, prev)
    }
}

/// Like [`offer`], for a parser that is offered lines even once completed.
pub open spec fn offer_always<M: LineModel>(
    prev: Result<bool, ErrorView>,
    m: M,
    line: Seq<char>,
) -> (M, Result<bool, ErrorView>) {
    if prev == Ok::<bool, ErrorView>(false) {
        m.step(line)
    } else {
        (m, prev)
    }
}

/// The answer of a chain of parsers: where none took the line, whether the
/// tag of the chain's owner is open or just closed.
pub open spec fn finish(r: Result<bool, ErrorView>, tag: TagModel) -> Result<bool, ErrorView> {
    if r == Ok::<bool, ErrorView>(false) {
        Ok(tag.reports())
    } else {
        r
    }
}

/// The state of a leaf.
pub struct LeafModel {
    pub tag: TagModel,
    pub kind: LeafKind,
    pub text: Seq<char>,
}

impl LeafModel {
    pub open spec fn fresh(
        tag: Seq<char>,
        kind: LeafKind,
        required: Seq<(Seq<char>, Seq<char>)>,
    ) -> LeafModel {
        LeafModel { tag: TagModel::fresh(tag, false, required), kind, text: Seq::empty() }
    }

    /// The leaf has closed on text that is a value of its kind.
    pub open spec fn has_value(self) -> bool {
        self.text.len() > 0 && self.tag.ready() && convertible(self.kind, self.text)
    }

    /// The text value: the accumulated text without surrounding white space.
    pub open spec fn text_value(self) -> Option<Seq<char>> {
        if self.has_value() {
            Some(trim(self.text))
        } else {
            None
        }
    }

    /// The number value of a number leaf.
    pub open spec fn number_value(self) -> Option<nat> {
        if self.has_value() && self.kind is Number {
            Some(decimal_value(unsigned_digits(trim(self.text))))
        } else {
            None
        }
    }

    /// The value of the attribute `key` of the leaf's opening.
    pub open spec fn attribute(self, key: Seq<char>) -> Option<Seq<char>> {
        lookup(self.tag.attributes, key)
    }
}

impl LineModel for LeafModel {
    open spec fn ready(self) -> bool {
        self.tag.ready()
    }

    open spec fn step(self, line: Seq<char>) -> (LeafModel, Result<bool, ErrorView>) {
        let (tag, r) = self.tag.step(line);
        match r {
            Err(e) => (LeafModel { tag, ..self }, Err(e)),
            Ok(rest) => {
                let text = joined(self.text, rest);
                let m = LeafModel { tag, text, ..self };
                if tag.ready() && text.len() > 0 && !convertible(self.kind, text) {
                    (m, Err(ErrorView::Conversion { tag: tag.tag, text }))
                } else {
                    (m, Ok(tag.reports()))
                }
            },
        }
    }
}

/// Reads the text of one tag, possibly over several lines, as a value.
#[derive(Debug)]
pub struct ObjectBuilder {
    xml_helper: XMLHelper,
    kind: LeafKind,
    textual_value: Vec<char>,
}

impl View for ObjectBuilder {
    type V = LeafModel;

    closed spec fn view(&self) -> LeafModel {
        LeafModel { tag: self.xml_helper@, kind: self.kind, text: self.textual_value@ }
    }
}

impl ObjectBuilder {
    /// A leaf read as text.
    pub fn new(tag: &str) -> (r: Self)
        ensures
            r@ == LeafModel::fresh(tag@, LeafKind::Text, Seq::empty()),
    {
        ObjectBuilder { xml_helper: XMLHelper::new(tag), kind: LeafKind::Text, textual_value: Vec::new() }
    }

    /// A leaf read as an unsigned number no larger than `max`.
    pub fn number(tag: &str, max: u64) -> (r: Self)
        ensures
            r@ == LeafModel::fresh(tag@, LeafKind::Number { max }, Seq::empty()),
    {
        ObjectBuilder {
            xml_helper: XMLHelper::new(tag),
            kind: LeafKind::Number { max },
            textual_value: Vec::new(),
        }
    }

    /// A leaf read as text, taking only openings with the given attributes.
    pub fn with_attributes(tag: &str, mandatory_attributes: Vec<(String, String)>) -> (r: Self)
        requires
            mandatory_attributes@.len() > 0,
        ensures
            r@ == LeafModel::fresh(
                tag@,
                LeafKind::Text,
                string_pairs_view(mandatory_attributes@),
            ),
    {
        ObjectBuilder {
            xml_helper: XMLHelper::with_attributes(tag, mandatory_attributes),
            kind: LeafKind::Text,
            textual_value: Vec::new(),
        }
    }

    /// A number leaf taking only openings with the given attributes.
    pub fn number_with_attributes(
        tag: &str,
        max: u64,
        mandatory_attributes: Vec<(String, String)>,
    ) -> (r: Self)
        requires
            mandatory_attributes@.len() > 0,
        ensures
            r@ == LeafModel::fresh(
                tag@,
                LeafKind::Number { max },
                string_pairs_view(mandatory_attributes@),
            ),
    {
        ObjectBuilder {
            xml_helper: XMLHelper::with_attributes(tag, mandatory_attributes),
            kind: LeafKind::Number { max },
            textual_value: Vec::new(),
        }
    }

    pub fn can_build(&self) -> (r: bool)
        ensures
            r == self@.ready(),
    {
        self.xml_helper.can_build()
    }

    /// Whether the leaf's tag has been opened.
    pub fn is_opened(&self) -> (r: bool)
        ensures
            r == self@.tag.opened,
    {
        self.xml_helper.is_opened()
    }

    /// The value of the attribute `key` of the leaf's opening.
    pub fn attribute(&self, key: &str) -> (r: Option<String>)
        ensures
            r is None ==> self@.attribute(key@) is None,
            r matches Some(v) ==> self@.attribute(key@) == Some(v@),
    {
        self.xml_helper.attribute(key)
    }

    /// The leaf's tag name.
    pub fn tag_name(&self) -> (r: String)
        ensures
            r@ == self@.tag.tag,
    {
        self.xml_helper.tag_name()
    }

    fn check(&self) -> (r: bool)
        ensures
            r == convertible(self@.kind, self@.text),
    {
        match self.kind {
            LeafKind::Text => true,
            LeafKind::Number { max } => {
                let t = strip_chars(self.textual_value.as_slice(), None);
                parse_unsigned(t, max).is_some()
            },
        }
    }

    /// Reads one line given as characters; returns whether the line was
    /// this leaf's.
    pub fn step(&mut self, line: &[char]) -> (r: Result<bool, ParseError>)
        ensures
            (final(self)@, crate::error::outcome(r)) == old(self)@.step(line@),
            final(self)@.kind == old(self)@.kind,
    {
        let rest = self.xml_helper.step(line)?;
        if rest.len() > 0 {
            if self.textual_value.len() > 0 {
                self.textual_value.push(' ');
            }
            append_chars(&mut self.textual_value, rest);
        }
        assert(self.textual_value@ =~= joined(old(self)@.text, rest@));
        if self.xml_helper.can_build() && self.textual_value.len() > 0 && !self.check() {
            return Err(
                ParseError::Conversion {
                    tag: self.xml_helper.tag_name(),
                    text: string_of(self.textual_value.as_slice()),
                },
            );
        }
        Ok(self.xml_helper.reports())
    }

    /// Reads one line; returns whether the line was this leaf's.
    pub fn parse(&mut self, line: &str) -> (r: Result<bool, ParseError>)
        ensures
            (final(self)@, crate::error::outcome(r)) == old(self)@.step(line@),
    {
        let chars = chars_of(line);
        self.step(chars.as_slice())
    }

    /// The text value, where the leaf holds one.
    pub fn value(&self) -> (r: Option<String>)
        ensures
            r is None ==> self@.text_value() is None,
            r matches Some(v) ==> self@.text_value() == Some(v@),
    {
        if self.textual_value.len() == 0 || !self.xml_helper.can_build() || !self.check() {
            return None;
        }
        Some(string_of(strip_chars(self.textual_value.as_slice(), None)))
    }

    /// The number value, where the leaf is a number leaf and holds one.
    pub fn number_value(&self) -> (r: Option<u64>)
        ensures
            r is None ==> self@.number_value() is None,
            r matches Some(n) ==> self@.number_value() == Some(n as nat) && (self@.kind matches LeafKind::Number { max } && n <= max),
    {
        if self.textual_value.len() == 0 || !self.xml_helper.can_build() {
            return None;
        }
        match self.kind {
            LeafKind::Text => None,
            LeafKind::Number { max } => parse_unsigned(
                strip_chars(self.textual_value.as_slice(), None),
                max,
            ),
        }
    }

    /// The text value; none where the text is empty or the tag never closed.
    pub fn build(self) -> (r: Option<String>)
        ensures
            r is None ==> self@.text_value() is None,
            r matches Some(v) ==> self@.text_value() == Some(v@),
    {
        self.value()
    }
}

/// Text spread over several lines is joined with single spaces: a line
/// inside an open leaf, which neither opens nor closes it, adds its content
/// after one space.
pub proof fn lemma_lines_joined(m: LeafModel, line: Seq<char>)
    requires
        m.tag.opened,
        !m.tag.closed,
        !m.tag.opens(line),
        !has_suffix(line, m.tag.closing()),
        m.text.len() > 0,
        line.len() > 0,
    ensures
        m.step(line).0.text == m.text + seq![' '] + line,
        m.step(line).1 == Ok::<bool, ErrorView>(true),
{
}

/// The line that closes a leaf also adds its content after one space, and
/// completes the leaf.
pub proof fn lemma_closing_line_joined(m: LeafModel, line: Seq<char>)
    requires
        m.tag.opened,
        !m.tag.closed,
        m.tag.openings == 1,
        !m.tag.opens(line),
        has_suffix(line, m.tag.closing()),
        line.len() > m.tag.closing().len(),
        m.text.len() > 0,
    ensures
        m.step(line).0.text == m.text + seq![' '] + line.subrange(
            0,
            line.len() - m.tag.closing().len(),
        ),
        m.step(line).0.tag.ready(),
{
}

/// A leaf that requires an attribute value does not take a line whose
/// opening carries another value, or none, for that attribute.
pub proof fn lemma_gate_refuses(m: LeafModel, line: Seq<char>, key: Seq<char>, value: Seq<char>)
    requires
        !m.tag.opened,
        !m.tag.closed,
        !m.tag.just_closed,
        m.tag.required == seq![(key, value)],
        m.tag.opens(line),
        find_from(line, '>', m.tag.opening().len() as int) < line.len(),
        lookup(
            parse_attributes(
                line.subrange(
                    m.tag.opening().len() as int,
                    find_from(line, '>', m.tag.opening().len() as int),
                ),
            ),
            key,
        ) != Some(value),
    ensures
        m.step(line) == (m, Ok::<bool, ErrorView>(false)),
{
    let attrs = parse_attributes(
        line.subrange(
            m.tag.opening().len() as int,
            find_from(line, '>', m.tag.opening().len() as int),
        ),
    );
    assert(m.tag.required[0].0 == key);
    assert(!crate::tag::satisfies(attrs, m.tag.required));
    assert(joined(m.text, Seq::empty()) == m.text);
}

} // verus!
