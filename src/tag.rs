//! The tag matcher: follows one tag through the lines that open and close it.

use vstd::prelude::*;
use vstd::slice::slice_to_vec;
use crate::error::{ErrorView, ParseError};
use crate::text::{
    chars_eq, chars_of, ends_with, find_char, find_from, has_prefix, has_suffix, starts_with,
    strip, strip_chars, string_of,
};

verus! {

/// Attribute pairs seen as character sequences.
pub open spec fn pairs_view(v: Seq<(Vec<char>, Vec<char>)>) -> Seq<(Seq<char>, Seq<char>)> {
    v.map_values(|p: (Vec<char>, Vec<char>)| (p.0@, p.1@))
}

/// String pairs seen as character sequences.
pub open spec fn string_pairs_view(v: Seq<(String, String)>) -> Seq<(Seq<char>, Seq<char>)> {
    v.map_values(|p: (String, String)| (p.0@, p.1@))
}

/// The value of the last attribute named `key`, as a map keeps the last write.
pub open spec fn lookup(attrs: Seq<(Seq<char>, Seq<char>)>, key: Seq<char>) -> Option<Seq<char>>
    decreases attrs.len(),
{
    if attrs.len() == 0 {
        None
    } else if attrs.last().0 == key {
        Some(attrs.last().1)
    } else {
        lookup(attrs.drop_last(), key)
    }
}

/// Whether every required attribute is present with the required value.
pub open spec fn satisfies(
    attrs: Seq<(Seq<char>, Seq<char>)>,
    required: Seq<(Seq<char>, Seq<char>)>,
) -> bool {
    forall|i: int| 0 <= i < required.len() ==> lookup(attrs, #[trigger] required[i].0) == Some(
        required[i].1,
    )
}

/// The attribute that one space-free token writes: the text before the first
/// `=` and the text after it without surrounding quotes; none without `=`.
pub open spec fn token_attr(tok: Seq<char>) -> Seq<(Seq<char>, Seq<char>)> {
    let k = find_from(tok, '=', 0);
    if k >= tok.len() {
        Seq::empty()
    } else {
        seq![(tok.subrange(0, k), strip(tok.subrange(k + 1, tok.len() as int), Some('"')))]
    }
}

/// The attributes of `p`, read token by token, where tokens are separated by
/// single spaces; `start` is where the current token began and `i` the
/// position reached.
pub open spec fn attrs_scan(p: Seq<char>, start: int, i: int) -> Seq<(Seq<char>, Seq<char>)>
    decreases p.len() - i,
{
    if i >= p.len() {
        token_attr(p.subrange(start, p.len() as int))
    } else if p[i] == ' ' {
        token_attr(p.subrange(start, i)) + attrs_scan(p, i + 1, i + 1)
    } else {
        attrs_scan(p, start, i + 1)
    }
}

/// The attributes written between a tag's name and its `>`.
pub open spec fn parse_attributes(portion: Seq<char>) -> Seq<(Seq<char>, Seq<char>)> {
    attrs_scan(strip(portion, None), 0, 0)
}

/// The state of one tag across lines.
pub struct TagModel {
    pub tag: Seq<char>,
    pub attributes: Seq<(Seq<char>, Seq<char>)>,
    pub required: Seq<(Seq<char>, Seq<char>)>,
    pub opened: bool,
    pub closed: bool,
    pub just_closed: bool,
    pub reopenable: bool,
    pub openings: nat,
}

impl TagModel {
    /// A tag not yet seen.
    pub open spec fn fresh(
        tag: Seq<char>,
        reopenable: bool,
        required: Seq<(Seq<char>, Seq<char>)>,
    ) -> TagModel {
        TagModel {
            tag,
            attributes: Seq::empty(),
            required,
            opened: false,
            closed: false,
            just_closed: false,
            reopenable,
            openings: 0,
        }
    }

    /// The tag has closed as often as it opened.
    pub open spec fn ready(self) -> bool {
        self.closed && self.openings == 0
    }

    /// The tag is open, or closed on the last line.
    pub open spec fn reports(self) -> bool {
        self.opened && !self.closed || self.just_closed
    }

    pub open spec fn opening(self) -> Seq<char> {
        seq!['<'] + self.tag
    }

    pub open spec fn closing(self) -> Seq<char> {
        seq!['<', '/'] + self.tag + seq!['>']
    }

    /// The line begins with this tag's opening token, followed by `>` or a space.
    pub open spec fn opens(self, line: Seq<char>) -> bool {
        let o = self.opening();
        line.len() > o.len() && has_prefix(line, o) && (line[o.len() as int] == '>'
            || line[o.len() as int] == ' ')
    }

    /// What is left of a line once its opening part is handled: the closing
    /// token, if the line ends with it, is consumed.
    pub open spec fn close_step(self, rest: Seq<char>) -> (TagModel, Result<Seq<char>, ErrorView>) {
        let c = self.closing();
        if !self.opened {
            if has_suffix(rest, c) {
                (self, Err(ErrorView::NotOpened { tag: self.tag }))
            } else {
                (self, Ok(Seq::empty()))
            }
        } else if has_suffix(rest, c) {
            if (self.closed && !self.just_closed && !self.reopenable) || self.openings == 0 {
                (self, Err(ErrorView::AlreadyClosed { tag: self.tag }))
            } else {
                (
                    TagModel {
                        closed: true,
                        just_closed: true,
                        openings: (self.openings - 1) as nat,
                        ..self
                    },
                    Ok(rest.subrange(0, rest.len() - c.len())),
                )
            }
        } else {
            (TagModel { just_closed: false, ..self }, Ok(rest))
        }
    }

    /// One line: the new state, and the content of the line that belongs
    /// inside the tag (empty where the line is not this tag's).
    pub open spec fn step(self, line: Seq<char>) -> (TagModel, Result<Seq<char>, ErrorView>) {
        let o = self.opening();
        if self.opens(line) {
            if !self.reopenable && self.opened {
                (self, Err(ErrorView::AlreadyOpened { tag: self.tag }))
            } else if has_suffix(line, seq!['/', '>']) {
                (self, Ok(Seq::empty()))
            } else {
                let gt = find_from(line, '>', o.len() as int);
                if gt >= line.len() {
                    (self, Err(ErrorView::MalformedTag { tag: self.tag }))
                } else {
                    let attrs = parse_attributes(line.subrange(o.len() as int, gt));
                    if !satisfies(attrs, self.required) {
                        (self, Ok(Seq::empty()))
                    } else if self.openings >= 255 {
                        (self, Err(ErrorView::AlreadyOpened { tag: self.tag }))
                    } else {
                        TagModel {
                            attributes: attrs,
                            opened: true,
                            closed: false,
                            just_closed: false,
                            openings: self.openings + 1,
                            ..self
                        }.close_step(line.subrange(gt + 1, line.len() as int))
                    }
                }
            }
        } else {
            self.close_step(line)
        }
    }
}

/// The outcome of a tag step, with the remaining content seen as characters.
pub open spec fn rest_outcome(r: Result<&[char], ParseError>) -> Result<Seq<char>, ErrorView> {
    match r {
        Ok(s) => Ok(s@),
        Err(e) => Err(e@),
    }
}

/// Tracks the opening and closing of one tag, and the attributes it was
/// opened with.
#[derive(Debug)]
pub struct XMLHelper {
    tag: Vec<char>,
    attributes: Vec<(Vec<char>, Vec<char>)>,
    mandatory_attributes: Vec<(Vec<char>, Vec<char>)>,
    tag_opened: bool,
    tag_closed: bool,
    just_closed: bool,
    allow_reopening: bool,
    openings: u8,
}

fn push_token(r: &mut Vec<(Vec<char>, Vec<char>)>, tok: &[char])
    ensures
        pairs_view(final(r)@) == pairs_view(old(r)@) + token_attr(tok@),
{
    let k = find_char(tok, '=', 0);
    if k < tok.len() {
        let key = slice_to_vec(&tok[0..k]);
        let value = slice_to_vec(strip_chars(&tok[k + 1..tok.len()], Some('"')));
        r.push((key, value));
        assert(pairs_view(r@) =~= pairs_view(old(r)@) + token_attr(tok@));
    } else {
        assert(pairs_view(r@) =~= pairs_view(old(r)@) + token_attr(tok@));
    }
}

fn scan_attributes(p: &[char]) -> (r: Vec<(Vec<char>, Vec<char>)>)
    ensures
        pairs_view(r@) == attrs_scan(p@, 0, 0),
{
    let mut r: Vec<(Vec<char>, Vec<char>)> = Vec::new();
    let mut start: usize = 0;
    let mut i: usize = 0;
    assert(pairs_view(r@) =~= Seq::empty());
    assert(pairs_view(r@) + attrs_scan(p@, 0, 0) =~= attrs_scan(p@, 0, 0));
    while i < p.len()
        invariant
            start <= i <= p@.len(),
            pairs_view(r@) + attrs_scan(p@, start as int, i as int) == attrs_scan(p@, 0, 0),
        decreases p@.len() - i,
    {
        if p[i] == ' ' {
            let ghost before = pairs_view(r@);
            push_token(&mut r, &p[start..i]);
            assert(pairs_view(r@) + attrs_scan(p@, (i + 1) as int, (i + 1) as int) =~= before
                + attrs_scan(p@, start as int, i as int));
            start = i + 1;
        }
        i = i + 1;
    }
    let ghost before = pairs_view(r@);
    push_token(&mut r, &p[start..p.len()]);
    assert(pairs_view(r@) =~= before + attrs_scan(p@, start as int, i as int));
    r
}

/// The index of the last attribute named `key`.
fn find_attribute(attrs: &Vec<(Vec<char>, Vec<char>)>, key: &[char]) -> (r: Option<usize>)
    ensures
        r is None ==> lookup(pairs_view(attrs@), key@) is None,
        r matches Some(j) ==> j < attrs@.len() && lookup(pairs_view(attrs@), key@) == Some(
            attrs@[j as int].1@,
        ),
{
    let mut i: usize = attrs.len();
    assert(pairs_view(attrs@).subrange(0, i as int) =~= pairs_view(attrs@));
    while i > 0
        invariant
            i <= attrs@.len(),
            lookup(pairs_view(attrs@), key@) == lookup(
                pairs_view(attrs@).subrange(0, i as int),
                key@,
            ),
        decreases i,
    {
        let ghost pre = pairs_view(attrs@).subrange(0, i as int);
        assert(pre.last() == (attrs@[i - 1].0@, attrs@[i - 1].1@));
        if chars_eq(attrs[i - 1].0.as_slice(), key) {
            return Some(i - 1);
        }
        assert(pre.drop_last() =~= pairs_view(attrs@).subrange(0, i - 1));
        i = i - 1;
    }
    None
}

fn satisfies_exec(
    attrs: &Vec<(Vec<char>, Vec<char>)>,
    required: &Vec<(Vec<char>, Vec<char>)>,
) -> (r: bool)
    ensures
        r == satisfies(pairs_view(attrs@), pairs_view(required@)),
{
    let mut i: usize = 0;
    while i < required.len()
        invariant
            i <= required@.len(),
            forall|j: int|
                0 <= j < i ==> lookup(pairs_view(attrs@), #[trigger] pairs_view(required@)[j].0)
                    == Some(pairs_view(required@)[j].1),
        decreases required@.len() - i,
    {
        let found = find_attribute(attrs, required[i].0.as_slice());
        match found {
            None => {
                assert(pairs_view(required@)[i as int].0 == required@[i as int].0@);
                return false;
            },
            Some(j) => {
                if !chars_eq(attrs[j].1.as_slice(), required[i].1.as_slice()) {
                    assert(pairs_view(required@)[i as int] == (
                        required@[i as int].0@,
                        required@[i as int].1@,
                    ));
                    assert(lookup(pairs_view(attrs@), pairs_view(required@)[i as int].0) != Some(
                        pairs_view(required@)[i as int].1,
                    ));
                    return false;
                }
            },
        }
        i = i + 1;
    }
    true
}

fn opening_of(tag: &Vec<char>) -> (r: Vec<char>)
    ensures
        r@ == seq!['<'] + tag@,
{
    let mut r = vec!['<'];
    let mut i: usize = 0;
    while i < tag.len()
        invariant
            i <= tag@.len(),
            r@ == seq!['<'] + tag@.subrange(0, i as int),
        decreases tag@.len() - i,
    {
        r.push(tag[i]);
        assert(seq!['<'] + tag@.subrange(0, i + 1) =~= (seq!['<'] + tag@.subrange(
            0,
            i as int,
        )).push(tag@[i as int]));
        i = i + 1;
    }
    assert(tag@.subrange(0, i as int) =~= tag@);
    r
}

fn closing_of(tag: &Vec<char>) -> (r: Vec<char>)
    ensures
        r@ == seq!['<', '/'] + tag@ + seq!['>'],
{
    let mut r = vec!['<', '/'];
    let mut i: usize = 0;
    while i < tag.len()
        invariant
            i <= tag@.len(),
            r@ == seq!['<', '/'] + tag@.subrange(0, i as int),
        decreases tag@.len() - i,
    {
        r.push(tag[i]);
        assert(seq!['<', '/'] + tag@.subrange(0, i + 1) =~= (seq!['<', '/'] + tag@.subrange(
            0,
            i as int,
        )).push(tag@[i as int]));
        i = i + 1;
    }
    r.push('>');
    assert(tag@.subrange(0, i as int) =~= tag@);
    assert(r@ =~= seq!['<', '/'] + tag@ + seq!['>']);
    r
}

fn string_pairs_to_chars(v: &Vec<(String, String)>) -> (r: Vec<(Vec<char>, Vec<char>)>)
    ensures
        pairs_view(r@) == string_pairs_view(v@),
{
    let mut r: Vec<(Vec<char>, Vec<char>)> = Vec::new();
    let mut i: usize = 0;
    while i < v.len()
        invariant
            i <= v@.len(),
            pairs_view(r@) == string_pairs_view(v@).subrange(0, i as int),
        decreases v@.len() - i,
    {
        let k = chars_of(v[i].0.as_str());
        let x = chars_of(v[i].1.as_str());
        assert((k@, x@) == string_pairs_view(v@)[i as int]);
        let ghost before = r@;
        r.push((k, x));
        assert(pairs_view(r@) =~= pairs_view(before).push(string_pairs_view(v@)[i as int]));
        assert(pairs_view(r@) =~= string_pairs_view(v@).subrange(0, i + 1));
        i = i + 1;
    }
    assert(string_pairs_view(v@).subrange(0, i as int) =~= string_pairs_view(v@));
    r
}

impl View for XMLHelper {
    type V = TagModel;

    closed spec fn view(&self) -> TagModel {
        TagModel {
            tag: self.tag@,
            attributes: pairs_view(self.attributes@),
            required: pairs_view(self.mandatory_attributes@),
            opened: self.tag_opened,
            closed: self.tag_closed,
            just_closed: self.just_closed,
            reopenable: self.allow_reopening,
            openings: self.openings as nat,
        }
    }
}

impl XMLHelper {
    fn make(tag: &str, reopenable: bool, required: Vec<(Vec<char>, Vec<char>)>) -> (r: Self)
        ensures
            r@ == TagModel::fresh(tag@, reopenable, pairs_view(required@)),
    {
        let r = XMLHelper {
            tag: chars_of(tag),
            attributes: Vec::new(),
            mandatory_attributes: required,
            tag_opened: false,
            tag_closed: false,
            just_closed: false,
            allow_reopening: reopenable,
            openings: 0,
        };
        assert(pairs_view(r.attributes@) =~= Seq::empty());
        r
    }

    /// A matcher for `tag`, which may open once.
    pub fn new(tag: &str) -> (r: Self)
        ensures
            r@ == TagModel::fresh(tag@, false, Seq::empty()),
    {
        let r = Self::make(tag, false, Vec::new());
        assert(pairs_view(Seq::<(Vec<char>, Vec<char>)>::empty()) =~= Seq::empty());
        r
    }

    /// A matcher for `tag`, which may close and open again.
    pub fn with_reopening(tag: &str) -> (r: Self)
        ensures
            r@ == TagModel::fresh(tag@, true, Seq::empty()),
    {
        let r = Self::make(tag, true, Vec::new());
        assert(pairs_view(Seq::<(Vec<char>, Vec<char>)>::empty()) =~= Seq::empty());
        r
    }

    /// A matcher for `tag` that takes only openings carrying every given
    /// attribute with the given value.
    pub fn with_attributes(tag: &str, mandatory_attributes: Vec<(String, String)>) -> (r: Self)
        requires
            mandatory_attributes@.len() > 0,
        ensures
            r@ == TagModel::fresh(tag@, false, string_pairs_view(mandatory_attributes@)),
    {
        let required = string_pairs_to_chars(&mandatory_attributes);
        Self::make(tag, false, required)
    }

    pub fn can_build(&self) -> (r: bool)
        ensures
            r == self@.ready(),
    {
        self.tag_closed && self.openings == 0
    }

    /// The tag is open, or closed on the last line.
    pub fn reports(&self) -> (r: bool)
        ensures
            r == self@.reports(),
    {
        self.tag_opened && !self.tag_closed || self.just_closed
    }

    pub fn is_opened(&self) -> (r: bool)
        ensures
            r == self@.opened,
    {
        self.tag_opened
    }

    pub fn is_closed(&self) -> (r: bool)
        ensures
            r == self@.closed,
    {
        self.tag_closed
    }

    /// The tag's name.
    pub fn tag_name(&self) -> (r: String)
        ensures
            r@ == self@.tag,
    {
        string_of(self.tag.as_slice())
    }

    /// The value of the attribute `key` of the last opening.
    pub fn attribute(&self, key: &str) -> (r: Option<String>)
        ensures
            r is None ==> lookup(self@.attributes, key@) is None,
            r matches Some(v) ==> lookup(self@.attributes, key@) == Some(v@),
    {
        let k = chars_of(key);
        match find_attribute(&self.attributes, k.as_slice()) {
            None => None,
            Some(j) => Some(string_of(self.attributes[j].1.as_slice())),
        }
    }

    /// Whether the line opens this tag.
    pub fn opens_line(&self, line: &[char]) -> (r: bool)
        ensures
            r == self@.opens(line@),
    {
        let opening = opening_of(&self.tag);
        let ol = opening.len();
        line.len() > ol && starts_with(line, opening.as_slice()) && (line[ol] == '>' || line[ol]
            == ' ')
    }

    /// Whether the line ends with this tag's closing token.
    pub fn closes_line(&self, line: &[char]) -> (r: bool)
        ensures
            r == has_suffix(line@, self@.closing()),
    {
        let closing = closing_of(&self.tag);
        ends_with(line, closing.as_slice())
    }

    fn close_step<'a>(&mut self, rest: &'a [char]) -> (r: Result<&'a [char], ParseError>)
        ensures
            (final(self)@, rest_outcome(r)) == old(self)@.close_step(rest@),
    {
        let closing = closing_of(&self.tag);
        let ends = ends_with(rest, closing.as_slice());
        if !self.tag_opened {
            if ends {
                return Err(ParseError::NotOpened { tag: string_of(self.tag.as_slice()) });
            }
            let e = &rest[0..0];
            assert(e@ =~= Seq::<char>::empty());
            return Ok(e);
        }
        if ends {
            if (self.tag_closed && !self.just_closed && !self.allow_reopening) || self.openings
                == 0 {
                return Err(ParseError::AlreadyClosed { tag: string_of(self.tag.as_slice()) });
            }
            self.tag_closed = true;
            self.just_closed = true;
            self.openings = self.openings - 1;
            Ok(&rest[0..rest.len() - closing.len()])
        } else {
            self.just_closed = false;
            Ok(rest)
        }
    }

    /// Reads one line given as characters; returns the content that belongs
    /// inside the tag.
    pub fn step<'a>(&mut self, line: &'a [char]) -> (r: Result<&'a [char], ParseError>)
        ensures
            (final(self)@, rest_outcome(r)) == old(self)@.step(line@),
    {
        let opening = opening_of(&self.tag);
        let ol = opening.len();
        let opens = line.len() > ol && starts_with(line, opening.as_slice()) && (line[ol] == '>'
            || line[ol] == ' ');
        if opens {
            if !self.allow_reopening && self.tag_opened {
                return Err(ParseError::AlreadyOpened { tag: string_of(self.tag.as_slice()) });
            }
            let self_closing = vec!['/', '>'];
            if ends_with(line, self_closing.as_slice()) {
                let e = &line[0..0];
                assert(e@ =~= Seq::<char>::empty());
                return Ok(e);
            }
            let gt = find_char(line, '>', ol);
            if gt >= line.len() {
                return Err(ParseError::MalformedTag { tag: string_of(self.tag.as_slice()) });
            }
            let attributes = scan_attributes(strip_chars(&line[ol..gt], None));
            if !satisfies_exec(&attributes, &self.mandatory_attributes) {
                let e = &line[0..0];
                assert(e@ =~= Seq::<char>::empty());
                return Ok(e);
            }
            if self.openings >= 255 {
                return Err(ParseError::AlreadyOpened { tag: string_of(self.tag.as_slice()) });
            }
            self.attributes = attributes;
            self.tag_opened = true;
            self.tag_closed = false;
            self.just_closed = false;
            self.openings = self.openings + 1;
            self.close_step(&line[gt + 1..line.len()])
        } else {
            self.close_step(line)
        }
    }

    /// Reads one line; returns the content that belongs inside the tag.
    pub fn parse(&mut self, line: &str) -> (r: Result<String, ParseError>)
        ensures
            old(self)@.step(line@).0 == final(self)@,
            match (r, old(self)@.step(line@).1) {
                (Ok(s), Ok(t)) => s@ == t,
                (Err(e), Err(f)) => e@ == f,
                _ => false,
            },
    {
        let chars = chars_of(line);
        match self.step(chars.as_slice()) {
            Ok(rest) => Ok(string_of(rest)),
            Err(e) => Err(e),
        }
    }
}

/// Closing a tag that was never opened is an error.
pub proof fn lemma_close_unopened(t: TagModel, line: Seq<char>)
    requires
        !t.opened,
        !t.opens(line),
        has_suffix(line, t.closing()),
    ensures
        t.step(line).1 == Err::<Seq<char>, ErrorView>(ErrorView::NotOpened { tag: t.tag }),
{
}

/// Closing a tag again once it closed as often as it opened is an error.
pub proof fn lemma_close_twice(t: TagModel, line: Seq<char>)
    requires
        t.opened,
        t.ready(),
        !t.opens(line),
        has_suffix(line, t.closing()),
    ensures
        t.step(line).1 == Err::<Seq<char>, ErrorView>(ErrorView::AlreadyClosed { tag: t.tag }),
{
}

/// Opening again a tag that cannot reopen is an error.
pub proof fn lemma_open_twice(t: TagModel, line: Seq<char>)
    requires
        t.opened,
        !t.reopenable,
        t.opens(line),
    ensures
        t.step(line).1 == Err::<Seq<char>, ErrorView>(ErrorView::AlreadyOpened { tag: t.tag }),
{
}

/// A tag that may reopen, and requires no attribute, opens again on its
/// plain opening line once it has closed.
pub proof fn lemma_reopen(t: TagModel)
    requires
        t.reopenable,
        t.ready(),
        t.required.len() == 0,
        t.tag.len() > 0,
        t.tag.last() != '/',
    ensures
        ({
            let (u, r) = t.step(t.opening() + seq!['>']);
            &&& r == Ok::<Seq<char>, ErrorView>(Seq::empty())
            &&& u.opened && !u.closed && u.openings == 1
            &&& u.reports()
        }),
{
    let line = t.opening() + seq!['>'];
    let o = t.opening();
    assert(line.subrange(0, o.len() as int) =~= o);
    assert(line[o.len() as int] == '>');
    assert(t.opens(line));
    assert(line.subrange(line.len() - 2, line.len() as int) =~= seq![t.tag.last(), '>']);
    assert(!has_suffix(line, seq!['/', '>']));
    assert(find_from(line, '>', o.len() as int) == o.len());
    let portion = line.subrange(o.len() as int, o.len() as int);
    assert(portion =~= Seq::<char>::empty());
    assert(strip(portion, None) =~= Seq::<char>::empty());
    assert(parse_attributes(portion) =~= Seq::empty());
    let rest = line.subrange(o.len() + 1 as int, line.len() as int);
    assert(rest =~= Seq::<char>::empty());
}

/// A matcher whose required attributes the opening line does not carry
/// treats the line as not its own: no error, no content, no change.
pub proof fn lemma_gate_leaves_unchanged(t: TagModel, line: Seq<char>)
    requires
        t.opens(line),
        t.reopenable || !t.opened,
        find_from(line, '>', t.opening().len() as int) < line.len(),
        !satisfies(
            parse_attributes(
                line.subrange(
                    t.opening().len() as int,
                    find_from(line, '>', t.opening().len() as int),
                ),
            ),
            t.required,
        ),
    ensures
        t.step(line) == (t, Ok::<Seq<char>, ErrorView>(Seq::empty())),
{
}

} // verus!
