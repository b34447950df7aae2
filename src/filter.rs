//! Dropping boilerplate lines before they reach the record parser.

use vstd::prelude::*;
use crate::text::{chars_of, ends_with, has_prefix, has_suffix, starts_with};

verus! {

/// Whether the line begins or ends with one of the patterns.
pub open spec fn skipped(line: Seq<char>, patterns: Seq<Seq<char>>) -> bool {
    exists|i: int|
        0 <= i < patterns.len() && (has_prefix(line, #[trigger] patterns[i]) || has_suffix(
            line,
            patterns[i],
        ))
}

/// Whether the line begins or ends with one of the patterns.
pub fn is_skipped(line: &str, patterns: &[&str]) -> (r: bool)
    ensures
        r == skipped(line@, patterns@.map_values(|p: &str| p@)),
{
    let ghost ps = patterns@.map_values(|p: &str| p@);
    let l = chars_of(line);
    let mut i: usize = 0;
    while i < patterns.len()
        invariant
            i <= patterns@.len(),
            l@ == line@,
            ps == patterns@.map_values(|p: &str| p@),
            forall|j: int|
                0 <= j < i ==> !(has_prefix(line@, #[trigger] ps[j]) || has_suffix(line@, ps[j])),
        decreases patterns@.len() - i,
    {
        let p = chars_of(patterns[i]);
        assert(p@ == ps[i as int]);
        if starts_with(l.as_slice(), p.as_slice()) || ends_with(l.as_slice(), p.as_slice()) {
            return true;
        }
        i = i + 1;
    }
    false
}

/// The boilerplate of the distribution files: tags whose lines carry
/// nothing that a record keeps.
pub open spec fn boilerplate() -> Seq<Seq<char>> {
    seq![
        "<?xml"@,
        "<?nihms ?>"@,
        "<?pmcsd ?>"@,
        "<!DOCTYPE"@,
        "<PubmedArticleSet>"@,
        "<PubmedData>"@,
        "</PubmedData>"@,
        "<PublicationStatus>"@,
        "</PubmedArticleSet>"@,
        "<MedlineCitation"@,
        "</MedlineCitation"@,
        "<CitationSubset>"@,
        "<Article "@,
        "<ArticleTitle/>"@,
        "<PublicationTypeList/>"@,
        "<ReferenceList/>"@,
        "</Article>"@,
        "<NumberOfReferences>"@,
        "<Language>"@,
        "<SpaceFlightMission>"@,
        "<OtherID "@,
        "<ELocationID "@,
        "<GeneralNote "@,
        "<Pagination"@,
        "</Pagination"@,
        "<MedlinePgn"@,
    ]
}

/// The boilerplate patterns, for [`is_skipped`].
pub fn default_skip_patterns() -> (r: Vec<&'static str>)
    ensures
        r@.map_values(|p: &str| p@) == boilerplate(),
{
    let r = vec![
        "<?xml",
        "<?nihms ?>",
        "<?pmcsd ?>",
        "<!DOCTYPE",
        "<PubmedArticleSet>",
        "<PubmedData>",
        "</PubmedData>",
        "<PublicationStatus>",
        "</PubmedArticleSet>",
        "<MedlineCitation",
        "</MedlineCitation",
        "<CitationSubset>",
        "<Article ",
        "<ArticleTitle/>",
        "<PublicationTypeList/>",
        "<ReferenceList/>",
        "</Article>",
        "<NumberOfReferences>",
        "<Language>",
        "<SpaceFlightMission>",
        "<OtherID ",
        "<ELocationID ",
        "<GeneralNote ",
        "<Pagination",
        "</Pagination",
        "<MedlinePgn",
    ];
    assert(r@.map_values(|p: &str| p@) =~= boilerplate());
    r
}

} // verus!
