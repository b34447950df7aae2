use pubmed_parser::{
    AbstractBuilder, ArticleBuilder, ArticleIdsBuilder, ChemicalBuilder, DateBuilder,
    IgnoreTags, JournalBuilder, KeywordListBuilder, MeshBuilder, ObjectBuilder, ParseError,
    RecordReader, ReferencesBuilder, XMLHelper, default_skip_patterns, is_skipped,
};

fn feed(builder: &mut ArticleBuilder, lines: &[&str]) {
    for line in lines {
        builder.parse(line).unwrap();
    }
}

fn minimal_record(pmid: &str, chemical: &str) -> Vec<String> {
    vec![
        "<PubmedArticle>".to_string(),
        format!("<PMID Version=\"1\">{}</PMID>", pmid),
        "<Journal>".to_string(),
        "<ISSN IssnType=\"Print\">1234-5678</ISSN>".to_string(),
        "<JournalIssue CitedMedium=\"Print\">".to_string(),
        "<Volume>12</Volume>".to_string(),
        "<Issue>3</Issue>".to_string(),
        "<PubDate>".to_string(),
        "<Year>2020</Year>".to_string(),
        "<Month>Jan</Month>".to_string(),
        "</PubDate>".to_string(),
        "</JournalIssue>".to_string(),
        "<Title>Journal of Tests</Title>".to_string(),
        "<ISOAbbreviation>J Tests</ISOAbbreviation>".to_string(),
        "</Journal>".to_string(),
        "<ArticleTitle>A title</ArticleTitle>".to_string(),
        "<ChemicalList>".to_string(),
        "<Chemical>".to_string(),
        "<RegistryNumber>0</RegistryNumber>".to_string(),
        format!("<NameOfSubstance UI=\"D000001\">{}</NameOfSubstance>", chemical),
        "</Chemical>".to_string(),
        "</ChemicalList>".to_string(),
        "<MeshHeadingList>".to_string(),
        "<MeshHeading>".to_string(),
        "<DescriptorName UI=\"D000002\" MajorTopicYN=\"N\">Humans</DescriptorName>".to_string(),
        "<QualifierName UI=\"Q000003\" MajorTopicYN=\"Y\">metabolism</QualifierName>".to_string(),
        "</MeshHeading>".to_string(),
        "</MeshHeadingList>".to_string(),
        "</PubmedArticle>".to_string(),
    ]
}

#[test]
fn minimal_record_builds() {
    let mut builder = ArticleBuilder::new();
    for line in minimal_record("123", "Substance X") {
        assert!(!builder.can_build());
        builder.parse(&line).unwrap();
    }
    assert!(builder.can_build());
    let article = builder.build().unwrap();
    assert_eq!(article.pubmed_id, 123);
    assert_eq!(article.journal.title, "Journal of Tests");
    assert_eq!(article.journal.issn.as_deref(), Some("1234-5678"));
    assert_eq!(article.journal.iso_abbreviation.as_deref(), Some("J Tests"));
    assert_eq!(article.journal.journal_issue.volume.as_deref(), Some("12"));
    assert_eq!(article.journal.journal_issue.issue.as_deref(), Some("3"));
    assert_eq!(article.journal.journal_issue.pubblication_date.year, Some(2020));
    assert_eq!(article.journal.journal_issue.pubblication_date.month.as_deref(), Some("Jan"));
    assert_eq!(article.journal.journal_issue.pubblication_date.day, None);
    assert_eq!(article.title.as_deref(), Some("A title"));
    assert_eq!(article.chemical_list.len(), 1);
    assert_eq!(article.chemical_list[0].code, "D000001");
    assert_eq!(article.mesh_list.len(), 1);
    let mesh = &article.mesh_list[0];
    assert_eq!(mesh.descriptor.name, "Humans");
    assert_eq!(mesh.descriptor.code, "D000002");
    assert!(!mesh.descriptor.is_major_topic);
    let qualifier = mesh.qualifier.as_ref().unwrap();
    assert_eq!(qualifier.name, "metabolism");
    assert_eq!(qualifier.code, "Q000003");
    assert!(qualifier.is_major_topic);
    assert!(article.completion_date.is_none());
    assert!(article.abstract_text.is_none());
    assert!(article.keywords.is_empty());
    assert!(article.references.is_empty());
}

#[test]
fn record_id_leaf_reads_number() {
    let mut leaf = ObjectBuilder::number("PMID", u32::MAX as u64);
    assert_eq!(leaf.parse("<PMID>123</PMID>").unwrap(), true);
    assert!(leaf.can_build());
    assert_eq!(leaf.number_value(), Some(123));
}

#[test]
fn record_id_leaf_refuses_text() {
    let mut leaf = ObjectBuilder::number("PMID", u32::MAX as u64);
    match leaf.parse("<PMID>abc</PMID>") {
        Err(ParseError::Conversion { tag, text }) => {
            assert_eq!(tag, "PMID");
            assert_eq!(text, "abc");
        },
        _ => panic!("expected a conversion error"),
    }
}

#[test]
fn record_id_leaf_refuses_overflow() {
    let mut leaf = ObjectBuilder::number("PMID", u32::MAX as u64);
    assert!(matches!(leaf.parse("<PMID>4294967296</PMID>"), Err(ParseError::Conversion { .. })));
    let mut leaf = ObjectBuilder::number("PMID", u32::MAX as u64);
    assert!(leaf.parse("<PMID>4294967295</PMID>").is_ok());
    assert_eq!(leaf.number_value(), Some(4294967295));
}

#[test]
fn number_leaf_takes_plus_and_white_space() {
    let mut leaf = ObjectBuilder::number("Day", 255);
    leaf.parse("<Day> +07 </Day>").unwrap();
    assert_eq!(leaf.number_value(), Some(7));
}

#[test]
fn chemical_reads_code_from_attribute() {
    let mut chemical = ChemicalBuilder::new();
    for line in [
        "<Chemical>",
        "<RegistryNumber>0</RegistryNumber>",
        "<NameOfSubstance UI=\"D000001\">Substance X</NameOfSubstance>",
        "</Chemical>",
    ] {
        assert!(chemical.parse(line).unwrap());
    }
    assert!(chemical.can_build());
    let c = chemical.build().unwrap();
    assert_eq!(c.registry_number, "0");
    assert_eq!(c.code, "D000001");
    assert_eq!(c.name_of_substance, "Substance X");
}

#[test]
fn chemical_without_code_fails() {
    let mut chemical = ChemicalBuilder::new();
    for line in [
        "<Chemical>",
        "<RegistryNumber>0</RegistryNumber>",
        "<NameOfSubstance>Substance X</NameOfSubstance>",
        "</Chemical>",
    ] {
        chemical.parse(line).unwrap();
    }
    match chemical.build() {
        Err(ParseError::MissingAttribute { tag, attribute }) => {
            assert_eq!(tag, "NameOfSubstance");
            assert_eq!(attribute, "UI");
        },
        _ => panic!("expected a missing attribute"),
    }
}

#[test]
fn gated_id_parsers_split_by_attribute() {
    let mut doi = ObjectBuilder::with_attributes(
        "ArticleId",
        vec![("IdType".to_string(), "doi".to_string())],
    );
    let mut pubmed = ObjectBuilder::with_attributes(
        "ArticleId",
        vec![("IdType".to_string(), "pubmed".to_string())],
    );
    let line = "<ArticleId IdType=\"doi\">10.1/x</ArticleId>";
    assert_eq!(doi.parse(line).unwrap(), true);
    assert_eq!(pubmed.parse(line).unwrap(), false);
    assert!(doi.can_build());
    assert!(!pubmed.can_build());
    assert!(!pubmed.is_opened());
    assert_eq!(doi.build().as_deref(), Some("10.1/x"));
    assert_eq!(pubmed.build(), None);
}

#[test]
fn closing_unopened_tag_fails() {
    let mut helper = XMLHelper::new("PMID");
    assert!(matches!(helper.parse("</PMID>"), Err(ParseError::NotOpened { .. })));
}

#[test]
fn closing_closed_tag_fails() {
    let mut helper = XMLHelper::new("PMID");
    assert_eq!(helper.parse("<PMID>1</PMID>").unwrap(), "1");
    assert!(helper.can_build());
    assert!(matches!(helper.parse("</PMID>"), Err(ParseError::AlreadyClosed { .. })));
    let mut helper = XMLHelper::new("Abstract");
    helper.parse("<Abstract>").unwrap();
    helper.parse("</Abstract>").unwrap();
    helper.parse("<AbstractText>x</AbstractText>").unwrap();
    assert!(matches!(helper.parse("</Abstract>"), Err(ParseError::AlreadyClosed { .. })));
}

#[test]
fn opening_twice_in_a_row_fails() {
    let mut helper = XMLHelper::new("Abstract");
    helper.parse("<Abstract>").unwrap();
    assert!(matches!(helper.parse("<Abstract>"), Err(ParseError::AlreadyOpened { .. })));
    let mut builder = ArticleBuilder::new();
    builder.parse("<PubmedArticle>").unwrap();
    assert!(matches!(builder.parse("<PubmedArticle>"), Err(ParseError::AlreadyOpened { .. })));
    let mut builder = ArticleBuilder::new();
    assert!(!builder.can_build());
    builder.parse("<PubmedArticle>").unwrap();
    builder.parse("</PubmedArticle>").unwrap();
    assert!(builder.can_build());
}

#[test]
fn reader_names_partial_id() {
    let mut reader = RecordReader::new();
    assert_eq!(reader.partial_id(), None);
    reader.feed("<PubmedArticle>").unwrap();
    reader.feed("<PMID>77</PMID>").unwrap();
    assert_eq!(reader.partial_id(), Some(77));
}

#[test]
fn reopening_single_tag_fails() {
    let mut helper = XMLHelper::new("Abstract");
    helper.parse("<Abstract>").unwrap();
    helper.parse("text").unwrap();
    assert!(matches!(helper.parse("<Abstract>"), Err(ParseError::AlreadyOpened { .. })));
}

#[test]
fn reference_list_reopens_and_accumulates() {
    let mut references = ReferencesBuilder::new();
    for line in [
        "<ReferenceList>",
        "<Reference>",
        "<Citation>First.</Citation>",
        "<ArticleIdList>",
        "<ArticleId IdType=\"doi\">10.1/x</ArticleId>",
        "<ArticleId IdType=\"pubmed\">11</ArticleId>",
        "</ArticleIdList>",
        "</Reference>",
        "</ReferenceList>",
        "<ReferenceList>",
        "<Reference>",
        "<ArticleIdList>",
        "<ArticleId IdType=\"pubmed\">22</ArticleId>",
        "</ArticleIdList>",
        "</Reference>",
        "</ReferenceList>",
    ] {
        assert!(references.parse(line).unwrap());
    }
    assert_eq!(references.build().unwrap(), vec![11usize, 22]);
}

#[test]
fn reference_with_bad_number_fails() {
    let mut references = ReferencesBuilder::new();
    assert_eq!(references.parse("<ReferenceList>").unwrap(), true);
    assert!(matches!(
        references.parse("<ArticleId IdType=\"pubmed\">abc</ArticleId>"),
        Err(ParseError::Conversion { .. })
    ));
}

#[test]
fn empty_number_leaf_has_no_value() {
    let mut leaf = ObjectBuilder::number("PMID", u32::MAX as u64);
    assert_eq!(leaf.parse("<PMID></PMID>").unwrap(), true);
    assert!(leaf.can_build());
    assert_eq!(leaf.number_value(), None);
    assert_eq!(leaf.build(), None);
}

#[test]
fn record_with_empty_id_fails() {
    let mut builder = ArticleBuilder::new();
    for line in minimal_record("", "S") {
        builder.parse(&line).unwrap();
    }
    match builder.build() {
        Err(ParseError::MissingValue { tag }) => assert_eq!(tag, "PMID"),
        _ => panic!("expected a missing record id"),
    }
}

#[test]
fn open_chemical_is_not_ready() {
    let mut chemical = ChemicalBuilder::new();
    for line in [
        "<Chemical>",
        "<RegistryNumber>0</RegistryNumber>",
        "<NameOfSubstance UI=\"D000001\">Substance X</NameOfSubstance>",
    ] {
        chemical.parse(line).unwrap();
    }
    assert!(matches!(chemical.build(), Err(ParseError::NotReady { .. })));
}

#[test]
fn open_empty_list_is_not_ready() {
    let mut ids = ArticleIdsBuilder::new();
    ids.parse("<ArticleIdList>").unwrap();
    assert!(matches!(ids.build(), Err(ParseError::NotReady { .. })));
    let ids = ArticleIdsBuilder::new();
    assert!(ids.build().unwrap().is_empty());
}

#[test]
fn article_id_errors_are_passed_on() {
    let mut ids = ArticleIdsBuilder::new();
    ids.parse("<ArticleIdList>").unwrap();
    assert!(matches!(ids.parse("x</ArticleId>"), Err(ParseError::NotOpened { .. })));
}

#[test]
fn multi_line_leaf_joins_with_space() {
    let mut title = ObjectBuilder::new("ArticleTitle");
    assert!(title.parse("<ArticleTitle>Foo").unwrap());
    assert!(!title.can_build());
    assert!(title.parse("Bar</ArticleTitle>").unwrap());
    assert_eq!(title.build().as_deref(), Some("Foo Bar"));
}

#[test]
fn empty_leaf_builds_to_nothing() {
    let mut title = ObjectBuilder::new("ArticleTitle");
    title.parse("<ArticleTitle></ArticleTitle>").unwrap();
    assert!(title.can_build());
    assert_eq!(title.build(), None);
}

#[test]
fn self_closing_tag_is_consumed_without_opening() {
    let mut helper = XMLHelper::new("ArticleTitle");
    assert_eq!(helper.parse("<ArticleTitle/>").unwrap(), "");
    assert!(!helper.is_opened());
}

#[test]
fn opening_without_end_is_malformed() {
    let mut helper = XMLHelper::new("Chemical");
    assert!(matches!(helper.parse("<Chemical attr=\"x\""), Err(ParseError::MalformedTag { .. })));
}

#[test]
fn attributes_strip_quotes_and_keep_last() {
    let mut helper = XMLHelper::new("A");
    helper.parse("<A  x=\"1\" y=\"a=b\" flag x=\"2\">").unwrap();
    assert_eq!(helper.attribute("x").as_deref(), Some("2"));
    assert_eq!(helper.attribute("y").as_deref(), Some("a=b"));
    assert_eq!(helper.attribute("flag"), None);
}

#[test]
fn date_reads_parts() {
    let mut date = DateBuilder::new("DateCompleted");
    for line in ["<DateCompleted>", "<Year>2021</Year>", "<Month>03</Month>", "<Day>09</Day>", "</DateCompleted>"] {
        assert!(date.parse(line).unwrap());
    }
    let d = date.build().unwrap();
    assert_eq!(d.year, Some(2021));
    assert_eq!(d.month.as_deref(), Some("03"));
    assert_eq!(d.day, Some(9));
}

#[test]
fn date_not_ready_fails() {
    let mut date = DateBuilder::new("DateCompleted");
    date.parse("<DateCompleted>").unwrap();
    assert!(matches!(date.build(), Err(ParseError::NotReady { .. })));
}

#[test]
fn journal_without_title_fails() {
    let mut journal = JournalBuilder::new();
    for line in [
        "<Journal>",
        "<JournalIssue CitedMedium=\"Internet\">",
        "<PubDate>",
        "</PubDate>",
        "</JournalIssue>",
        "</Journal>",
    ] {
        journal.parse(line).unwrap();
    }
    match journal.build() {
        Err(ParseError::MissingValue { tag }) => assert_eq!(tag, "Title"),
        _ => panic!("expected a missing title"),
    }
}

#[test]
fn abstract_joins_texts_and_reads_attributes() {
    let mut abs = AbstractBuilder::new("OtherAbstract");
    for line in [
        "<OtherAbstract Type=\"Publisher\" Language=\"jpn\">",
        "<AbstractText Label=\"A\">First part.</AbstractText>",
        "<AbstractText>Second",
        "part.</AbstractText>",
        "</OtherAbstract>",
    ] {
        assert!(abs.parse(line).unwrap());
    }
    let a = abs.build().unwrap();
    assert_eq!(a.text, "First part. Second part.");
    assert_eq!(a.abstract_type.as_deref(), Some("Publisher"));
    assert_eq!(a.language.as_deref(), Some("jpn"));
}

#[test]
fn mesh_without_qualifier() {
    let mut mesh = MeshBuilder::new();
    for line in [
        "<MeshHeading>",
        "<DescriptorName UI=\"D1\" MajorTopicYN=\"Y\">Animals</DescriptorName>",
        "</MeshHeading>",
    ] {
        mesh.parse(line).unwrap();
    }
    let m = mesh.build().unwrap();
    assert_eq!(m.descriptor.name, "Animals");
    assert!(m.descriptor.is_major_topic);
    assert!(m.qualifier.is_none());
}

#[test]
fn keyword_list_takes_its_owner_only() {
    let mut pip = KeywordListBuilder::new("PIP");
    for line in [
        "<KeywordList Owner=\"PIP\">",
        "<Keyword MajorTopicYN=\"Y\" Owner=\"PIP\">Fertility</Keyword>",
        "<Keyword MajorTopicYN=\"N\" Owner=\"KIE\">Ethics</Keyword>",
        "<Keyword MajorTopicYN=\"N\" Owner=\"PIP\">Kenya</Keyword>",
        "</KeywordList>",
    ] {
        assert!(pip.parse(line).unwrap());
    }
    let k = pip.build().unwrap();
    assert_eq!(k.len(), 2);
    assert_eq!(k[0].name, "Fertility");
    assert!(k[0].is_major_topic);
    assert_eq!(k[1].name, "Kenya");
    assert!(!k[1].is_major_topic);
}

#[test]
fn article_ids_harvest_each_id() {
    let mut ids = ArticleIdsBuilder::new();
    for line in [
        "<ArticleIdList>",
        "<ArticleId IdType=\"pubmed\">123</ArticleId>",
        "<ArticleId IdType=\"doi\">10.1/x</ArticleId>",
        "</ArticleIdList>",
    ] {
        assert!(ids.parse(line).unwrap());
    }
    assert!(ids.can_build());
    let v = ids.build().unwrap();
    assert_eq!(v.len(), 2);
    assert_eq!(v[0].id_type, "pubmed");
    assert_eq!(v[0].value, "123");
    assert_eq!(v[1].id_type, "doi");
    assert_eq!(v[1].value, "10.1/x");
}

#[test]
fn ignored_blocks_are_consumed() {
    let mut ignored = IgnoreTags::new(&["AuthorList", "GrantList"]);
    assert!(ignored.parse("<AuthorList CompleteYN=\"Y\">").unwrap());
    assert!(ignored.parse("<LastName>Doe</LastName>").unwrap());
    assert!(ignored.parse("</AuthorList>").unwrap());
    assert!(!ignored.parse("<Other>x</Other>").unwrap());
}

#[test]
fn unhandled_line_fails() {
    let mut builder = ArticleBuilder::new();
    builder.parse("<PubmedArticle>").unwrap();
    match builder.parse("<Unknown>x</Unknown>") {
        Err(ParseError::UnhandledLine { line }) => assert_eq!(line, "<Unknown>x</Unknown>"),
        _ => panic!("expected an unhandled line"),
    }
}

#[test]
fn record_not_ready_fails() {
    let mut builder = ArticleBuilder::new();
    builder.parse("<PubmedArticle>").unwrap();
    assert!(matches!(builder.build(), Err(ParseError::NotReady { .. })));
}

#[test]
fn record_without_id_fails() {
    let mut builder = ArticleBuilder::new();
    let lines: Vec<String> = minimal_record("1", "S")
        .into_iter()
        .filter(|l| !l.starts_with("<PMID"))
        .collect();
    for line in &lines {
        builder.parse(line).unwrap();
    }
    match builder.build() {
        Err(ParseError::MissingValue { tag }) => assert_eq!(tag, "PMID"),
        _ => panic!("expected a missing record id"),
    }
}

#[test]
fn keywords_of_both_owners_are_merged() {
    let mut builder = ArticleBuilder::new();
    let mut lines = minimal_record("5", "S");
    let end = lines.pop().unwrap();
    for line in [
        "<KeywordList Owner=\"PIP\">",
        "<Keyword MajorTopicYN=\"N\" Owner=\"PIP\">One</Keyword>",
        "</KeywordList>",
        "<KeywordList Owner=\"KIE\">",
        "<Keyword MajorTopicYN=\"Y\" Owner=\"KIE\">Two</Keyword>",
        "</KeywordList>",
    ] {
        lines.push(line.to_string());
    }
    lines.push(end);
    for line in &lines {
        builder.parse(line).unwrap();
    }
    let article = builder.build().unwrap();
    assert_eq!(article.keywords.len(), 2);
    assert_eq!(article.keywords[0].name, "One");
    assert_eq!(article.keywords[1].name, "Two");
    assert!(article.keywords[1].is_major_topic);
}

#[test]
fn second_record_is_independent() {
    let mut reader = RecordReader::new();
    let mut records = Vec::new();
    let mut lines = minimal_record("1", "First");
    lines.extend(minimal_record("2", "Second"));
    for line in &lines {
        if let Some(a) = reader.feed(line).unwrap() {
            records.push(a);
        }
    }
    assert_eq!(records.len(), 2);
    assert_eq!(records[0].pubmed_id, 1);
    assert_eq!(records[1].pubmed_id, 2);
    assert_eq!(records[0].chemical_list.len(), 1);
    assert_eq!(records[1].chemical_list.len(), 1);
    assert_eq!(records[0].chemical_list[0].name_of_substance, "First");
    assert_eq!(records[1].chemical_list[0].name_of_substance, "Second");
    assert_eq!(records[1].mesh_list.len(), 1);

    let mut builder = ArticleBuilder::new();
    feed(&mut builder, &minimal_record("1", "First").iter().map(|s| s.as_str()).collect::<Vec<_>>());
    let first = std::mem::replace(&mut builder, ArticleBuilder::new()).build().unwrap();
    feed(&mut builder, &minimal_record("2", "Second").iter().map(|s| s.as_str()).collect::<Vec<_>>());
    let second = builder.build().unwrap();
    assert_eq!(first.pubmed_id, 1);
    assert_eq!(second.pubmed_id, 2);
    assert_eq!(second.chemical_list.len(), 1);
    assert_eq!(second.chemical_list[0].name_of_substance, "Second");
}

#[test]
fn reader_drops_failed_record() {
    let mut reader = RecordReader::new();
    assert!(reader.feed("<PubmedArticle>").unwrap().is_none());
    assert!(reader.feed("<PMID>abc</PMID>").is_err());
    let mut records = Vec::new();
    for line in minimal_record("9", "S") {
        if let Some(a) = reader.feed(&line).unwrap() {
            records.push(a);
        }
    }
    assert_eq!(records.len(), 1);
    assert_eq!(records[0].pubmed_id, 9);
}

#[test]
fn reader_skips_rest_of_failed_record() {
    let mut reader = RecordReader::new();
    let mut bad = minimal_record("1", "S");
    bad[1] = "<PMID>abc</PMID>".to_string();
    let mut lines = bad;
    lines.extend(minimal_record("2", "T"));
    let mut records = Vec::new();
    let mut errors = 0;
    for line in &lines {
        match reader.feed(line) {
            Ok(Some(a)) => records.push(a),
            Ok(None) => {},
            Err(_) => errors += 1,
        }
    }
    assert_eq!(errors, 1);
    assert_eq!(records.len(), 1);
    assert_eq!(records[0].pubmed_id, 2);
}

#[test]
fn boilerplate_lines_are_skipped() {
    let patterns = default_skip_patterns();
    assert!(is_skipped("<?xml version=\"1.0\"?>", &patterns));
    assert!(is_skipped("<MedlineCitation Status=\"MEDLINE\" Owner=\"NLM\">", &patterns));
    assert!(is_skipped("</Article>", &patterns));
    assert!(!is_skipped("<PMID Version=\"1\">1</PMID>", &patterns));
    assert!(!is_skipped("<ArticleTitle>x</ArticleTitle>", &patterns));
}
