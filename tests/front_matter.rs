use hugo2zola::dates::{
    first_successful_reading, normalize_date, normalize_required_date, toml_datetime, DateError,
};
use hugo2zola::document::{frame_target, normalize_block, source_document};
use hugo2zola::keys::normalize_key;
use hugo2zola::record::{OneOrMany, SourceRecord, TargetRecord};
use hugo2zola::scan::{is_delimiter_line, scan_front_matter, ScanError, ScanState, Scanner};

fn lines(v: &[&str]) -> Vec<String> {
    v.iter().map(|s| s.to_string()).collect()
}

fn empty_source() -> SourceRecord {
    SourceRecord {
        title: None,
        date: None,
        description: None,
        alias: None,
        categories: None,
        tags: None,
        draft: None,
        slug: None,
        aliases: None,
        lastmod: None,
        snapdate: None,
        photo_id: None,
        palette0: None,
        palette1: None,
        image: None,
        thumbnail: None,
    }
}

#[test]
fn delimiter_lines() {
    assert!(is_delimiter_line("---"));
    assert!(is_delimiter_line("---  \t"));
    assert!(!is_delimiter_line("--"));
    assert!(!is_delimiter_line(" ---"));
    assert!(!is_delimiter_line("---x"));
    assert!(!is_delimiter_line("+++"));
}

#[test]
fn block_is_lines_between_delimiters() {
    let input = lines(&["---", "title: A", "draft: true", "---", "body", "---", "more"]);
    let block = scan_front_matter(&input).unwrap();
    assert_eq!(block, lines(&["title: A", "draft: true"]));
}

#[test]
fn delimiter_with_trailing_whitespace_closes() {
    let input = lines(&["---  ", "a: 1", "---\t", "b: 2"]);
    assert_eq!(scan_front_matter(&input).unwrap(), lines(&["a: 1"]));
}

#[test]
fn empty_block() {
    let input = lines(&["---", "---"]);
    assert_eq!(scan_front_matter(&input).unwrap(), Vec::<String>::new());
}

#[test]
fn unterminated_block_is_an_error() {
    let input = lines(&["---", "title: A", "draft: true"]);
    assert_eq!(scan_front_matter(&input), Err(ScanError::Unterminated));
    assert_eq!(scan_front_matter(&lines(&["---"])), Err(ScanError::Unterminated));
}

#[test]
fn missing_opening_delimiter_is_an_error() {
    let input = lines(&["intro", "---", "title: A", "---"]);
    assert_eq!(scan_front_matter(&input), Err(ScanError::NoOpeningDelimiter));
    assert_eq!(scan_front_matter(&Vec::new()), Err(ScanError::NoOpeningDelimiter));
}

#[test]
fn scanner_ignores_lines_after_closing() {
    let mut sc = Scanner::new();
    sc.feed("---".to_string());
    assert_eq!(sc.state, ScanState::Started);
    sc.feed("title: A".to_string());
    sc.feed("---".to_string());
    assert_eq!(sc.state, ScanState::Complete);
    sc.feed("body".to_string());
    assert_eq!(sc.finish(), Ok(lines(&["title: A"])));
}

#[test]
fn scanner_rejects_a_late_opening() {
    let mut sc = Scanner::new();
    sc.feed("text".to_string());
    assert_eq!(sc.state, ScanState::Rejected);
    sc.feed("---".to_string());
    assert_eq!(sc.state, ScanState::Rejected);
    assert_eq!(sc.finish(), Err(ScanError::NoOpeningDelimiter));
}

#[test]
fn key_case_variants_normalize_alike() {
    assert_eq!(normalize_key("Title: Cool"), "title: Cool");
    assert_eq!(normalize_key("TITLE: Cool"), "title: Cool");
    assert_eq!(normalize_key("Title: Cool"), normalize_key("TITLE: Cool"));
}

#[test]
fn lowercase_key_unchanged() {
    assert_eq!(normalize_key("title: Cool Blog Post"), "title: Cool Blog Post");
    let once = normalize_key("DrAfT: false");
    assert_eq!(normalize_key(&once), once);
}

#[test]
fn only_leading_key_is_rewritten() {
    assert_eq!(
        normalize_key("PhotoURL: HTTP://Example.COM/A:B"),
        "photourl: HTTP://Example.COM/A:B"
    );
}

#[test]
fn key_whitespace_is_kept() {
    assert_eq!(normalize_key("  Slug :  X"), "  slug :  X");
}

#[test]
fn line_without_colon_unchanged() {
    assert_eq!(normalize_key("  - Some Item"), "  - Some Item");
    assert_eq!(normalize_key(""), "");
}

#[test]
fn block_is_normalized_and_joined() {
    let block = lines(&["Title: A", "Tags:", "  - X"]);
    assert_eq!(normalize_block(&block), "title: A\ntags:\n  - X");
    assert_eq!(normalize_block(&Vec::new()), "");
}

#[test]
fn source_document_of_input() {
    let input = lines(&["---", "TITLE: A", "Date: 2022-01-10", "---", "Body: text"]);
    assert_eq!(source_document(&input), Ok("title: A\ndate: 2022-01-10".to_string()));
    assert_eq!(source_document(&lines(&["---", "a: 1"])), Err(ScanError::Unterminated));
}

#[test]
fn target_is_framed() {
    assert_eq!(frame_target("title = \"A\"\n"), "+++\ntitle = \"A\"\n+++");
    assert_eq!(frame_target("title = \"A\""), "+++\ntitle = \"A\"\n+++");
    assert_eq!(frame_target(""), "+++\n+++");
}

#[test]
fn bare_date_becomes_midnight_utc() {
    assert_eq!(normalize_date("2022-01-10"), Some("2022-01-10T00:00:00+00:00".to_string()));
}

#[test]
fn offset_is_preserved() {
    assert_eq!(
        normalize_date("2022-01-10T08:30:00+02:00"),
        Some("2022-01-10T08:30:00+02:00".to_string())
    );
}

#[test]
fn missing_offset_is_utc() {
    assert_eq!(
        normalize_date("2022-01-10T08:30:00"),
        Some("2022-01-10T08:30:00+00:00".to_string())
    );
    assert_eq!(normalize_date("2022-01-10T08:30:00"), normalize_date("2022-01-10T08:30:00Z"));
}

#[test]
fn unparsable_date_is_absent() {
    assert_eq!(normalize_date("not-a-date"), None);
    assert_eq!(normalize_date(""), None);
    assert_eq!(normalize_required_date("not-a-date"), Err(DateError::Unrecognized));
    assert_eq!(
        normalize_required_date("2022-01-10"),
        Ok("2022-01-10T00:00:00+00:00".to_string())
    );
}

#[test]
fn first_reading_wins() {
    let a = Some("A".to_string());
    let b = Some("B".to_string());
    let d = Some("2020-02-02".to_string());
    assert_eq!(first_successful_reading(a.clone(), b.clone(), d.clone()), a);
    assert_eq!(first_successful_reading(None, b.clone(), d.clone()), b);
    assert_eq!(
        first_successful_reading(None, None, d),
        Some("2020-02-02T00:00:00+00:00".to_string())
    );
    assert_eq!(first_successful_reading(None, None, None), None);
}

#[test]
fn toml_datetimes() {
    assert_eq!(toml_datetime("1979-05-27T07:32:00Z"), Ok("1979-05-27T07:32:00Z".to_string()));
    assert_eq!(toml_datetime("1979-05-27"), Ok("1979-05-27".to_string()));
    assert_eq!(toml_datetime("1979-05-27 07:32:00"), Ok("1979-05-27T07:32:00".to_string()));
    assert_eq!(toml_datetime("yesterday"), Err(DateError::Unrecognized));
}

#[test]
fn scalar_and_singleton_list_agree() {
    let one = OneOrMany::One("/old-url/".to_string()).into_list();
    let many = OneOrMany::Many(vec!["/old-url/".to_string()]).into_list();
    assert_eq!(one, many);
    assert_eq!(one, vec!["/old-url/".to_string()]);
}

#[test]
fn list_order_is_kept() {
    let v = vec!["b".to_string(), "a".to_string(), "c".to_string()];
    assert_eq!(OneOrMany::Many(v.clone()).into_list(), v);
}

#[test]
fn round_trip_scenario() {
    let mut src = empty_source();
    src.title = Some("Cool Blog Post".to_string());
    src.date = Some("2022-01-10".to_string());
    src.draft = Some(false);
    src.slug = Some("cool-blog-post".to_string());
    src.aliases = Some(OneOrMany::One("/old-url/".to_string()));
    let t = TargetRecord::from_source(src);
    assert_eq!(t.title, Some("Cool Blog Post".to_string()));
    assert_eq!(t.date, Some("2022-01-10T00:00:00+00:00".to_string()));
    assert_eq!(t.updated, Some("2022-01-10T00:00:00+00:00".to_string()));
    assert_eq!(t.draft, Some(false));
    assert_eq!(t.slug, Some("cool-blog-post".to_string()));
    assert_eq!(t.aliases, Some(vec!["/old-url/".to_string()]));
    assert!(t.taxonomies.is_empty());
    assert!(t.extra.is_empty());
    assert_eq!(t.path, None);
    assert_eq!(t.description, None);
}

#[test]
fn extension_field_scenario() {
    let mut src = empty_source();
    src.photo_id = Some("42".to_string());
    let t = TargetRecord::from_source(src);
    assert_eq!(t.extra, vec![("photo_id".to_string(), "42".to_string())]);
    assert!(t.extra.iter().all(|(k, _)| k != "snapdate"));
}

#[test]
fn all_custom_fields_go_to_extra() {
    let mut src = empty_source();
    src.thumbnail = Some("t.png".to_string());
    src.snapdate = Some("2021-05-01".to_string());
    src.palette1 = Some("#fff".to_string());
    src.palette0 = Some("#000".to_string());
    src.image = Some("i.png".to_string());
    src.photo_id = Some("7".to_string());
    let t = TargetRecord::from_source(src);
    let keys: Vec<&str> = t.extra.iter().map(|(k, _)| k.as_str()).collect();
    assert_eq!(keys, vec!["snapdate", "photo_id", "palette0", "palette1", "image", "thumbnail"]);
    assert_eq!(t.extra[0].1, "2021-05-01");
    assert_eq!(t.extra[5].1, "t.png");
}

#[test]
fn lastmod_takes_precedence_for_updated() {
    let mut src = empty_source();
    src.date = Some("2022-01-10".to_string());
    src.lastmod = Some("2022-02-01T10:00:00+01:00".to_string());
    src.alias = Some("/p/".to_string());
    src.description = Some("d".to_string());
    let t = TargetRecord::from_source(src);
    assert_eq!(t.updated, Some("2022-02-01T10:00:00+01:00".to_string()));
    assert_eq!(t.date, Some("2022-01-10T00:00:00+00:00".to_string()));
    assert_eq!(t.path, Some("/p/".to_string()));
    assert_eq!(t.description, Some("d".to_string()));
}

#[test]
fn unparsable_dates_map_to_absent() {
    let mut src = empty_source();
    src.date = Some("soon".to_string());
    let t = TargetRecord::from_source(src);
    assert_eq!(t.date, None);
    assert_eq!(t.updated, None);
}

#[test]
fn categories_and_tags_are_not_mapped() {
    let mut src = empty_source();
    src.categories = Some(OneOrMany::One("rust".to_string()));
    src.tags = Some(vec!["a".to_string()]);
    let t = TargetRecord::from_source(src);
    assert!(t.taxonomies.is_empty());
    assert!(t.extra.is_empty());
    assert_eq!(t.aliases, None);
}
