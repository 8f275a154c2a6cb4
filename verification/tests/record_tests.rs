use sitegen::frontmatter::{parse_front_matter, FieldVal};
use sitegen::markdown::{render_post_markdown, render_root_markdown};
use sitegen::pipeline::{content_file_slug, process_about_file, process_markdown_file};
use sitegen::record::{PostValue, RecordError};

fn lookup<'a>(fields: &'a [(String, FieldVal)], name: &str) -> Option<&'a FieldVal> {
    fields.iter().find(|p| p.0 == name).map(|p| &p.1)
}

#[test]
fn front_matter_split_and_fields() {
    let doc = "---\ntitle: Hello\ntags:\n  - one\n  - two\n---\nBody text";
    let (fields, body) = parse_front_matter(doc).expect("front matter expected");
    assert_eq!(body, "Body text");
    match lookup(&fields, "title") {
        Some(FieldVal::Str(s)) => assert_eq!(s, "Hello"),
        other => panic!("unexpected title value: {:?}", other.is_some()),
    }
    match lookup(&fields, "tags") {
        Some(FieldVal::List(v)) => assert_eq!(v, &vec!["one".to_string(), "two".to_string()]),
        _ => panic!("unexpected tags value"),
    }
}

#[test]
fn front_matter_absent_is_none() {
    assert!(parse_front_matter("just a plain document").is_none());
}

#[test]
fn markdown_minimal_set_renders_strikethrough() {
    let html = render_post_markdown("~~gone~~");
    assert!(html.contains("<del>gone</del>"));
}

#[test]
fn markdown_minimal_set_leaves_tables_unrendered() {
    let table = "| a | b |\n| - | - |\n| 1 | 2 |";
    let html = render_post_markdown(table);
    assert!(!html.contains("<table>"));
    let html_full = render_root_markdown(table);
    assert!(html_full.contains("<table>"));
}

#[test]
fn content_file_names() {
    assert_eq!(content_file_slug("a.md"), Some("a".to_string()));
    assert_eq!(content_file_slug("my-post.md"), Some("my-post".to_string()));
    assert_eq!(content_file_slug("notes.txt"), None);
    assert_eq!(content_file_slug(".md"), None);
    assert_eq!(content_file_slug("x.MD"), None);
}

#[test]
fn process_assembles_record() {
    let doc = "---\ntitle: T\ndate: 2024-03-04\nsummary: S\ntags: [x]\n---\n**b**";
    let d = process_markdown_file("p", doc).expect("record expected");
    match d.get("slug") {
        Some(PostValue::Str(s)) => assert_eq!(s, "p"),
        _ => panic!("slug missing"),
    }
    match d.get("title") {
        Some(PostValue::Str(s)) => assert_eq!(s, "T"),
        _ => panic!("title missing"),
    }
    match d.get("body") {
        Some(PostValue::Str(s)) => assert!(s.contains("<strong>b</strong>")),
        _ => panic!("body missing"),
    }
    match d.get("raw_content") {
        Some(PostValue::Str(s)) => assert_eq!(s, "**b**"),
        _ => panic!("raw content missing"),
    }
}

#[test]
fn defaults_for_absent_summary_and_tags() {
    let doc = "---\ntitle: T\ndate: 2024-01-01\n---\nbody";
    let d = process_markdown_file("p", doc).expect("record expected, not a missing-field error");
    match d.get("summary") {
        Some(PostValue::Str(s)) => assert_eq!(s, ""),
        _ => panic!("summary missing"),
    }
    match d.get("tags") {
        Some(PostValue::StrSlice(v)) => assert!(v.is_empty()),
        _ => panic!("tags missing"),
    }
}

#[test]
fn missing_title_is_error() {
    let doc = "---\ndate: 2024-01-01\n---\nbody";
    match process_markdown_file("p", doc) {
        Err(RecordError::BadField { field }) => assert_eq!(field, "title"),
        _ => panic!("expected a bad-field error"),
    }
}

#[test]
fn wrong_typed_title_is_error() {
    let doc = "---\ntitle: [a, b]\ndate: 2024-01-01\n---\nbody";
    match process_markdown_file("p", doc) {
        Err(RecordError::BadField { field }) => assert_eq!(field, "title"),
        _ => panic!("expected a bad-field error"),
    }
}

#[test]
fn wrong_typed_tags_is_error() {
    let doc = "---\ntitle: T\ndate: 2024-01-01\ntags: scalar\n---\nbody";
    match process_markdown_file("p", doc) {
        Err(RecordError::BadField { field }) => assert_eq!(field, "tags"),
        _ => panic!("expected a bad-field error"),
    }
}

#[test]
fn no_front_matter_is_error() {
    match process_markdown_file("p", "plain body only") {
        Err(RecordError::NoFrontMatter) => {}
        _ => panic!("expected the no-front-matter error"),
    }
}

#[test]
fn about_record_extended_fields_default() {
    let doc = "---\ntitle: About\ndate: 2024-01-01\n---\nhello";
    let d = process_about_file(doc).expect("root record expected");
    match d.get("slug") {
        Some(PostValue::Str(s)) => assert_eq!(s, "about"),
        _ => panic!("slug missing"),
    }
    match d.get("description") {
        Some(PostValue::Str(s)) => assert_eq!(s, ""),
        _ => panic!("description missing"),
    }
    match d.get("twitter_card") {
        Some(PostValue::Str(s)) => assert_eq!(s, ""),
        _ => panic!("twitter_card missing"),
    }
}

#[test]
fn about_record_extended_fields_kept() {
    let doc = "---\ntitle: About\ndate: 2024-01-01\nog_title: OG\ncanonical_url: https://e.com/\n---\nhello";
    let d = process_about_file(doc).expect("root record expected");
    match d.get("og_title") {
        Some(PostValue::Str(s)) => assert_eq!(s, "OG"),
        _ => panic!("og_title missing"),
    }
    match d.get("canonical_url") {
        Some(PostValue::Str(s)) => assert_eq!(s, "https://e.com/"),
        _ => panic!("canonical_url missing"),
    }
}

#[test]
fn record_error_messages() {
    assert_eq!(RecordError::NoFrontMatter.message(), "no front matter found");
    assert_eq!(
        RecordError::BadField { field: "title".to_string() }.message(),
        "missing or wrong-typed field: title"
    );
}
