use sitegen::pipeline::{run_pipeline, BuildError};
use sitegen::record::RecordError;

const BASE: &str = "https://e.com";

fn about_doc() -> String {
    "---\ntitle: About Me\ndate: 2024-01-01\ndescription: The site\n---\nHello *there*".to_string()
}

fn file_a() -> (String, String) {
    (
        "a.md".to_string(),
        "---\ntitle: \"A & B\"\ndate: 2024-01-01\n---\n**bold**".to_string(),
    )
}

fn file_b() -> (String, String) {
    (
        "b.md".to_string(),
        "---\ntitle: Plain\ndate: 2024-02-02\ntags: [x, y]\n---\nsecond".to_string(),
    )
}

#[test]
fn end_to_end_two_posts() {
    let files = vec![file_a(), file_b()];
    let out = run_pipeline(&files, &about_doc(), BASE).expect("build expected");

    // The generated table holds both records in discovery order.
    assert!(out.generated_code.contains("static POSTS: &[Post]"));
    assert!(out.generated_code.contains("static ABOUT: &[About]"));
    let ia = out.generated_code.find("slug: \"a\",").expect("record a expected");
    let ib = out.generated_code.find("slug: \"b\",").expect("record b expected");
    assert!(ia < ib);

    // a.html carries the escaped title and the rendered body.
    let (slug_a, page_a) = &out.post_pages[0];
    assert_eq!(slug_a, "a");
    assert!(page_a.contains("<title>A &amp; B - Hex</title>"));
    assert!(page_a.contains("<strong>bold</strong>"));

    // b.html carries its two tag spans.
    let (slug_b, page_b) = &out.post_pages[1];
    assert_eq!(slug_b, "b");
    assert!(page_b.contains("<span class=\"tag\">x</span><span class=\"tag\">y</span>"));

    // The sitemap holds exactly four entries, b's last-modified date among them.
    assert_eq!(out.sitemap_xml.matches("<url>").count(), 4);
    assert!(out.sitemap_xml.contains("<loc>https://e.com/blog/a.html</loc>"));
    assert!(out.sitemap_xml.contains("<loc>https://e.com/blog/b.html</loc>"));
    assert!(out.sitemap_xml.contains("<lastmod>2024-02-02</lastmod>"));

    // The root page carries the about record's metadata and body.
    assert!(out.index_html.contains("<title>About Me</title>"));
    assert!(out.index_html.contains("<em>there</em>"));
    assert!(out.index_html.contains("<meta name=\"description\" content=\"The site\" />"));

    assert!(out.warnings.is_empty());
}

#[test]
fn partial_failure_isolation() {
    let files = vec![file_a(), file_b(), ("c.md".to_string(), "no metadata block here".to_string())];
    let out = run_pipeline(&files, &about_doc(), BASE).expect("build expected");
    assert_eq!(out.warnings.len(), 1);
    assert_eq!(out.warnings[0], "failed to process c.md: no front matter found");
    assert_eq!(out.post_pages.len(), 2);
    assert_eq!(out.sitemap_xml.matches("<url>").count(), 4);
    assert!(out.generated_code.contains("slug: \"a\","));
    assert!(out.generated_code.contains("slug: \"b\","));
    assert!(!out.generated_code.contains("\"c\""));
}

#[test]
fn non_content_files_ignored_silently() {
    let files = vec![file_a(), ("style.css".to_string(), "body {}".to_string())];
    let out = run_pipeline(&files, &about_doc(), BASE).expect("build expected");
    assert!(out.warnings.is_empty());
    assert_eq!(out.post_pages.len(), 1);
}

#[test]
fn determinism_byte_identical() {
    let files = vec![file_a(), file_b()];
    let o1 = run_pipeline(&files, &about_doc(), BASE).expect("build expected");
    let o2 = run_pipeline(&files, &about_doc(), BASE).expect("build expected");
    assert_eq!(o1.generated_code, o2.generated_code);
    assert_eq!(o1.post_pages, o2.post_pages);
    assert_eq!(o1.blog_index_html, o2.blog_index_html);
    assert_eq!(o1.index_html, o2.index_html);
    assert_eq!(o1.sitemap_xml, o2.sitemap_xml);
    assert_eq!(o1.robots_txt, o2.robots_txt);
    assert_eq!(o1.warnings, o2.warnings);
}

#[test]
fn duplicate_slug_aborts() {
    let files = vec![file_a(), file_a()];
    match run_pipeline(&files, &about_doc(), BASE) {
        Err(BuildError::DuplicateSlug { slug }) => assert_eq!(slug, "a"),
        _ => panic!("expected the duplicate-slug failure"),
    }
}

#[test]
fn root_failure_aborts() {
    let files = vec![file_a()];
    match run_pipeline(&files, "no metadata at all", BASE) {
        Err(BuildError::Root { error: RecordError::NoFrontMatter }) => {}
        _ => panic!("expected the root failure"),
    }
}

#[test]
fn root_bad_field_aborts() {
    let files: Vec<(String, String)> = vec![];
    let about = "---\ndate: 2024-01-01\n---\nbody";
    match run_pipeline(&files, about, BASE) {
        Err(BuildError::Root { error: RecordError::BadField { field } }) => {
            assert_eq!(field, "title")
        }
        _ => panic!("expected the root failure"),
    }
}

#[test]
fn build_error_messages() {
    let e = BuildError::DuplicateSlug { slug: "a".to_string() };
    assert_eq!(e.message(), "duplicate slug: a");
    let e = BuildError::Root { error: RecordError::NoFrontMatter };
    assert_eq!(e.message(), "root content file: no front matter found");
}

#[test]
fn blog_index_from_build() {
    let files = vec![file_a()];
    let out = run_pipeline(&files, &about_doc(), BASE).expect("build expected");
    assert!(out.blog_index_html.contains("<h2><a href=\"/blog/a\">A &amp; B</a></h2>"));
    assert!(out.blog_index_html.contains("<link rel=\"canonical\" href=\"https://e.com/blog\">"));
}
