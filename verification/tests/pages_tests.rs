use sitegen::pages::{generate_blog_index_html, generate_html_file, EmitError};
use sitegen::record::PostData;
use sitegen::sitemap::{generate_robots, generate_sitemap};

fn sample_post() -> PostData {
    PostData::new()
        .set_str("slug", "p1".to_string())
        .set_str("title", "Tools <& \"Tricks\">".to_string())
        .set_str("date", "2024-05-06".to_string())
        .set_str("summary", "A & B".to_string())
        .set_str("body", "<p><em>kept as-is</em> & raw</p>".to_string())
        .set_str_slice("tags", vec!["a<b".to_string(), "c".to_string()])
        .set_str("raw_content", "raw".to_string())
}

#[test]
fn title_escaped_in_every_metadata_position() {
    let html = generate_html_file(&sample_post(), "https://e.com").expect("page expected");
    let escaped = "Tools &lt;&amp; &quot;Tricks&quot;&gt;";
    assert!(html.contains(&format!("<title>{} - Hex</title>", escaped)));
    assert!(html.contains(&format!("<meta property=\"og:title\" content=\"{} - Hex\">", escaped)));
    assert!(html.contains(&format!("<meta name=\"twitter:title\" content=\"{} - Hex\">", escaped)));
    assert!(html.contains(&format!("\"headline\": \"{}\"", escaped)));
    assert!(html.contains(&format!("<h1>{}</h1>", escaped)));
    // The raw title never appears.
    assert!(!html.contains("Tools <& \"Tricks\">"));
}

#[test]
fn body_not_reescaped() {
    let html = generate_html_file(&sample_post(), "https://e.com").expect("page expected");
    assert!(html.contains("<p><em>kept as-is</em> & raw</p>"));
}

#[test]
fn tags_escaped_in_spans() {
    let html = generate_html_file(&sample_post(), "https://e.com").expect("page expected");
    assert!(html.contains("<span class=\"tag\">a&lt;b</span><span class=\"tag\">c</span>"));
}

#[test]
fn canonical_url_built_from_base_and_slug() {
    let html = generate_html_file(&sample_post(), "https://e.com").expect("page expected");
    assert!(html.contains("<link rel=\"canonical\" href=\"https://e.com/blog/p1\">"));
    assert!(html.contains("window.location.replace('/blog/p1');"));
}

#[test]
fn page_missing_field_names_it() {
    match generate_html_file(&PostData::new(), "https://e.com") {
        Err(EmitError::BadField { field }) => assert_eq!(field, "slug"),
        _ => panic!("expected a bad-field failure"),
    }
    let partial = PostData::new().set_str("slug", "s".to_string());
    match generate_html_file(&partial, "https://e.com") {
        Err(EmitError::BadField { field }) => assert_eq!(field, "title"),
        _ => panic!("expected a bad-field failure"),
    }
}

#[test]
fn emit_error_message() {
    let e = EmitError::BadField { field: "slug".to_string() };
    assert_eq!(e.message(), "invalid record field: slug");
}

#[test]
fn blog_index_lists_posts_and_skips_malformed() {
    let good = sample_post();
    let bad = PostData::new().set_str("slug", "broken".to_string());
    let html = generate_blog_index_html(&vec![good, bad], "https://e.com");
    assert!(html.contains("<h2><a href=\"/blog/p1\">Tools &lt;&amp; &quot;Tricks&quot;&gt;</a></h2>"));
    assert!(html.contains("<p class=\"summary\">A &amp; B</p>"));
    assert!(!html.contains("broken"));
}

#[test]
fn sitemap_entries_and_priorities() {
    let sm = generate_sitemap(&vec![sample_post()], "https://e.com");
    assert!(sm.starts_with("<?xml version=\"1.0\" encoding=\"UTF-8\"?>\n<urlset"));
    assert_eq!(sm.matches("<url>").count(), 3);
    assert!(sm.contains("<loc>https://e.com</loc>"));
    assert!(sm.contains("<loc>https://e.com/blog/index.html</loc>"));
    assert!(sm.contains("<loc>https://e.com/blog/p1.html</loc>"));
    assert!(sm.contains("<lastmod>2024-05-06</lastmod>"));
    assert!(sm.contains("<priority>1.0</priority>"));
    assert!(sm.contains("<priority>0.9</priority>"));
    assert!(sm.contains("<priority>0.7</priority>"));
    assert!(sm.ends_with("</urlset>"));
}

#[test]
fn robots_policy_text() {
    assert_eq!(
        generate_robots("https://e.com"),
        "User-agent: *\nAllow: /\nSitemap: https://e.com/sitemap.xml\nAllow: /blog/*.html\nAllow: /blog\nDisallow: /dist/\nDisallow: /target/\nDisallow: /*.wasm\nDisallow: /*.js.map"
    );
}
