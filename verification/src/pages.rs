//! Static page emission.
//!
//! Each post record becomes one self-contained, crawler-oriented HTML
//! document; the record set becomes a blog index document; the root record
//! becomes the site's entry document. Every interpolated plain-text field
//! (title, summary, tag text) is HTML-escaped; rendered bodies are inserted
//! verbatim as trusted HTML. Post and index documents carry a visible notice
//! and a client-side redirect script that sends ordinary browsers to the
//! interactive page while a requester whose declared agent string holds one
//! of a few crawler tokens keeps seeing the static content — a deliberate
//! heuristic, not a robust classifier.
//!
//! The template text lives in `pub const` chunks, numbered in emission order,
//! so that the specification functions and the emitters speak of the same
//! bytes.

use vstd::prelude::*;
use crate::escape::{html_escape, html_escape_seq};
use crate::record::{PostData, PostValue, PostValueView, record_views};
use crate::strutil::{join_spec, join_strings, str_views};
use vstd::string::{StrSliceExecFns, StringExecFns};

verus! {

/// A record field an emitter needs but the record does not hold in the
/// expected shape.
#[derive(Debug)]
pub enum EmitError {
    BadField { field: String },
}

impl EmitError {
    /// A short description for build logs.
    pub fn message(&self) -> (r: String)
        ensures
            match self {
                EmitError::BadField { field } => r@ == "invalid record field: "@ + field@,
            },
    {
        match self {
            EmitError::BadField { field } => {
                let mut out = String::from_str("invalid record field: ");
                out.append(field.as_str());
                out
            },
        }
    }
}

/// The scalar value of a record field, when the record holds one there.
pub open spec fn scalar_field(m: Map<Seq<char>, PostValueView>, k: Seq<char>) -> Option<Seq<char>> {
    if m.contains_key(k) {
        match m[k] {
            PostValueView::Str(s) => Some(s),
            _ => None,
        }
    } else {
        None
    }
}

/// The list value of a record field, when the record holds one there.
pub open spec fn list_field(m: Map<Seq<char>, PostValueView>, k: Seq<char>) -> Option<
    Seq<Seq<char>>,
> {
    if m.contains_key(k) {
        match m[k] {
            PostValueView::StrSlice(vs) => Some(vs),
            _ => None,
        }
    } else {
        None
    }
}

/// Reads a scalar record field for emission.
pub fn get_scalar<'a>(post: &'a PostData, name: &str) -> (r: Result<&'a String, EmitError>)
    ensures
        match r {
            Ok(s) => scalar_field(post@, name@) == Some(s@),
            Err(e) => scalar_field(post@, name@) is None && (e matches EmitError::BadField {
                field,
            } && field@ == name@),
        },
{
    match post.get(name) {
        Some(PostValue::Str(s)) => Ok(s),
        _ => Err(EmitError::BadField { field: name.to_owned() }),
    }
}

/// Reads a list record field for emission.
pub fn get_list<'a>(post: &'a PostData, name: &str) -> (r: Result<&'a Vec<String>, EmitError>)
    ensures
        match r {
            Ok(v) => list_field(post@, name@) == Some(str_views(v@)),
            Err(e) => list_field(post@, name@) is None && (e matches EmitError::BadField {
                field,
            } && field@ == name@),
        },
{
    match post.get(name) {
        Some(PostValue::StrSlice(v)) => Ok(v),
        _ => Err(EmitError::BadField { field: name.to_owned() }),
    }
}

/// The canonical URL of a post: `{base}/blog/{slug}`.
pub open spec fn canonical_url_spec(base: Seq<char>, slug: Seq<char>) -> Seq<char> {
    base + "/blog/"@ + slug
}

/// Builds the canonical URL of a post.
pub fn canonical_url(base_url: &str, slug: &str) -> (r: String)
    ensures
        r@ == canonical_url_spec(base_url@, slug@),
{
    let mut out = base_url.to_owned();
    out.append("/blog/");
    out.append(slug);
    out
}

/// One rendered tag: a span holding the escaped tag text.
pub open spec fn tag_span_spec(tag: Seq<char>) -> Seq<char> {
    "<span class=\"tag\">"@ + html_escape_seq(tag) + "</span>"@
}

/// The rendered tag list: one span per tag, in source order.
pub open spec fn tags_html_spec(tags: Seq<Seq<char>>) -> Seq<char>
    decreases tags.len(),
{
    if tags.len() == 0 {
        Seq::empty()
    } else {
        tags_html_spec(tags.drop_last()) + tag_span_spec(tags.last())
    }
}

/// Renders the tag list of a record.
pub fn render_tags(tags: &Vec<String>) -> (r: String)
    ensures
        r@ == tags_html_spec(str_views(tags@)),
{
    let mut out = String::new();
    let mut i: usize = 0;
    while i < tags.len()
        invariant
            i <= tags@.len(),
            out@ == tags_html_spec(str_views(tags@).take(i as int)),
        decreases tags@.len() - i,
    {
        let mut span = String::from_str("<span class=\"tag\">");
        let e = html_escape(tags[i].as_str());
        span.append(e.as_str());
        span.append("</span>");
        out.append(span.as_str());
        proof {
            assert(str_views(tags@).take(i + 1).drop_last() =~= str_views(tags@).take(i as int));
            assert(str_views(tags@).take(i + 1).last() == str_views(tags@)[i as int]);
            assert(str_views(tags@)[i as int] == tags@[i as int]@);
            assert(span@ == tag_span_spec(str_views(tags@)[i as int]));
            assert(tags_html_spec(str_views(tags@).take(i + 1)) == out@);
        }
        i = i + 1;
    }
    proof {
        assert(str_views(tags@).take(tags@.len() as int) =~= str_views(tags@));
    }
    out
}

/// Post page template, chunks in emission order. Between consecutive chunks
/// stand, in order: escaped title, escaped summary, escaped joined tags,
/// escaped title, escaped summary, canonical URL, escaped title, escaped
/// summary, canonical URL, escaped title, escaped summary, base URL, date,
/// canonical URL, canonical URL, escaped title, date, rendered tag list,
/// slug, body, slug.
pub const POST_TPL_01: &'static str = "<!DOCTYPE html>\n<html lang=\"en\">\n<head>\n    <meta charset=\"UTF-8\">\n    <meta name=\"viewport\" content=\"width=device-width, initial-scale=1.0\">\n    <title>";

pub const POST_TPL_02: &'static str = " - Hex</title>\n    <meta name=\"description\" content=\"";

pub const POST_TPL_03: &'static str =
    "\">\n    <meta name=\"author\" content=\"Vladyslav 'Hex' Yamkovyi\">\n    <meta name=\"keywords\" content=\"";

pub const POST_TPL_04: &'static str =
    "\">\n    \n    <!-- Open Graph -->\n    <meta property=\"og:title\" content=\"";

pub const POST_TPL_05: &'static str = " - Hex\">\n    <meta property=\"og:description\" content=\"";

pub const POST_TPL_06: &'static str =
    "\">\n    <meta property=\"og:type\" content=\"article\">\n    <meta property=\"og:url\" content=\"";

pub const POST_TPL_07: &'static str =
    "\">\n    <meta property=\"og:site_name\" content=\"Hex's Blog\">\n    \n    <!-- Twitter Card -->\n    <meta name=\"twitter:card\" content=\"summary\">\n    <meta name=\"twitter:title\" content=\"";

pub const POST_TPL_08: &'static str =
    " - Hex\">\n    <meta name=\"twitter:description\" content=\"";

pub const POST_TPL_09: &'static str =
    "\">\n    \n    <!-- Canonical URL -->\n    <link rel=\"canonical\" href=\"";

pub const POST_TPL_10: &'static str =
    "\">\n    \n    <!-- Structured Data -->\n    <script type=\"application/ld+json\">\n    {\n        \"@context\": \"https://schema.org\",\n        \"@type\": \"BlogPosting\",\n        \"headline\": \"";

pub const POST_TPL_11: &'static str = "\",\n        \"description\": \"";

pub const POST_TPL_12: &'static str =
    "\",\n        \"author\": {\n            \"@type\": \"Person\",\n            \"name\": \"Vladyslav 'Hex' Yamkovyi\",\n            \"url\": \"";

pub const POST_TPL_13: &'static str = "\"\n        },\n        \"datePublished\": \"";

pub const POST_TPL_14: &'static str = "\",\n        \"url\": \"";

pub const POST_TPL_15: &'static str =
    "\",\n        \"mainEntityOfPage\": {\n            \"@type\": \"WebPage\",\n            \"@id\": \"";

pub const POST_TPL_16: &'static str =
    "\"\n        }\n    }\n    </script>\n\n    <link rel=\"stylesheet\" href=\"/style.css\">\n\n    <style>\n        body { padding: 20px; }\n        .redirect-notice { \n            background: #e7f3ff; \n            border: 1px solid #b3d9ff; \n            padding: 15px; \n            margin: 20px 0; \n            border-radius: 4px; \n        }\n    </style>\n</head>\n<body>\n    <article>\n        <h1>";

pub const POST_TPL_17: &'static str =
    "</h1>\n        <div class=\"post-meta\">\n            <span class=\"date\">";

pub const POST_TPL_18: &'static str =
    "</span>\n            <span class=\"author\">by Hex</span>\n        </div>\n        <div class=\"tags\">";

pub const POST_TPL_19: &'static str =
    "</div>\n        \n        <div class=\"redirect-notice\">\n            <strong>Note:</strong> This is a static version for search engines. \n            <a href=\"/blog/";

pub const POST_TPL_20: &'static str =
    "\">View the interactive version</a> for the full experience.\n        </div>\n        \n        <div class=\"content\">\n            ";

pub const POST_TPL_21: &'static str =
    "\n        </div>\n    </article>\n    \n    <script>\n        // Redirect browsers to the WASM app, but let crawlers see the content\n        if (window.navigator && window.navigator.userAgent && \n            window.navigator.userAgent.indexOf('bot') === -1 && \n            window.navigator.userAgent.indexOf('crawler') === -1 &&\n            window.navigator.userAgent.indexOf('spider') === -1 &&\n            window.navigator.userAgent.indexOf('crawl') === -1) {\n            // Small delay to ensure crawlers can see the content\n            setTimeout(function() {\n                window.location.replace('/blog/";

pub const POST_TPL_22: &'static str =
    "');\n            }, 100);\n        }\n    </script>\n</body>\n</html>";

/// The whole static document of one post: metadata positions hold the
/// escaped title and summary, the tag list holds escaped tag text, and the
/// body HTML is inserted verbatim.
pub open spec fn post_page_spec(
    slug: Seq<char>,
    title: Seq<char>,
    date: Seq<char>,
    summary: Seq<char>,
    body: Seq<char>,
    tags: Seq<Seq<char>>,
    base: Seq<char>,
) -> Seq<char> {
    POST_TPL_01@ + html_escape_seq(title) + POST_TPL_02@ + html_escape_seq(summary) + POST_TPL_03@
        + html_escape_seq(join_spec(tags, ", "@)) + POST_TPL_04@ + html_escape_seq(title)
        + POST_TPL_05@ + html_escape_seq(summary) + POST_TPL_06@ + canonical_url_spec(base, slug)
        + POST_TPL_07@ + html_escape_seq(title) + POST_TPL_08@ + html_escape_seq(summary)
        + POST_TPL_09@ + canonical_url_spec(base, slug) + POST_TPL_10@ + html_escape_seq(title)
        + POST_TPL_11@ + html_escape_seq(summary) + POST_TPL_12@ + base + POST_TPL_13@ + date
        + POST_TPL_14@ + canonical_url_spec(base, slug) + POST_TPL_15@ + canonical_url_spec(
        base,
        slug,
    ) + POST_TPL_16@ + html_escape_seq(title) + POST_TPL_17@ + date + POST_TPL_18@
        + tags_html_spec(tags) + POST_TPL_19@ + slug + POST_TPL_20@ + body + POST_TPL_21@ + slug
        + POST_TPL_22@
}

/// Emits the static document of one post record; fails naming the field when
/// the record lacks one of slug, title, date, summary, body or tags in the
/// expected shape.
pub fn generate_html_file(post: &PostData, base_url: &str) -> (r: Result<String, EmitError>)
    ensures
        match r {
            Ok(s) => scalar_field(post@, "slug"@) matches Some(slug) && scalar_field(
                post@,
                "title"@,
            ) matches Some(title) && scalar_field(post@, "date"@) matches Some(date)
                && scalar_field(post@, "summary"@) matches Some(summary) && scalar_field(
                post@,
                "body"@,
            ) matches Some(body) && list_field(post@, "tags"@) matches Some(tags) && s@
                == post_page_spec(slug, title, date, summary, body, tags, base_url@),
            Err(e) => e matches EmitError::BadField { field } && ((field@ == "slug"@
                && scalar_field(post@, "slug"@) is None) || (field@ == "title"@ && scalar_field(
                post@,
                "title"@,
            ) is None) || (field@ == "date"@ && scalar_field(post@, "date"@) is None) || (field@
                == "summary"@ && scalar_field(post@, "summary"@) is None) || (field@ == "body"@
                && scalar_field(post@, "body"@) is None) || (field@ == "tags"@ && list_field(
                post@,
                "tags"@,
            ) is None)),
        },
{
    let slug = match get_scalar(post, "slug") {
        Ok(s) => s,
        Err(e) => { return Err(e) },
    };
    let title = match get_scalar(post, "title") {
        Ok(s) => s,
        Err(e) => { return Err(e) },
    };
    let date = match get_scalar(post, "date") {
        Ok(s) => s,
        Err(e) => { return Err(e) },
    };
    let summary = match get_scalar(post, "summary") {
        Ok(s) => s,
        Err(e) => { return Err(e) },
    };
    let body = match get_scalar(post, "body") {
        Ok(s) => s,
        Err(e) => { return Err(e) },
    };
    let tags = match get_list(post, "tags") {
        Ok(v) => v,
        Err(e) => { return Err(e) },
    };
    let et = html_escape(title.as_str());
    let es = html_escape(summary.as_str());
    let joined_tags = join_strings(tags, ", ");
    let ek = html_escape(joined_tags.as_str());
    let canon = canonical_url(base_url, slug.as_str());
    let spans = render_tags(tags);
    let mut out = String::from_str(POST_TPL_01);
    out.append(et.as_str());
    out.append(POST_TPL_02);
    out.append(es.as_str());
    out.append(POST_TPL_03);
    out.append(ek.as_str());
    out.append(POST_TPL_04);
    out.append(et.as_str());
    out.append(POST_TPL_05);
    out.append(es.as_str());
    out.append(POST_TPL_06);
    out.append(canon.as_str());
    out.append(POST_TPL_07);
    out.append(et.as_str());
    out.append(POST_TPL_08);
    out.append(es.as_str());
    out.append(POST_TPL_09);
    out.append(canon.as_str());
    out.append(POST_TPL_10);
    out.append(et.as_str());
    out.append(POST_TPL_11);
    out.append(es.as_str());
    out.append(POST_TPL_12);
    out.append(base_url);
    out.append(POST_TPL_13);
    out.append(date.as_str());
    out.append(POST_TPL_14);
    out.append(canon.as_str());
    out.append(POST_TPL_15);
    out.append(canon.as_str());
    out.append(POST_TPL_16);
    out.append(et.as_str());
    out.append(POST_TPL_17);
    out.append(date.as_str());
    out.append(POST_TPL_18);
    out.append(spans.as_str());
    out.append(POST_TPL_19);
    out.append(slug.as_str());
    out.append(POST_TPL_20);
    out.append(body.as_str());
    out.append(POST_TPL_21);
    out.append(slug.as_str());
    out.append(POST_TPL_22);
    Ok(out)
}

/// Blog index card template, chunks in emission order. Between consecutive
/// chunks stand, in order: slug, escaped title, date, escaped summary,
/// rendered tag list.
pub const CARD_TPL_01: &'static str =
    "\n        <article class=\"card\">\n            <h2><a href=\"/blog/";

pub const CARD_TPL_02: &'static str = "\">";

pub const CARD_TPL_03: &'static str = "</a></h2>\n            <p class=\"date\">";

pub const CARD_TPL_04: &'static str = "</p>\n            <p class=\"summary\">";

pub const CARD_TPL_05: &'static str = "</p>\n            <div class=\"tags\">";

pub const CARD_TPL_06: &'static str = "</div>\n        </article>";

/// One blog index card.
pub open spec fn card_spec(
    slug: Seq<char>,
    title: Seq<char>,
    date: Seq<char>,
    summary: Seq<char>,
    tags: Seq<Seq<char>>,
) -> Seq<char> {
    CARD_TPL_01@ + slug + CARD_TPL_02@ + html_escape_seq(title) + CARD_TPL_03@ + date
        + CARD_TPL_04@ + html_escape_seq(summary) + CARD_TPL_05@ + tags_html_spec(tags)
        + CARD_TPL_06@
}

/// The card of one record on the blog index, or nothing when the record
/// lacks a field in the expected shape (such a record is skipped there).
pub open spec fn post_card_spec(m: Map<Seq<char>, PostValueView>) -> Seq<char> {
    if scalar_field(m, "slug"@) is Some && scalar_field(m, "title"@) is Some && scalar_field(
        m,
        "date"@,
    ) is Some && scalar_field(m, "summary"@) is Some && list_field(m, "tags"@) is Some {
        card_spec(
            scalar_field(m, "slug"@)->Some_0,
            scalar_field(m, "title"@)->Some_0,
            scalar_field(m, "date"@)->Some_0,
            scalar_field(m, "summary"@)->Some_0,
            list_field(m, "tags"@)->Some_0,
        )
    } else {
        Seq::empty()
    }
}

/// The cards of all records, in order.
pub open spec fn posts_html_spec(posts: Seq<Map<Seq<char>, PostValueView>>) -> Seq<char>
    decreases posts.len(),
{
    if posts.len() == 0 {
        Seq::empty()
    } else {
        posts_html_spec(posts.drop_last()) + post_card_spec(posts.last())
    }
}

/// Renders the blog index card of one record; a record lacking a field in
/// the expected shape yields nothing.
pub fn render_post_card(post: &PostData) -> (r: String)
    ensures
        r@ == post_card_spec(post@),
{
    let slug = match get_scalar(post, "slug") {
        Ok(s) => s,
        Err(_) => { return String::new() },
    };
    let title = match get_scalar(post, "title") {
        Ok(s) => s,
        Err(_) => { return String::new() },
    };
    let date = match get_scalar(post, "date") {
        Ok(s) => s,
        Err(_) => { return String::new() },
    };
    let summary = match get_scalar(post, "summary") {
        Ok(s) => s,
        Err(_) => { return String::new() },
    };
    let tags = match get_list(post, "tags") {
        Ok(v) => v,
        Err(_) => { return String::new() },
    };
    let et = html_escape(title.as_str());
    let es = html_escape(summary.as_str());
    let spans = render_tags(tags);
    let mut out = String::from_str(CARD_TPL_01);
    out.append(slug.as_str());
    out.append(CARD_TPL_02);
    out.append(et.as_str());
    out.append(CARD_TPL_03);
    out.append(date.as_str());
    out.append(CARD_TPL_04);
    out.append(es.as_str());
    out.append(CARD_TPL_05);
    out.append(spans.as_str());
    out.append(CARD_TPL_06);
    out
}

/// Blog index page template, chunks in emission order. Between consecutive
/// chunks stand, in order: base URL, base URL, the rendered cards.
pub const INDEX_TPL_01: &'static str =
    "<!DOCTYPE html>\n<html lang=\"en\">\n<head>\n    <meta charset=\"UTF-8\">\n    <meta name=\"viewport\" content=\"width=device-width, initial-scale=1.0\">\n    <title>Blog - Hex</title>\n    <meta name=\"description\" content=\"Blog posts by Hex, covering Rust, emerging web standard like WebAssembly, cybersecurity and other technology topics.\">\n    <meta name=\"author\" content=\"Vladyslav 'Hex' Yamkovyi\">\n    <meta name=\"keywords\" content=\"blog, rust, webassembly, cybersecurity, technology, hex\">\n    \n    <!-- Open Graph -->\n    <meta property=\"og:title\" content=\"Blog - Hex\">\n    <meta property=\"og:description\" content=\"Blog posts by Hex, covering Rust, emerging web standard like WebAssembly, cybersecurity and other technology topics.\">\n    <meta property=\"og:type\" content=\"website\">\n    <meta property=\"og:url\" content=\"";

pub const INDEX_TPL_02: &'static str =
    "/blog\">\n    <meta property=\"og:site_name\" content=\"Hex's Blog\">\n    \n    <!-- Twitter Card -->\n    <meta name=\"twitter:card\" content=\"summary\">\n    <meta name=\"twitter:title\" content=\"Blog - Hex\">\n    <meta name=\"twitter:description\" content=\"Blog posts by Hex, covering Rust, emerging web standard like WebAssembly, cybersecurity and other technology topics.\">\n    \n    <!-- Canonical URL -->\n    <link rel=\"canonical\" href=\"";

pub const INDEX_TPL_03: &'static str =
    "/blog\">\n    \n    <link rel=\"stylesheet\" href=\"/style.css\">\n    \n    <style>\n        body { padding: 20px; }\n        .redirect-notice { \n            background: #e7f3ff; \n            border: 1px solid #b3d9ff; \n            padding: 15px; \n            margin: 20px 0; \n            border-radius: 4px; \n        }\n        .card { \n            margin: 20px 0; \n            padding: 20px; \n            border: 1px solid #ddd; \n            border-radius: 8px; \n        }\n        .tags { margin-top: 10px; }\n        .tag { \n            background: #f0f0f0; \n            padding: 2px 8px; \n            border-radius: 4px; \n            margin-right: 5px; \n            font-size: 0.8em; \n        }\n    </style>\n</head>\n<body>\n    <main>\n        <div class=\"blog-header\">\n            <h1>Blog</h1>\n        </div>\n        \n        <div class=\"redirect-notice\">\n            <strong>Note:</strong> This is a static version for search engines. \n            <a href=\"/blog\">View the interactive version</a> for the full experience.\n        </div>\n        \n        ";

pub const INDEX_TPL_04: &'static str =
    "\n    </main>\n    \n    <script>\n        // Redirect browsers to the WASM app, but let crawlers see the content\n        if (window.navigator && window.navigator.userAgent && \n            window.navigator.userAgent.indexOf('bot') === -1 && \n            window.navigator.userAgent.indexOf('crawler') === -1 &&\n            window.navigator.userAgent.indexOf('spider') === -1 &&\n            window.navigator.userAgent.indexOf('crawl') === -1) {\n            // Small delay to ensure crawlers can see the content\n            setTimeout(function() {\n                window.location.replace('/blog');\n            }, 100);\n        }\n    </script>\n</body>\n</html>";

/// The whole blog index document: one card per record in order, records
/// lacking a field skipped.
pub open spec fn blog_index_spec(posts: Seq<Map<Seq<char>, PostValueView>>, base: Seq<char>) -> Seq<
    char,
> {
    INDEX_TPL_01@ + base + INDEX_TPL_02@ + base + INDEX_TPL_03@ + posts_html_spec(posts)
        + INDEX_TPL_04@
}

/// Emits the blog index document listing every post.
pub fn generate_blog_index_html(posts: &Vec<PostData>, base_url: &str) -> (r: String)
    ensures
        r@ == blog_index_spec(record_views(posts@), base_url@),
{
    let ghost ms = record_views(posts@);
    let mut cards = String::new();
    let mut i: usize = 0;
    while i < posts.len()
        invariant
            i <= posts@.len(),
            ms == record_views(posts@),
            cards@ == posts_html_spec(ms.take(i as int)),
        decreases posts@.len() - i,
    {
        let card = render_post_card(&posts[i]);
        cards.append(card.as_str());
        proof {
            assert(ms.take(i + 1).drop_last() =~= ms.take(i as int));
            assert(ms.take(i + 1).last() == ms[i as int]);
            assert(ms[i as int] == posts@[i as int]@);
        }
        i = i + 1;
    }
    proof {
        assert(ms.take(posts@.len() as int) =~= ms);
    }
    let mut out = String::from_str(INDEX_TPL_01);
    out.append(base_url);
    out.append(INDEX_TPL_02);
    out.append(base_url);
    out.append(INDEX_TPL_03);
    out.append(cards.as_str());
    out.append(INDEX_TPL_04);
    out
}

/// Root entry page template, chunks in emission order. Between consecutive
/// chunks stand, in order, the escaped root-record fields title, description,
/// keywords, author, the five Open-Graph fields, the three Twitter-card
/// fields and the canonical URL, then the base URL, the rendered body and
/// the blog section.
pub const ROOT_TPL_01: &'static str =
    "<!DOCTYPE html>\n<html lang=\"en\">\n<head>\n    <meta charset=\"UTF-8\" />\n    <meta name=\"viewport\" content=\"width=device-width, initial-scale=1.0\" />\n    <title>";

pub const ROOT_TPL_02: &'static str = "</title>\n    <meta name=\"description\" content=\"";

pub const ROOT_TPL_03: &'static str = "\" />\n    <meta name=\"keywords\" content=\"";

pub const ROOT_TPL_04: &'static str = "\" />\n    <meta name=\"author\" content=\"";

pub const ROOT_TPL_05: &'static str =
    "\" />\n    \n    <!-- Open Graph -->\n    <meta property=\"og:title\" content=\"";

pub const ROOT_TPL_06: &'static str = "\" />\n    <meta property=\"og:description\" content=\"";

pub const ROOT_TPL_07: &'static str = "\" />\n    <meta property=\"og:type\" content=\"";

pub const ROOT_TPL_08: &'static str = "\" />\n    <meta property=\"og:url\" content=\"";

pub const ROOT_TPL_09: &'static str = "\" />\n    <meta property=\"og:site_name\" content=\"";

pub const ROOT_TPL_10: &'static str =
    "\" />\n    \n    <!-- Twitter Card -->\n    <meta name=\"twitter:card\" content=\"";

pub const ROOT_TPL_11: &'static str = "\" />\n    <meta name=\"twitter:title\" content=\"";

pub const ROOT_TPL_12: &'static str = "\" />\n    <meta name=\"twitter:description\" content=\"";

pub const ROOT_TPL_13: &'static str =
    "\" />\n    \n    <!-- Sitemap -->\n    <link rel=\"sitemap\" type=\"application/xml\" title=\"Sitemap\" href=\"/sitemap.xml\" />\n    \n    <!-- Canonical URL -->\n    <link rel=\"canonical\" href=\"";

pub const ROOT_TPL_14: &'static str =
    "\" />\n    \n    <!-- Structured Data -->\n    <script type=\"application/ld+json\">\n    {\n        \"@context\": \"https://schema.org\",\n        \"@type\": \"Person\",\n        \"name\": \"Vladyslav Yamkovyi\",\n        \"alternateName\": \"Hex\",\n        \"jobTitle\": \"Chief Technology Officer\",\n        \"worksFor\": {\n            \"@type\": \"Organization\",\n            \"name\": \"aleph0 s.r.o.\"\n        },\n        \"url\": \"";

pub const ROOT_TPL_15: &'static str =
    "\",\n        \"sameAs\": [\n            \"https://github.com/0x484558\",\n            \"https://www.linkedin.com/in/0x484558\"\n        ],\n        \"knowsAbout\": [\n            \"Rust Programming\",\n            \"WebAssembly\",\n            \"Cybersecurity\",\n            \"Systems Architecture\",\n            \"AI Infrastructure\"\n        ]\n    }\n    </script>\n    \n    <link rel=\"stylesheet\" href=\"https://cdn.jsdelivr.net/npm/@picocss/pico@2/css/pico.classless.violet.min.css\"/>\n    <link data-trunk rel=\"rust\" data-wasm-opt=\"z\" data-weak-refs />\n    <link data-trunk rel=\"css\" href=\"style.css\"/>\n    <link data-trunk rel=\"copy-file\" href=\"404.html\"/>\n    <link data-trunk rel=\"copy-file\" href=\"target/sitemap.xml\"/>\n    <link data-trunk rel=\"copy-file\" href=\"target/robots.txt\"/>\n    <link data-trunk rel=\"copy-dir\" href=\"target/blog\" data-target-path=\"blog\"/>\n</head>\n<body>\n    <noscript>\n    ";

pub const ROOT_TPL_16: &'static str = "\n    ";

pub const ROOT_TPL_17: &'static str =
    "\n    </noscript>\n    <script>\n    </script>\n</body>\n</html>";

/// The fixed blog section and footer of the root entry page.
pub const ROOT_BLOG_SECTION: &'static str =
    "\n    <section>\n        <h2>Blog</h2>\n        <p>I write about technology, security, and engineering philosophy. <a href=\"/blog\">Read my blog posts</a> covering topics from WebAssembly to cybersecurity fundamentals.</p>\n    </section>\n    \n    <footer>\n        <p><a href=\"https://github.com/0x484558\">GitHub</a> | <a href=\"/blog\">Blog</a> | <a href=\"/about\">About</a></p>\n    </footer>";

/// The whole root entry document: every metadata position holds the escaped
/// root-record field, the rendered body is inserted verbatim, and no
/// redirect notice appears.
pub open spec fn root_page_spec(
    title: Seq<char>,
    description: Seq<char>,
    keywords: Seq<char>,
    author: Seq<char>,
    og_title: Seq<char>,
    og_description: Seq<char>,
    og_type: Seq<char>,
    og_url: Seq<char>,
    og_site_name: Seq<char>,
    twitter_card: Seq<char>,
    twitter_title: Seq<char>,
    twitter_description: Seq<char>,
    canonical: Seq<char>,
    body: Seq<char>,
    base: Seq<char>,
) -> Seq<char> {
    ROOT_TPL_01@ + html_escape_seq(title) + ROOT_TPL_02@ + html_escape_seq(description)
        + ROOT_TPL_03@ + html_escape_seq(keywords) + ROOT_TPL_04@ + html_escape_seq(author)
        + ROOT_TPL_05@ + html_escape_seq(og_title) + ROOT_TPL_06@ + html_escape_seq(og_description)
        + ROOT_TPL_07@ + html_escape_seq(og_type) + ROOT_TPL_08@ + html_escape_seq(og_url)
        + ROOT_TPL_09@ + html_escape_seq(og_site_name) + ROOT_TPL_10@ + html_escape_seq(
        twitter_card,
    ) + ROOT_TPL_11@ + html_escape_seq(twitter_title) + ROOT_TPL_12@ + html_escape_seq(
        twitter_description,
    ) + ROOT_TPL_13@ + html_escape_seq(canonical) + ROOT_TPL_14@ + base + ROOT_TPL_15@ + body
        + ROOT_TPL_16@ + ROOT_BLOG_SECTION@ + ROOT_TPL_17@
}

/// Emits the root entry document from the root record; fails naming the
/// field when the record lacks one of its declared scalars.
pub fn generate_index_html(about: &PostData, base_url: &str) -> (r: Result<String, EmitError>)
    ensures
        match r {
            Ok(s) => scalar_field(about@, "title"@) matches Some(title) && scalar_field(
                about@,
                "description"@,
            ) matches Some(description) && scalar_field(about@, "keywords"@) matches Some(keywords)
                && scalar_field(about@, "author"@) matches Some(author) && scalar_field(
                about@,
                "og_title"@,
            ) matches Some(og_title) && scalar_field(about@, "og_description"@) matches Some(
                og_description,
            ) && scalar_field(about@, "og_type"@) matches Some(og_type) && scalar_field(
                about@,
                "og_url"@,
            ) matches Some(og_url) && scalar_field(about@, "og_site_name"@) matches Some(
                og_site_name,
            ) && scalar_field(about@, "twitter_card"@) matches Some(twitter_card) && scalar_field(
                about@,
                "twitter_title"@,
            ) matches Some(twitter_title) && scalar_field(about@, "twitter_description"@)
                matches Some(twitter_description) && scalar_field(about@, "canonical_url"@)
                matches Some(canonical) && scalar_field(about@, "body"@) matches Some(body) && s@
                == root_page_spec(
                title,
                description,
                keywords,
                author,
                og_title,
                og_description,
                og_type,
                og_url,
                og_site_name,
                twitter_card,
                twitter_title,
                twitter_description,
                canonical,
                body,
                base_url@,
            ),
            Err(e) => e matches EmitError::BadField { field } && ((field@ == "title"@
                && scalar_field(about@, "title"@) is None) || (field@ == "description"@
                && scalar_field(about@, "description"@) is None) || (field@ == "keywords"@
                && scalar_field(about@, "keywords"@) is None) || (field@ == "author"@
                && scalar_field(about@, "author"@) is None) || (field@ == "og_title"@
                && scalar_field(about@, "og_title"@) is None) || (field@ == "og_description"@
                && scalar_field(about@, "og_description"@) is None) || (field@ == "og_type"@
                && scalar_field(about@, "og_type"@) is None) || (field@ == "og_url"@
                && scalar_field(about@, "og_url"@) is None) || (field@ == "og_site_name"@
                && scalar_field(about@, "og_site_name"@) is None) || (field@ == "twitter_card"@
                && scalar_field(about@, "twitter_card"@) is None) || (field@ == "twitter_title"@
                && scalar_field(about@, "twitter_title"@) is None) || (field@
                == "twitter_description"@ && scalar_field(about@, "twitter_description"@) is None)
                || (field@ == "canonical_url"@ && scalar_field(about@, "canonical_url"@) is None)
                || (field@ == "body"@ && scalar_field(about@, "body"@) is None)),
        },
{
    let title = match get_scalar(about, "title") {
        Ok(s) => s,
        Err(e) => { return Err(e) },
    };
    let description = match get_scalar(about, "description") {
        Ok(s) => s,
        Err(e) => { return Err(e) },
    };
    let keywords = match get_scalar(about, "keywords") {
        Ok(s) => s,
        Err(e) => { return Err(e) },
    };
    let author = match get_scalar(about, "author") {
        Ok(s) => s,
        Err(e) => { return Err(e) },
    };
    let og_title = match get_scalar(about, "og_title") {
        Ok(s) => s,
        Err(e) => { return Err(e) },
    };
    let og_description = match get_scalar(about, "og_description") {
        Ok(s) => s,
        Err(e) => { return Err(e) },
    };
    let og_type = match get_scalar(about, "og_type") {
        Ok(s) => s,
        Err(e) => { return Err(e) },
    };
    let og_url = match get_scalar(about, "og_url") {
        Ok(s) => s,
        Err(e) => { return Err(e) },
    };
    let og_site_name = match get_scalar(about, "og_site_name") {
        Ok(s) => s,
        Err(e) => { return Err(e) },
    };
    let twitter_card = match get_scalar(about, "twitter_card") {
        Ok(s) => s,
        Err(e) => { return Err(e) },
    };
    let twitter_title = match get_scalar(about, "twitter_title") {
        Ok(s) => s,
        Err(e) => { return Err(e) },
    };
    let twitter_description = match get_scalar(about, "twitter_description") {
        Ok(s) => s,
        Err(e) => { return Err(e) },
    };
    let canonical = match get_scalar(about, "canonical_url") {
        Ok(s) => s,
        Err(e) => { return Err(e) },
    };
    let body = match get_scalar(about, "body") {
        Ok(s) => s,
        Err(e) => { return Err(e) },
    };
    let mut out = String::from_str(ROOT_TPL_01);
    let e1 = html_escape(title.as_str());
    out.append(e1.as_str());
    out.append(ROOT_TPL_02);
    let e2 = html_escape(description.as_str());
    out.append(e2.as_str());
    out.append(ROOT_TPL_03);
    let e3 = html_escape(keywords.as_str());
    out.append(e3.as_str());
    out.append(ROOT_TPL_04);
    let e4 = html_escape(author.as_str());
    out.append(e4.as_str());
    out.append(ROOT_TPL_05);
    let e5 = html_escape(og_title.as_str());
    out.append(e5.as_str());
    out.append(ROOT_TPL_06);
    let e6 = html_escape(og_description.as_str());
    out.append(e6.as_str());
    out.append(ROOT_TPL_07);
    let e7 = html_escape(og_type.as_str());
    out.append(e7.as_str());
    out.append(ROOT_TPL_08);
    let e8 = html_escape(og_url.as_str());
    out.append(e8.as_str());
    out.append(ROOT_TPL_09);
    let e9 = html_escape(og_site_name.as_str());
    out.append(e9.as_str());
    out.append(ROOT_TPL_10);
    let e10 = html_escape(twitter_card.as_str());
    out.append(e10.as_str());
    out.append(ROOT_TPL_11);
    let e11 = html_escape(twitter_title.as_str());
    out.append(e11.as_str());
    out.append(ROOT_TPL_12);
    let e12 = html_escape(twitter_description.as_str());
    out.append(e12.as_str());
    out.append(ROOT_TPL_13);
    let e13 = html_escape(canonical.as_str());
    out.append(e13.as_str());
    out.append(ROOT_TPL_14);
    out.append(base_url);
    out.append(ROOT_TPL_15);
    out.append(body.as_str());
    out.append(ROOT_TPL_16);
    out.append(ROOT_BLOG_SECTION);
    out.append(ROOT_TPL_17);
    Ok(out)
}

} // verus!
