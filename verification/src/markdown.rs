//! Markdown rendering.
//!
//! Body text is converted to HTML by the pulldown-cmark crate behind trusted
//! wrappers, under a configurable extension set. Ordinary posts use a
//! minimal set (strikethrough only); the root document uses the full set.
//! One wrapper stands for each of the two configurations the pipeline uses;
//! both rely on the same renderer and speak of the same named result.

use vstd::prelude::*;
use pulldown_cmark::{html, Options, Parser};

verus! {

/// The Markdown extension configuration the renderer runs under.
#[derive(Clone, Copy, PartialEq, Eq, Structural, Debug)]
pub struct MarkdownOptions {
    pub strikethrough: bool,
    pub tables: bool,
    pub footnotes: bool,
    pub tasklists: bool,
    pub smart_punctuation: bool,
    pub heading_attributes: bool,
}

/// The extension set ordinary posts are rendered under.
pub open spec fn post_extensions() -> MarkdownOptions {
    MarkdownOptions {
        strikethrough: true,
        tables: false,
        footnotes: false,
        tasklists: false,
        smart_punctuation: false,
        heading_attributes: false,
    }
}

/// The extension set the root document is rendered under.
pub open spec fn root_extensions() -> MarkdownOptions {
    MarkdownOptions {
        strikethrough: true,
        tables: true,
        footnotes: true,
        tasklists: true,
        smart_punctuation: true,
        heading_attributes: true,
    }
}

/// The HTML that rendering a Markdown text under an extension set yields.
pub uninterp spec fn markdown_html_of(opts: MarkdownOptions, text: Seq<char>) -> Seq<char>;

/// Relies on pulldown-cmark's `Parser::new_ext` and `html::push_html`:
/// renders Markdown to HTML under the minimal extension set (strikethrough
/// only); the result depends on the extension set and the text alone.
#[verifier::external_body]
pub fn render_post_markdown(text: &str) -> (r: String)
    ensures
        r@ == markdown_html_of(post_extensions(), text@),
{
    let mut o = Options::empty();
    o.insert(Options::ENABLE_STRIKETHROUGH);
    let mut out = String::new();
    html::push_html(&mut out, Parser::new_ext(text, o));
    out
}

/// Relies on pulldown-cmark's `Parser::new_ext` and `html::push_html`:
/// renders Markdown to HTML under the full extension set; the result depends
/// on the extension set and the text alone.
#[verifier::external_body]
pub fn render_root_markdown(text: &str) -> (r: String)
    ensures
        r@ == markdown_html_of(root_extensions(), text@),
{
    let mut o = Options::empty();
    o.insert(Options::ENABLE_STRIKETHROUGH);
    o.insert(Options::ENABLE_TABLES);
    o.insert(Options::ENABLE_FOOTNOTES);
    o.insert(Options::ENABLE_TASKLISTS);
    o.insert(Options::ENABLE_SMART_PUNCTUATION);
    o.insert(Options::ENABLE_HEADING_ATTRIBUTES);
    let mut out = String::new();
    html::push_html(&mut out, Parser::new_ext(text, o));
    out
}

} // verus!
