//! Build-time content pipeline for a statically generated blog.
//!
//! The pipeline ingests Markdown documents with structured front-matter,
//! validates them into uniform content records, renders their bodies to HTML,
//! and emits two parallel artifact sets that must stay consistent: a typed
//! source-code table of all records, and a crawler-oriented static mirror
//! (per-post HTML pages, a blog index, a sitemap and a robots policy).

use vstd::prelude::*;

pub mod codegen;
pub mod escape;
pub mod fields;
pub mod frontmatter;
pub mod pages;
pub mod pipeline;
pub mod record;
pub mod schema;
pub mod sitemap;
pub mod markdown;
pub mod strutil;

verus! {

} // verus!
