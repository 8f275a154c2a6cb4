//! Front-matter extraction.
//!
//! A content file opens with a structured YAML metadata block between `---`
//! delimiters, followed by a Markdown body. Splitting the document and parsing
//! the block is delegated to the gray_matter crate behind one trusted wrapper;
//! everything downstream works on the plain field pairs it hands back.

use vstd::prelude::*;
use crate::fields::pairs_map;
use crate::strutil::str_views;
use gray_matter::engine::YAML;
use gray_matter::{Matter, ParsedEntity, Pod};

verus! {

/// A front-matter field value as the schema validator sees it: a scalar
/// string, a list of strings, an explicit null, or a value of another shape
/// (number, boolean, nested block), which no declared field accepts.
pub enum FieldVal {
    Str(String),
    List(Vec<String>),
    Null,
    Other,
}

/// The mathematical shape of a `FieldVal`.
pub enum FieldValView {
    Str(Seq<char>),
    List(Seq<Seq<char>>),
    Null,
    Other,
}

impl View for FieldVal {
    type V = FieldValView;

    open spec fn view(&self) -> FieldValView {
        match self {
            FieldVal::Str(s) => FieldValView::Str(s@),
            FieldVal::List(v) => FieldValView::List(str_views(v@)),
            FieldVal::Null => FieldValView::Null,
            FieldVal::Other => FieldValView::Other,
        }
    }
}

/// The field map that parsing a document's front-matter block yields: `None`
/// when the document has no such block or the block is not well-formed YAML,
/// otherwise the declared keys with their scalar or string-list values.
pub uninterp spec fn front_fields_of(text: Seq<char>) -> Option<Map<Seq<char>, FieldValView>>;

/// The body that remains of a document once its front-matter block is
/// stripped.
pub uninterp spec fn front_body_of(text: Seq<char>) -> Seq<char>;

/// Relies on gray_matter's `Matter::<YAML>::parse`: splits the document at the
/// `---` delimiters, parses the block as YAML, and returns the body with the
/// block stripped; the result depends on the document text alone, except for
/// the order of the returned pairs, which is why the contract speaks of the
/// map they denote.
#[verifier::external_body]
pub fn parse_front_matter(text: &str) -> (r: Option<(Vec<(String, FieldVal)>, String)>)
    ensures
        match r {
            Some(p) => front_fields_of(text@) is Some && pairs_map(p.0@) == front_fields_of(
                text@,
            )->Some_0 && p.1@ == front_body_of(text@),
            None => front_fields_of(text@) is None,
        },
{
    let parsed: ParsedEntity = Matter::<YAML>::new().parse(text).ok()?;
    let to_field = |v: Pod| match v {
        Pod::String(s) => FieldVal::Str(s),
        Pod::Null => FieldVal::Null,
        Pod::Array(a) => a.into_iter().map(|e| e.as_string().ok()).collect::<Option<Vec<String>>>().map_or(FieldVal::Other, FieldVal::List),
        _ => FieldVal::Other,
    };
    let h = parsed.data?.as_hashmap().ok().unwrap_or_default();
    let fields = h.into_iter().map(|(k, v)| (k, to_field(v))).collect();
    Some((fields, parsed.content))
}

} // verus!
