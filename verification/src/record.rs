//! Assembled content records.
//!
//! A `PostData` is one uniform content record: named fields holding scalar
//! strings or string lists, looked up by name. The schema validator turns raw
//! front-matter pairs into the record's field values, substituting the
//! documented defaults for absent optional fields and rejecting wrong-typed
//! ones.

use vstd::prelude::*;
use crate::fields::{pairs_lookup, pairs_map, pairs_get, lemma_pairs_lookup_map,
    lemma_pairs_map_push};
use crate::frontmatter::{FieldVal, FieldValView};
use crate::strutil::{clone_string_vec, str_views};
use vstd::string::StrSliceExecFns;

verus! {

/// A record field value: a scalar string or a list of strings.
pub enum PostValue {
    Str(String),
    StrSlice(Vec<String>),
}

/// The mathematical shape of a `PostValue`.
pub enum PostValueView {
    Str(Seq<char>),
    StrSlice(Seq<Seq<char>>),
}

impl View for PostValue {
    type V = PostValueView;

    open spec fn view(&self) -> PostValueView {
        match self {
            PostValue::Str(s) => PostValueView::Str(s@),
            PostValue::StrSlice(v) => PostValueView::StrSlice(str_views(v@)),
        }
    }
}

/// One content record: named field values in insertion order. Its view is the
/// map from field names to field values.
pub struct PostData {
    pub values: Vec<(String, PostValue)>,
}

impl View for PostData {
    type V = Map<Seq<char>, PostValueView>;

    open spec fn view(&self) -> Map<Seq<char>, PostValueView> {
        pairs_map(self.values@)
    }
}

impl PostData {
    /// An empty record.
    pub fn new() -> (r: Self)
        ensures
            r@ == Map::<Seq<char>, PostValueView>::empty(),
            r.values@.len() == 0,
    {
        PostData { values: Vec::new() }
    }

    /// Adds a scalar field under a key the record does not hold yet.
    pub fn set_str(self, key: &str, value: String) -> (r: Self)
        requires
            !self@.contains_key(key@),
        ensures
            r@ == self@.insert(key@, PostValueView::Str(value@)),
    {
        let ghost old_values = self.values@;
        let mut values = self.values;
        let p = (key.to_owned(), PostValue::Str(value));
        proof {
            lemma_pairs_map_push(old_values, p);
        }
        values.push(p);
        PostData { values }
    }

    /// Adds a list field under a key the record does not hold yet.
    pub fn set_str_slice(self, key: &str, value: Vec<String>) -> (r: Self)
        requires
            !self@.contains_key(key@),
        ensures
            r@ == self@.insert(key@, PostValueView::StrSlice(str_views(value@))),
    {
        let ghost old_values = self.values@;
        let mut values = self.values;
        let p = (key.to_owned(), PostValue::StrSlice(value));
        proof {
            lemma_pairs_map_push(old_values, p);
        }
        values.push(p);
        PostData { values }
    }

    /// Finds the value of the named field.
    pub fn get<'a>(&'a self, name: &str) -> (r: Option<&'a PostValue>)
        ensures
            match r {
                Some(v) => self@.contains_key(name@) && v@ == self@[name@],
                None => !self@.contains_key(name@),
            },
    {
        proof {
            lemma_pairs_lookup_map(self.values@, name@);
        }
        pairs_get(&self.values, name)
    }
}

/// The field maps of a sequence of records.
pub open spec fn record_views(ds: Seq<PostData>) -> Seq<Map<Seq<char>, PostValueView>> {
    ds.map_values(|d: PostData| d@)
}

/// Why a content file's front matter fails validation.
#[derive(Debug)]
pub enum RecordError {
    /// The file holds no front-matter block, or the block is not well-formed
    /// YAML.
    NoFrontMatter,
    /// A required field is absent or a field holds a value of the wrong shape.
    BadField { field: String },
}

impl RecordError {
    /// A short description for build logs.
    pub fn message(&self) -> (r: String)
        ensures
            match self {
                RecordError::NoFrontMatter => r@ == "no front matter found"@,
                RecordError::BadField { field } => r@ == "missing or wrong-typed field: "@
                    + field@,
            },
    {
        match self {
            RecordError::NoFrontMatter => "no front matter found".to_owned(),
            RecordError::BadField { field } => {
                let mut out = String::from_str("missing or wrong-typed field: ");
                out.append(field.as_str());
                out
            },
        }
    }
}

/// Reads a required scalar field: any other shape, or absence, is an error.
pub fn required_string(fields: &Vec<(String, FieldVal)>, name: &str) -> (r: Result<
    String,
    RecordError,
>)
    ensures
        match r {
            Ok(s) => pairs_lookup(fields@, name@) == Some(FieldValView::Str(s@)),
            Err(e) => !(pairs_lookup(fields@, name@) matches Some(FieldValView::Str(_))) && (
            e matches RecordError::BadField { field } && field@ == name@),
        },
{
    match pairs_get(fields, name) {
        Some(FieldVal::Str(s)) => Ok(s.clone()),
        _ => Err(RecordError::BadField { field: name.to_owned() }),
    }
}

/// Reads an optional scalar field: absent or null yields the empty string;
/// a list or other shape is an error.
pub fn optional_string(fields: &Vec<(String, FieldVal)>, name: &str) -> (r: Result<
    String,
    RecordError,
>)
    ensures
        match r {
            Ok(s) => pairs_lookup(fields@, name@) == Some(FieldValView::Str(s@)) || ((
            pairs_lookup(fields@, name@) is None || pairs_lookup(fields@, name@) == Some(
                FieldValView::Null,
            )) && s@ == Seq::<char>::empty()),
            Err(e) => (pairs_lookup(fields@, name@) matches Some(FieldValView::List(_))
                || pairs_lookup(fields@, name@) == Some(FieldValView::Other)) && (
            e matches RecordError::BadField { field } && field@ == name@),
        },
{
    match pairs_get(fields, name) {
        Some(FieldVal::Str(s)) => Ok(s.clone()),
        Some(FieldVal::Null) => Ok(String::new()),
        None => Ok(String::new()),
        _ => Err(RecordError::BadField { field: name.to_owned() }),
    }
}

/// Reads an optional list field: absence yields the empty list; any scalar,
/// null or other shape is an error.
pub fn optional_list(fields: &Vec<(String, FieldVal)>, name: &str) -> (r: Result<
    Vec<String>,
    RecordError,
>)
    ensures
        match r {
            Ok(v) => pairs_lookup(fields@, name@) == Some(FieldValView::List(str_views(v@)))
                || (pairs_lookup(fields@, name@) is None && v@.len() == 0),
            Err(e) => !(pairs_lookup(fields@, name@) matches Some(FieldValView::List(_)))
                && pairs_lookup(fields@, name@) is Some && (e matches RecordError::BadField {
                field,
            } && field@ == name@),
        },
{
    match pairs_get(fields, name) {
        Some(FieldVal::List(v)) => {
            let out = clone_string_vec(v);
            proof {
                assert(str_views(out@) =~= str_views(v@));
            }
            Ok(out)
        },
        None => {
            let out: Vec<String> = Vec::new();
            Ok(out)
        },
        _ => Err(RecordError::BadField { field: name.to_owned() }),
    }
}

} // verus!
