//! Declarative record schemas.
//!
//! A `StructDef` describes, as data, which named fields a generated record
//! type exposes and of which kind each is. The code generator emits a type
//! declaration from the schema and literal instances from records, without
//! special-casing any field name.

use vstd::prelude::*;
use crate::strutil::{join_spec, join_strings, str_views, lemma_str_views_push};
use vstd::string::{StrSliceExecFns, StringExecFns};

verus! {

/// The kind of value a generated record field holds.
#[derive(Clone, Copy, PartialEq, Eq, Structural, Debug)]
pub enum FieldType {
    StaticStr,
    StaticStrSlice,
}

/// The generated source type of a field of the given kind.
pub open spec fn rust_type_spec(t: FieldType) -> Seq<char> {
    match t {
        FieldType::StaticStr => "&'static str"@,
        FieldType::StaticStrSlice => "&'static [&'static str]"@,
    }
}

/// One field of a declarative record schema.
pub struct FieldDef {
    pub name: String,
    pub field_type: FieldType,
    pub doc: Option<String>,
}

/// The mathematical shape of a `FieldDef`.
pub struct FieldDefView {
    pub name: Seq<char>,
    pub field_type: FieldType,
    pub doc: Option<Seq<char>>,
}

impl View for FieldDef {
    type V = FieldDefView;

    open spec fn view(&self) -> FieldDefView {
        FieldDefView {
            name: self.name@,
            field_type: self.field_type,
            doc: match self.doc {
                Some(d) => Some(d@),
                None => None,
            },
        }
    }
}

/// The shapes of a sequence of schema fields.
pub open spec fn field_def_views(fields: Seq<FieldDef>) -> Seq<FieldDefView> {
    fields.map_values(|f: FieldDef| f@)
}

/// The generated declaration line of one schema field: an optional doc
/// comment line, then `    pub name: type,`.
pub open spec fn field_decl_spec(f: FieldDefView) -> Seq<char> {
    (match f.doc {
        Some(d) => "    /// "@ + d + "\n"@,
        None => Seq::<char>::empty(),
    }) + "    pub "@ + f.name + ": "@ + rust_type_spec(f.field_type) + ","@
}

impl FieldDef {
    /// A schema field without a doc comment.
    pub fn new(name: &str, field_type: FieldType) -> (r: Self)
        ensures
            r@ == (FieldDefView { name: name@, field_type, doc: None }),
    {
        FieldDef { name: name.to_owned(), field_type, doc: None }
    }

    /// The same field carrying a doc comment.
    pub fn with_doc(self, doc: &str) -> (r: Self)
        ensures
            r@ == (FieldDefView { doc: Some(doc@), ..self@ }),
    {
        FieldDef { name: self.name, field_type: self.field_type, doc: Some(doc.to_owned()) }
    }

    /// The generated source type of this field.
    pub fn rust_type(&self) -> (r: &'static str)
        ensures
            r@ == rust_type_spec(self.field_type),
    {
        match self.field_type {
            FieldType::StaticStr => "&'static str",
            FieldType::StaticStrSlice => "&'static [&'static str]",
        }
    }

    /// Emits this field's declaration line.
    pub fn generate_field_declaration(&self) -> (r: String)
        ensures
            r@ == field_decl_spec(self@),
    {
        let mut out: String;
        match &self.doc {
            Some(d) => {
                out = String::from_str("    /// ");
                out.append(d.as_str());
                out.append("\n");
                out.append("    pub ");
                proof {
                    assert(out@ == (("    /// "@ + d@ + "\n"@) + "    pub "@));
                }
            },
            None => {
                out = String::from_str("    pub ");
                proof {
                    assert(Seq::<char>::empty() + "    pub "@ =~= "    pub "@);
                }
            },
        }
        out.append(self.name.as_str());
        out.append(": ");
        out.append(self.rust_type());
        out.append(",");
        out
    }
}

/// A declarative record schema: a type name, derives, and ordered fields.
pub struct StructDef {
    pub name: String,
    pub derives: Vec<String>,
    pub fields: Vec<FieldDef>,
}

/// The mathematical shape of a `StructDef`.
pub struct StructDefView {
    pub name: Seq<char>,
    pub derives: Seq<Seq<char>>,
    pub fields: Seq<FieldDefView>,
}

impl View for StructDef {
    type V = StructDefView;

    open spec fn view(&self) -> StructDefView {
        StructDefView {
            name: self.name@,
            derives: str_views(self.derives@),
            fields: field_def_views(self.fields@),
        }
    }
}

/// The declaration lines of a sequence of schema fields.
pub open spec fn field_decls_spec(fields: Seq<FieldDefView>) -> Seq<Seq<char>> {
    fields.map_values(|f: FieldDefView| field_decl_spec(f))
}

/// `field_decls_spec` distributes over `push`.
pub proof fn lemma_field_decls_push(fields: Seq<FieldDefView>, f: FieldDefView)
    ensures
        field_decls_spec(fields.push(f)) == field_decls_spec(fields).push(field_decl_spec(f)),
{
    assert(field_decls_spec(fields.push(f)) =~= field_decls_spec(fields).push(field_decl_spec(f)));
}

/// The generated type declaration of a schema: the derive attribute, then one
/// declaration line per field.
pub open spec fn struct_def_spec(s: StructDefView) -> Seq<char> {
    "#[derive("@ + join_spec(s.derives, ", "@) + ")]\npub struct "@ + s.name + " {\n"@ + join_spec(
        field_decls_spec(s.fields),
        "\n"@,
    ) + "\n}"@
}

impl StructDef {
    /// A schema with the default derives and no fields yet.
    pub fn new(name: &str) -> (r: Self)
        ensures
            r@ == (StructDefView {
                name: name@,
                derives: seq!["Clone"@, "Debug"@, "PartialEq"@],
                fields: Seq::empty(),
            }),
    {
        let mut derives: Vec<String> = Vec::new();
        derives.push("Clone".to_owned());
        derives.push("Debug".to_owned());
        derives.push("PartialEq".to_owned());
        let fields: Vec<FieldDef> = Vec::new();
        proof {
            assert(str_views(derives@) =~= seq!["Clone"@, "Debug"@, "PartialEq"@]);
            assert(field_def_views(fields@) =~= Seq::<FieldDefView>::empty());
        }
        StructDef { name: name.to_owned(), derives, fields }
    }

    /// The schema extended by one field.
    pub fn add_field(self, field: FieldDef) -> (r: Self)
        ensures
            r@ == (StructDefView { fields: self@.fields.push(field@), ..self@ }),
    {
        let ghost prev = self.fields@;
        let mut fields = self.fields;
        fields.push(field);
        proof {
            assert(field_def_views(fields@) =~= field_def_views(prev).push(field@));
        }
        StructDef { name: self.name, derives: self.derives, fields }
    }

    /// The schema with its derives replaced.
    pub fn with_derives(self, derives: Vec<String>) -> (r: Self)
        ensures
            r@ == (StructDefView { derives: str_views(derives@), ..self@ }),
    {
        StructDef { name: self.name, derives, fields: self.fields }
    }

    /// Emits the schema's type declaration.
    pub fn generate_struct_definition(&self) -> (r: String)
        ensures
            r@ == struct_def_spec(self@),
    {
        let mut out = String::from_str("#[derive(");
        let dj = join_strings(&self.derives, ", ");
        out.append(dj.as_str());
        out.append(")]\npub struct ");
        out.append(self.name.as_str());
        out.append(" {\n");
        let mut decls: Vec<String> = Vec::new();
        let mut i: usize = 0;
        while i < self.fields.len()
            invariant
                i <= self.fields@.len(),
                str_views(decls@) == field_decls_spec(field_def_views(self.fields@).take(i as int)),
            decreases self.fields@.len() - i,
        {
            let d = self.fields[i].generate_field_declaration();
            let ghost prev = decls@;
            decls.push(d);
            proof {
                lemma_str_views_push(prev, d);
                lemma_field_decls_push(
                    field_def_views(self.fields@).take(i as int),
                    field_def_views(self.fields@)[i as int],
                );
                assert(field_def_views(self.fields@).take(i + 1) =~= field_def_views(
                    self.fields@,
                ).take(i as int).push(field_def_views(self.fields@)[i as int]));
                assert(field_def_views(self.fields@)[i as int] == self.fields@[i as int]@);
            }
            i = i + 1;
        }
        proof {
            assert(field_def_views(self.fields@).take(self.fields@.len() as int) =~= self@.fields);
        }
        let fj = join_strings(&decls, "\n");
        out.append(fj.as_str());
        out.append("\n}");
        out
    }
}

} // verus!
