//! Schema-driven code generation.
//!
//! Turns record schemas plus assembled content records into literal source
//! text: one type declaration per schema and one constant table per record
//! set, every field value written as an escaped string literal. A record
//! lacking a value its schema declares is an internal-consistency failure and
//! aborts generation.

use vstd::prelude::*;
use crate::escape::{escape_seq, escape_rust_string};
use crate::record::{PostData, PostValue, PostValueView, record_views};
use crate::schema::{FieldDefView, StructDef, StructDefView, struct_def_spec};
use crate::strutil::{join_spec, join_strings, str_views, lemma_str_views_push};
use vstd::string::{StrSliceExecFns, StringExecFns};

verus! {

/// A fatal internal-consistency failure of the code generator.
#[derive(Debug)]
pub enum GenError {
    /// A record lacks a value for a field its schema declares.
    MissingField { struct_name: String, field: String },
    /// A static array names an element type no schema defines.
    UnknownElementType { element_type: String },
}

impl GenError {
    /// A short description for build logs.
    pub fn message(&self) -> (r: String)
        ensures
            match self {
                GenError::MissingField { struct_name, field } => r@ ==
                "record lacks a value for declared field: "@ + struct_name@ + "."@ + field@,
                GenError::UnknownElementType { element_type } => r@ ==
                "no struct definition for element type: "@ + element_type@,
            },
    {
        match self {
            GenError::MissingField { struct_name, field } => {
                let mut out = String::from_str("record lacks a value for declared field: ");
                out.append(struct_name.as_str());
                out.append(".");
                out.append(field.as_str());
                out
            },
            GenError::UnknownElementType { element_type } => {
                let mut out = String::from_str("no struct definition for element type: ");
                out.append(element_type.as_str());
                out
            },
        }
    }
}

/// The generated literal for one escaped, quoted string.
pub open spec fn quoted_spec(s: Seq<char>) -> Seq<char> {
    "\""@ + escape_seq(s) + "\""@
}

/// The quoted literals of a list of strings.
pub open spec fn quoted_views(vs: Seq<Seq<char>>) -> Seq<Seq<char>> {
    vs.map_values(|s: Seq<char>| quoted_spec(s))
}

/// `quoted_views` distributes over `push`.
pub proof fn lemma_quoted_views_push(vs: Seq<Seq<char>>, s: Seq<char>)
    ensures
        quoted_views(vs.push(s)) == quoted_views(vs).push(quoted_spec(s)),
{
    assert(quoted_views(vs.push(s)) =~= quoted_views(vs).push(quoted_spec(s)));
}

/// The generated literal for one record field value: a quoted literal for a
/// scalar, a slice of quoted literals for a list.
pub open spec fn value_literal_spec(v: PostValueView) -> Seq<char> {
    match v {
        PostValueView::Str(s) => quoted_spec(s),
        PostValueView::StrSlice(vs) => "&["@ + join_spec(quoted_views(vs), ", "@) + "]"@,
    }
}

/// Emits the literal for one record field value.
pub fn generate_value_literal(v: &PostValue) -> (r: String)
    ensures
        r@ == value_literal_spec(v@),
{
    match v {
        PostValue::Str(s) => {
            let mut out = String::from_str("\"");
            let e = escape_rust_string(s.as_str());
            out.append(e.as_str());
            out.append("\"");
            out
        },
        PostValue::StrSlice(vs) => {
            let mut items: Vec<String> = Vec::new();
            let mut i: usize = 0;
            while i < vs.len()
                invariant
                    i <= vs@.len(),
                    str_views(items@) == quoted_views(str_views(vs@).take(i as int)),
                decreases vs@.len() - i,
            {
                let mut q = String::from_str("\"");
                let e = escape_rust_string(vs[i].as_str());
                q.append(e.as_str());
                q.append("\"");
                let ghost prev = items@;
                items.push(q);
                proof {
                    lemma_str_views_push(prev, q);
                    lemma_quoted_views_push(
                        str_views(vs@).take(i as int),
                        str_views(vs@)[i as int],
                    );
                    assert(str_views(vs@).take(i + 1) =~= str_views(vs@).take(i as int).push(
                        str_views(vs@)[i as int],
                    ));
                    assert(str_views(vs@)[i as int] == vs@[i as int]@);
                }
                i = i + 1;
            }
            proof {
                assert(str_views(vs@).take(vs@.len() as int) =~= str_views(vs@));
            }
            let j = join_strings(&items, ", ");
            let mut out = String::from_str("&[");
            out.append(j.as_str());
            out.append("]");
            out
        },
    }
}

/// The generated line of one instance field: `        name: literal,`.
pub open spec fn instance_field_spec(name: Seq<char>, v: PostValueView) -> Seq<char> {
    "        "@ + name + ": "@ + value_literal_spec(v) + ","@
}

/// The generated lines for a record's fields under a schema, or `None` when
/// the record lacks a declared field.
pub open spec fn instance_lines_spec(
    m: Map<Seq<char>, PostValueView>,
    fields: Seq<FieldDefView>,
) -> Option<Seq<Seq<char>>>
    decreases fields.len(),
{
    if fields.len() == 0 {
        Some(Seq::empty())
    } else {
        match instance_lines_spec(m, fields.drop_last()) {
            Some(init) => if m.contains_key(fields.last().name) {
                Some(init.push(instance_field_spec(fields.last().name, m[fields.last().name])))
            } else {
                None
            },
            None => None,
        }
    }
}

/// The generated instance literal of a record under a schema, or `None` when
/// the record lacks a declared field.
pub open spec fn instance_spec(m: Map<Seq<char>, PostValueView>, sd: StructDefView) -> Option<
    Seq<char>,
> {
    match instance_lines_spec(m, sd.fields) {
        Some(lines) => Some("    "@ + sd.name + " {\n"@ + join_spec(lines, "\n"@) + "\n    }"@),
        None => None,
    }
}

/// A missing declared field makes the whole instance fail.
proof fn lemma_instance_lines_missing(
    m: Map<Seq<char>, PostValueView>,
    fields: Seq<FieldDefView>,
    j: int,
)
    requires
        0 <= j < fields.len(),
        !m.contains_key(fields[j].name),
    ensures
        instance_lines_spec(m, fields) is None,
    decreases fields.len(),
{
    if j == fields.len() - 1 {
    } else {
        assert(fields.drop_last()[j] == fields[j]);
        lemma_instance_lines_missing(m, fields.drop_last(), j);
    }
}

/// A record holding every declared field makes the instance succeed.
pub proof fn lemma_instance_lines_total(m: Map<Seq<char>, PostValueView>, fields: Seq<FieldDefView>)
    requires
        forall|j: int| 0 <= j < fields.len() ==> m.contains_key(#[trigger] fields[j].name),
    ensures
        instance_lines_spec(m, fields) is Some,
    decreases fields.len(),
{
    if fields.len() == 0 {
    } else {
        assert(forall|j: int|
            0 <= j < fields.drop_last().len() ==> fields.drop_last()[j] == fields[j]);
        lemma_instance_lines_total(m, fields.drop_last());
        assert(m.contains_key(fields[fields.len() - 1].name));
    }
}

/// Emits the instance literal of a record under a schema; fails when the
/// record lacks a value for a declared field.
pub fn generate_instance(d: &PostData, sd: &StructDef) -> (r: Result<String, GenError>)
    ensures
        match r {
            Ok(s) => instance_spec(d@, sd@) == Some(s@),
            Err(e) => instance_spec(d@, sd@) is None && (e matches GenError::MissingField {
                struct_name,
                field,
            } && struct_name@ == sd@.name && !d@.contains_key(field@) && exists|j: int|
                0 <= j < sd@.fields.len() && (#[trigger] sd@.fields[j].name) == field@),
        },
{
    let mut lines: Vec<String> = Vec::new();
    let mut i: usize = 0;
    while i < sd.fields.len()
        invariant
            i <= sd.fields@.len(),
            instance_lines_spec(d@, sd@.fields.take(i as int)) == Some(str_views(lines@)),
        decreases sd.fields@.len() - i,
    {
        let f = &sd.fields[i];
        proof {
            assert(sd@.fields[i as int] == sd.fields@[i as int]@);
        }
        match d.get(f.name.as_str()) {
            Some(v) => {
                let mut line = String::from_str("        ");
                line.append(f.name.as_str());
                line.append(": ");
                let lit = generate_value_literal(v);
                line.append(lit.as_str());
                line.append(",");
                let ghost prev = lines@;
                lines.push(line);
                proof {
                    lemma_str_views_push(prev, line);
                    assert(sd@.fields.take(i + 1).drop_last() =~= sd@.fields.take(i as int));
                    assert(sd@.fields.take(i + 1).last() == sd@.fields[i as int]);
                    assert(line@ == instance_field_spec(f.name@, d@[f.name@]));
                    assert(instance_lines_spec(d@, sd@.fields.take(i + 1)) == Some(
                        str_views(lines@),
                    ));
                }
                i = i + 1;
            },
            None => {
                proof {
                    lemma_instance_lines_missing(d@, sd@.fields, i as int);
                }
                return Err(
                    GenError::MissingField {
                        struct_name: sd.name.clone(),
                        field: f.name.clone(),
                    },
                );
            },
        }
    }
    proof {
        assert(sd@.fields.take(sd.fields@.len() as int) =~= sd@.fields);
    }
    let j = join_strings(&lines, "\n");
    let mut out = String::from_str("    ");
    out.append(sd.name.as_str());
    out.append(" {\n");
    out.append(j.as_str());
    out.append("\n    }");
    Ok(out)
}

/// The shapes of a sequence of schemas.
pub open spec fn struct_def_views(defs: Seq<StructDef>) -> Seq<StructDefView> {
    defs.map_values(|d: StructDef| d@)
}

/// The first schema with the given type name.
pub open spec fn find_struct_spec(defs: Seq<StructDefView>, name: Seq<char>) -> Option<
    StructDefView,
>
    decreases defs.len(),
{
    if defs.len() == 0 {
        None
    } else if defs[0].name == name {
        Some(defs[0])
    } else {
        find_struct_spec(defs.drop_first(), name)
    }
}

/// Finds the first schema with the given type name, scanning front to back.
pub fn find_struct<'a>(defs: &'a Vec<StructDef>, name: &str) -> (r: Option<&'a StructDef>)
    ensures
        match r {
            Some(v) => find_struct_spec(struct_def_views(defs@), name@) == Some(v@),
            None => find_struct_spec(struct_def_views(defs@), name@) is None,
        },
{
    let ghost dvs = struct_def_views(defs@);
    let mut i: usize = 0;
    proof {
        assert(dvs.skip(0) =~= dvs);
    }
    while i < defs.len()
        invariant
            i <= defs@.len(),
            dvs == struct_def_views(defs@),
            find_struct_spec(dvs, name@) == find_struct_spec(dvs.skip(i as int), name@),
        decreases defs@.len() - i,
    {
        proof {
            assert(dvs.skip(i as int)[0] == dvs[i as int]);
            assert(dvs[i as int] == defs@[i as int]@);
            assert(dvs.skip(i as int).drop_first() =~= dvs.skip(i + 1));
        }
        if crate::strutil::str_eq(defs[i].name.as_str(), name) {
            return Some(&defs[i]);
        }
        i = i + 1;
    }
    proof {
        assert(dvs.skip(dvs.len() as int).len() == 0);
    }
    None
}

/// The generated instance literals of a sequence of records, or `None` when
/// any record fails.
pub open spec fn instances_spec(
    data: Seq<Map<Seq<char>, PostValueView>>,
    sd: StructDefView,
) -> Option<Seq<Seq<char>>>
    decreases data.len(),
{
    if data.len() == 0 {
        Some(Seq::empty())
    } else {
        match (instances_spec(data.drop_last(), sd), instance_spec(data.last(), sd)) {
            (Some(init), Some(one)) => Some(init.push(one)),
            _ => None,
        }
    }
}

/// A failing record makes the whole instance list fail.
proof fn lemma_instances_missing(data: Seq<Map<Seq<char>, PostValueView>>, sd: StructDefView, j: int)
    requires
        0 <= j < data.len(),
        instance_spec(data[j], sd) is None,
    ensures
        instances_spec(data, sd) is None,
    decreases data.len(),
{
    if j == data.len() - 1 {
    } else {
        assert(data.drop_last()[j] == data[j]);
        lemma_instances_missing(data.drop_last(), sd, j);
    }
}

/// Records that all succeed make the instance list succeed.
pub proof fn lemma_instances_total(data: Seq<Map<Seq<char>, PostValueView>>, sd: StructDefView)
    requires
        forall|j: int| 0 <= j < data.len() ==> (#[trigger] instance_spec(data[j], sd)) is Some,
    ensures
        instances_spec(data, sd) is Some,
    decreases data.len(),
{
    if data.len() == 0 {
    } else {
        assert(forall|j: int| 0 <= j < data.drop_last().len() ==> data.drop_last()[j] == data[j]);
        lemma_instances_total(data.drop_last(), sd);
        assert(instance_spec(data[data.len() - 1], sd) is Some);
    }
}

/// The shape of one static array: its name, its element type, and the
/// records it holds.
pub struct ArrayView {
    pub name: Seq<char>,
    pub element_type: Seq<char>,
    pub data: Seq<Map<Seq<char>, PostValueView>>,
}

/// The shape of one `(name, element type, records)` triple.
pub open spec fn array_view(arr: (String, String, Vec<PostData>)) -> ArrayView {
    ArrayView { name: arr.0@, element_type: arr.1@, data: record_views(arr.2@) }
}

/// The shapes of a sequence of static arrays.
pub open spec fn array_views(arrs: Seq<(String, String, Vec<PostData>)>) -> Seq<ArrayView> {
    arrs.map_values(|a: (String, String, Vec<PostData>)| array_view(a))
}

/// The generated static-array section for one array, or `None` when the
/// element type has no schema or a record fails.
pub open spec fn array_code_spec(defs: Seq<StructDefView>, arr: ArrayView) -> Option<Seq<char>> {
    match find_struct_spec(defs, arr.element_type) {
        Some(sd) => match instances_spec(arr.data, sd) {
            Some(insts) => Some(
                "static "@ + arr.name + ": &["@ + arr.element_type + "] = &[\n"@ + join_spec(
                    insts,
                    ",\n"@,
                ) + "\n];\n"@,
            ),
            None => None,
        },
        None => None,
    }
}

/// Emits the static-array section for one array.
pub fn generate_array_code(defs: &Vec<StructDef>, arr: &(String, String, Vec<PostData>)) -> (r:
    Result<String, GenError>)
    ensures
        match r {
            Ok(s) => array_code_spec(struct_def_views(defs@), array_view(*arr)) == Some(s@),
            Err(e) => array_code_spec(struct_def_views(defs@), array_view(*arr)) is None && match e {
                GenError::UnknownElementType { element_type } => element_type@ == arr.1@
                    && find_struct_spec(struct_def_views(defs@), arr.1@) is None,
                GenError::MissingField { struct_name, field } => find_struct_spec(
                    struct_def_views(defs@),
                    arr.1@,
                ) matches Some(sd) && struct_name@ == sd.name && exists|j: int|
                    0 <= j < arr.2@.len() && (#[trigger] instance_spec(arr.2@[j]@, sd)) is None
                        && !arr.2@[j]@.contains_key(field@),
            },
        },
{
    let sd = match find_struct(defs, arr.1.as_str()) {
        Some(sd) => sd,
        None => {
            return Err(GenError::UnknownElementType { element_type: arr.1.clone() });
        },
    };
    let ghost data = record_views(arr.2@);
    let mut insts: Vec<String> = Vec::new();
    let mut j: usize = 0;
    while j < arr.2.len()
        invariant
            j <= arr.2@.len(),
            data == record_views(arr.2@),
            find_struct_spec(struct_def_views(defs@), arr.1@) == Some(sd@),
            instances_spec(data.take(j as int), sd@) == Some(str_views(insts@)),
        decreases arr.2@.len() - j,
    {
        proof {
            assert(data[j as int] == arr.2@[j as int]@);
        }
        match generate_instance(&arr.2[j], sd) {
            Ok(one) => {
                let ghost prev = insts@;
                insts.push(one);
                proof {
                    lemma_str_views_push(prev, one);
                    assert(data.take(j + 1).drop_last() =~= data.take(j as int));
                    assert(data.take(j + 1).last() == data[j as int]);
                    assert(instances_spec(data.take(j + 1), sd@) == Some(str_views(insts@)));
                }
                j = j + 1;
            },
            Err(e) => {
                proof {
                    lemma_instances_missing(data, sd@, j as int);
                }
                return Err(e);
            },
        }
    }
    proof {
        assert(data.take(arr.2@.len() as int) =~= data);
    }
    let joined = join_strings(&insts, ",\n");
    let mut out = String::from_str("static ");
    out.append(arr.0.as_str());
    out.append(": &[");
    out.append(arr.1.as_str());
    out.append("] = &[\n");
    out.append(joined.as_str());
    out.append("\n];\n");
    Ok(out)
}

/// The struct-definitions section: each declaration followed by a blank line.
pub open spec fn structs_code_spec(defs: Seq<StructDefView>) -> Seq<char>
    decreases defs.len(),
{
    if defs.len() == 0 {
        Seq::empty()
    } else {
        structs_code_spec(defs.drop_last()) + struct_def_spec(defs.last()) + "\n\n"@
    }
}

/// The static-array sections in order, or `None` when any fails.
pub open spec fn arrays_code_spec(defs: Seq<StructDefView>, arrs: Seq<ArrayView>) -> Option<
    Seq<char>,
>
    decreases arrs.len(),
{
    if arrs.len() == 0 {
        Some(Seq::empty())
    } else {
        match (arrays_code_spec(defs, arrs.drop_last()), array_code_spec(defs, arrs.last())) {
            (Some(init), Some(one)) => Some(init + one),
            _ => None,
        }
    }
}

/// A failing array makes the whole arrays section fail.
proof fn lemma_arrays_code_missing(defs: Seq<StructDefView>, arrs: Seq<ArrayView>, j: int)
    requires
        0 <= j < arrs.len(),
        array_code_spec(defs, arrs[j]) is None,
    ensures
        arrays_code_spec(defs, arrs) is None,
    decreases arrs.len(),
{
    if j == arrs.len() - 1 {
    } else {
        assert(arrs.drop_last()[j] == arrs[j]);
        lemma_arrays_code_missing(defs, arrs.drop_last(), j);
    }
}

/// Arrays that all succeed make the arrays section succeed.
pub proof fn lemma_arrays_code_total(defs: Seq<StructDefView>, arrs: Seq<ArrayView>)
    requires
        forall|j: int| 0 <= j < arrs.len() ==> (#[trigger] array_code_spec(defs, arrs[j])) is Some,
    ensures
        arrays_code_spec(defs, arrs) is Some,
    decreases arrs.len(),
{
    if arrs.len() == 0 {
    } else {
        assert(forall|j: int| 0 <= j < arrs.drop_last().len() ==> arrs.drop_last()[j] == arrs[j]);
        lemma_arrays_code_total(defs, arrs.drop_last());
        assert(array_code_spec(defs, arrs[arrs.len() - 1]) is Some);
    }
}

/// The code generation orchestrator: record schemas and the static arrays to
/// emit from them.
pub struct CodeGen {
    pub struct_defs: Vec<StructDef>,
    pub static_arrays: Vec<(String, String, Vec<PostData>)>,
}

/// The whole generated module: the type declarations, then the static arrays;
/// `None` when any array fails.
pub open spec fn code_spec(defs: Seq<StructDefView>, arrs: Seq<ArrayView>) -> Option<Seq<char>> {
    match arrays_code_spec(defs, arrs) {
        Some(a) => Some(structs_code_spec(defs) + a),
        None => None,
    }
}

impl CodeGen {
    /// An empty generator.
    pub fn new() -> (r: Self)
        ensures
            r.struct_defs@.len() == 0,
            r.static_arrays@.len() == 0,
    {
        CodeGen { struct_defs: Vec::new(), static_arrays: Vec::new() }
    }

    /// The generator extended by one schema.
    pub fn add_struct(self, struct_def: StructDef) -> (r: Self)
        ensures
            struct_def_views(r.struct_defs@) == struct_def_views(self.struct_defs@).push(
                struct_def@,
            ),
            r.static_arrays == self.static_arrays,
    {
        let ghost prev = self.struct_defs@;
        let mut struct_defs = self.struct_defs;
        struct_defs.push(struct_def);
        proof {
            assert(struct_def_views(struct_defs@) =~= struct_def_views(prev).push(struct_def@));
        }
        CodeGen { struct_defs, static_arrays: self.static_arrays }
    }

    /// The generator extended by one static array of records.
    pub fn add_static_array(self, name: &str, element_type: &str, data: Vec<PostData>) -> (r: Self)
        ensures
            r.struct_defs == self.struct_defs,
            array_views(r.static_arrays@) == array_views(self.static_arrays@).push(
                ArrayView {
                    name: name@,
                    element_type: element_type@,
                    data: record_views(data@),
                },
            ),
    {
        let ghost prev = self.static_arrays@;
        let mut static_arrays = self.static_arrays;
        let arr = (name.to_owned(), element_type.to_owned(), data);
        static_arrays.push(arr);
        proof {
            assert(array_views(static_arrays@) =~= array_views(prev).push(array_view(arr)));
        }
        CodeGen { struct_defs: self.struct_defs, static_arrays }
    }

    /// Emits the whole generated module; fails when an element type has no
    /// schema or a record lacks a declared field.
    pub fn generate_code(&self) -> (r: Result<String, GenError>)
        ensures
            match r {
                Ok(s) => code_spec(
                    struct_def_views(self.struct_defs@),
                    array_views(self.static_arrays@),
                ) == Some(s@),
                Err(e) => code_spec(
                    struct_def_views(self.struct_defs@),
                    array_views(self.static_arrays@),
                ) is None && exists|i: int|
                    0 <= i < self.static_arrays@.len() && (#[trigger] array_code_spec(
                        struct_def_views(self.struct_defs@),
                        array_views(self.static_arrays@)[i],
                    )) is None,
            },
    {
        let ghost dvs = struct_def_views(self.struct_defs@);
        let ghost avs = array_views(self.static_arrays@);
        let mut out = String::new();
        let mut i: usize = 0;
        while i < self.struct_defs.len()
            invariant
                i <= self.struct_defs@.len(),
                dvs == struct_def_views(self.struct_defs@),
                out@ == structs_code_spec(dvs.take(i as int)),
            decreases self.struct_defs@.len() - i,
        {
            let sd_code = self.struct_defs[i].generate_struct_definition();
            out.append(sd_code.as_str());
            out.append("\n\n");
            proof {
                assert(dvs.take(i + 1).drop_last() =~= dvs.take(i as int));
                assert(dvs.take(i + 1).last() == dvs[i as int]);
                assert(dvs[i as int] == self.struct_defs@[i as int]@);
            }
            i = i + 1;
        }
        proof {
            assert(dvs.take(self.struct_defs@.len() as int) =~= dvs);
        }
        let ghost structs_part = structs_code_spec(dvs);
        let mut j: usize = 0;
        let ghost mut acc = Seq::<char>::empty();
        proof {
            assert(structs_part + Seq::<char>::empty() =~= structs_part);
        }
        while j < self.static_arrays.len()
            invariant
                j <= self.static_arrays@.len(),
                dvs == struct_def_views(self.struct_defs@),
                avs == array_views(self.static_arrays@),
                structs_part == structs_code_spec(dvs),
                arrays_code_spec(dvs, avs.take(j as int)) == Some(acc),
                out@ == structs_part + acc,
            decreases self.static_arrays@.len() - j,
        {
            proof {
                assert(avs[j as int] == array_view(self.static_arrays@[j as int]));
            }
            match generate_array_code(&self.struct_defs, &self.static_arrays[j]) {
                Ok(code) => {
                    out.append(code.as_str());
                    proof {
                        assert(avs.take(j + 1).drop_last() =~= avs.take(j as int));
                        assert(avs.take(j + 1).last() == avs[j as int]);
                        assert((structs_part + acc) + code@ =~= structs_part + (acc + code@));
                        acc = acc + code@;
                    }
                    j = j + 1;
                },
                Err(e) => {
                    proof {
                        lemma_arrays_code_missing(dvs, avs, j as int);
                    }
                    return Err(e);
                },
            }
        }
        proof {
            assert(avs.take(self.static_arrays@.len() as int) =~= avs);
        }
        Ok(out)
    }
}

} // verus!
