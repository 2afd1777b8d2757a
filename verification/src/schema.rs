//! Harvested configuration schemas and their typed configuration bindings.
//!
//! A connector's specification declares a set of required field names, each
//! with a declared primitive kind. [`create_fields`] resolves every
//! required name against the declared properties — a required name without
//! a typed property is a fatal schema error, never a silent default — and
//! [`create_config`] emits the configuration structure, mapping `integer`
//! to a signed 32-bit field and `string`/`object` to a text field; any
//! other declared kind is rejected loudly rather than guessed at.

use crate::errors::SchemaError;
use crate::text::str_eq;
use vstd::prelude::*;
use vstd::string::StringExecFns;

verus! {

/// Model of a [`Property`].
pub struct PropertyView {
    /// The declared field name.
    pub name: Seq<char>,
    /// The declared kind, as schema text.
    pub kind: Seq<char>,
}

/// One property declaration of a harvested schema: a field name and its
/// declared primitive kind (schema text such as `integer`).
#[derive(Debug, Clone)]
pub struct Property {
    /// The declared field name.
    pub name: String,
    /// The declared kind, as schema text.
    pub kind: String,
}

impl View for Property {
    type V = PropertyView;

    open spec fn view(&self) -> PropertyView {
        PropertyView { name: self.name@, kind: self.kind@ }
    }
}

impl DeepView for Property {
    type V = PropertyView;

    open spec fn deep_view(&self) -> PropertyView {
        self.view()
    }
}

/// Model of a [`ConfigSchema`].
pub struct SchemaView {
    /// The required field names, in declared order.
    pub required: Seq<Seq<char>>,
    /// The declared properties.
    pub properties: Seq<PropertyView>,
}

/// The slice of a harvested JSON Schema that binding generation reads: the
/// required field names in their declared order, and the declared kind of
/// each property.
#[derive(Debug, Clone)]
pub struct ConfigSchema {
    /// The required field names, in declared order.
    pub required: Vec<String>,
    /// The declared properties.
    pub properties: Vec<Property>,
}

impl View for ConfigSchema {
    type V = SchemaView;

    open spec fn view(&self) -> SchemaView {
        SchemaView { required: self.required.deep_view(), properties: self.properties.deep_view() }
    }
}

/// Model of a [`Field`].
pub struct FieldView {
    /// The field name.
    pub name: Seq<char>,
    /// The declared schema kind of the field.
    pub ftype: Seq<char>,
}

/// One field of the generated configuration structure: a name and the
/// declared schema kind it was resolved to.
#[derive(Debug, Clone)]
pub struct Field {
    /// The field name.
    pub name: String,
    /// The declared schema kind of the field.
    pub ftype: String,
}

impl View for Field {
    type V = FieldView;

    open spec fn view(&self) -> FieldView {
        FieldView { name: self.name@, ftype: self.ftype@ }
    }
}

impl DeepView for Field {
    type V = FieldView;

    open spec fn deep_view(&self) -> FieldView {
        self.view()
    }
}

/// The declared kind of the first property named `name`, if any.
pub open spec fn kind_lookup(props: Seq<PropertyView>, name: Seq<char>) -> Option<Seq<char>>
    decreases props.len(),
{
    if props.len() == 0 {
        None
    } else if props[0].name == name {
        Some(props[0].kind)
    } else {
        kind_lookup(props.subrange(1, props.len() as int), name)
    }
}

proof fn lemma_kind_lookup_skip(props: Seq<PropertyView>, name: Seq<char>, k: int)
    requires
        0 <= k <= props.len(),
        forall|j: int| 0 <= j < k ==> (#[trigger] props[j]).name != name,
    ensures
        kind_lookup(props, name) == kind_lookup(props.subrange(k, props.len() as int), name),
    decreases k,
{
    if k > 0 {
        lemma_kind_lookup_skip(props, name, k - 1);
        let rest = props.subrange(k - 1, props.len() as int);
        assert(rest[0] == props[k - 1]);
        assert(kind_lookup(rest, name) == kind_lookup(rest.subrange(1, rest.len() as int), name));
        assert(rest.subrange(1, rest.len() as int) =~= props.subrange(k, props.len() as int));
    } else {
        assert(props.subrange(0, props.len() as int) =~= props);
    }
}

/// Finds the declared kind of the first property named `name`.
pub fn lookup_kind<'a>(props: &'a Vec<Property>, name: &str) -> (r: Option<&'a String>)
    ensures
        match r {
            Some(k) => kind_lookup(props.deep_view(), name@) == Some(k@),
            None => kind_lookup(props.deep_view(), name@) is None,
        },
{
    let ghost pv = props.deep_view();
    let mut j: usize = 0;
    while j < props.len()
        invariant
            0 <= j <= props.len(),
            pv == props.deep_view(),
            pv.len() == props@.len(),
            forall|i: int| 0 <= i < j ==> (#[trigger] pv[i]).name != name@,
        decreases props.len() - j,
    {
        proof {
            assert(pv[j as int] == props@[j as int]@);
        }
        if str_eq(props[j].name.as_str(), name) {
            proof {
                lemma_kind_lookup_skip(pv, name@, j as int);
                let rest = pv.subrange(j as int, pv.len() as int);
                assert(rest[0] == pv[j as int]);
            }
            return Some(&props[j].kind);
        }
        j = j + 1;
    }
    proof {
        lemma_kind_lookup_skip(pv, name@, pv.len() as int);
        assert(pv.subrange(pv.len() as int, pv.len() as int) =~= Seq::<PropertyView>::empty());
    }
    None
}

/// Every required name resolves to a declared kind.
pub open spec fn all_required_typed(s: SchemaView) -> bool {
    forall|i: int|
        0 <= i < s.required.len() ==> kind_lookup(s.properties, #[trigger] s.required[i]) is Some
}

/// The first required index whose name has no declared kind, at or after
/// `i` (`s.required.len()` if all are typed).
pub open spec fn first_untyped_from(s: SchemaView, i: int) -> int
    decreases s.required.len() - i when 0 <= i <= s.required.len()
{
    if i >= s.required.len() {
        i
    } else if kind_lookup(s.properties, s.required[i]) is None {
        i
    } else {
        first_untyped_from(s, i + 1)
    }
}

proof fn lemma_first_untyped_props(s: SchemaView, i: int)
    requires
        0 <= i <= s.required.len(),
    ensures
        i <= first_untyped_from(s, i) <= s.required.len(),
        forall|j: int|
            i <= j < first_untyped_from(s, i) ==> kind_lookup(
                s.properties,
                #[trigger] s.required[j],
            ) is Some,
        first_untyped_from(s, i) < s.required.len() ==> kind_lookup(
            s.properties,
            s.required[first_untyped_from(s, i)],
        ) is None,
    decreases s.required.len() - i,
{
    if i < s.required.len() && !(kind_lookup(s.properties, s.required[i]) is None) {
        lemma_first_untyped_props(s, i + 1);
    }
}

/// Resolves every required name of `schema` to its declared kind, in the
/// schema's declared order. Fails with the schema error naming the first
/// required field that has no typed property — exactly when one exists.
pub fn create_fields(schema: &ConfigSchema) -> (r: Result<Vec<Field>, SchemaError>)
    ensures
        match r {
            Ok(fields) => {
                &&& all_required_typed(schema@)
                &&& fields.deep_view().len() == schema@.required.len()
                &&& forall|i: int|
                    0 <= i < fields.deep_view().len() ==> (#[trigger] fields.deep_view()[i]).name
                        == schema@.required[i] && Some(fields.deep_view()[i].ftype) == kind_lookup(
                        schema@.properties,
                        schema@.required[i],
                    )
            },
            Err(e) => {
                &&& !all_required_typed(schema@)
                &&& match e {
                    SchemaError::MissingType { field } => {
                        let k = first_untyped_from(schema@, 0);
                        &&& k < schema@.required.len()
                        &&& field@ == schema@.required[k]
                    },
                    _ => false,
                }
            },
        },
{
    let ghost sv = schema@;
    let mut fields: Vec<Field> = Vec::new();
    let mut i: usize = 0;
    while i < schema.required.len()
        invariant
            0 <= i <= schema.required.len(),
            sv == schema@,
            sv.required.len() == schema.required@.len(),
            fields.deep_view().len() == i as int,
            forall|j: int|
                0 <= j < i ==> (#[trigger] fields.deep_view()[j]).name == sv.required[j] && Some(
                    fields.deep_view()[j].ftype,
                ) == kind_lookup(sv.properties, sv.required[j]),
        decreases schema.required.len() - i,
    {
        proof {
            assert(sv.required[i as int] == schema.required@[i as int]@);
        }
        let name = &schema.required[i];
        match lookup_kind(&schema.properties, name.as_str()) {
            Some(kind) => {
                let ghost pre = fields.deep_view();
                let ghost prev = fields@;
                let f = Field { name: name.clone(), ftype: kind.clone() };
                let ghost fv2 = f@;
                proof {
                    assert(fv2.name == sv.required[i as int]);
                    assert(Some(fv2.ftype) == kind_lookup(sv.properties, sv.required[i as int]));
                }
                fields.push(f);
                proof {
                    assert forall|j: int| 0 <= j < i as int + 1 implies ((#[trigger] fields.deep_view()[j]).name
                        == sv.required[j] && Some(fields.deep_view()[j].ftype) == kind_lookup(
                        sv.properties,
                        sv.required[j],
                    )) by {
                        assert(fields.deep_view()[j] == fields@[j]@);
                        if j < i as int {
                            assert(fields@[j] == prev[j]);
                            assert(pre[j] == prev[j]@);
                            assert((#[trigger] pre[j]).name == sv.required[j]);
                        } else {
                            assert(fields@[j]@ == fv2);
                        }
                    }
                }
            },
            None => {
                proof {
                    lemma_first_untyped_props(sv, 0);
                    let k = first_untyped_from(sv, 0);
                    if k < i as int {
                        assert(Some(fields.deep_view()[k].ftype) == kind_lookup(
                            sv.properties,
                            sv.required[k],
                        ));
                    }
                    if k > i as int {
                        assert(kind_lookup(sv.properties, sv.required[i as int]) is Some);
                    }
                    assert(k == i as int);
                }
                return Err(SchemaError::MissingType { field: name.clone() });
            },
        }
        i = i + 1;
    }
    proof {
        assert forall|i2: int| 0 <= i2 < sv.required.len() implies kind_lookup(
            sv.properties,
            #[trigger] sv.required[i2],
        ) is Some by {
            assert(Some(fields.deep_view()[i2].ftype) == kind_lookup(sv.properties, sv.required[i2]));
        }
    }
    Ok(fields)
}

/// The target-language type a declared kind maps to: `integer` becomes a
/// signed 32-bit integer and `string`/`object` become text; every other
/// kind is unsupported.
pub open spec fn rust_type_of(kind: Seq<char>) -> Option<Seq<char>> {
    if kind == "integer"@ {
        Some("i32"@)
    } else if kind == "string"@ {
        Some("String"@)
    } else if kind == "object"@ {
        Some("String"@)
    } else {
        None
    }
}

/// Every field's declared kind maps to a target type.
pub open spec fn all_kinds_supported(fields: Seq<FieldView>) -> bool {
    forall|i: int|
        0 <= i < fields.len() ==> rust_type_of((#[trigger] fields[i]).ftype) is Some
}

/// The first field index whose kind is unsupported, at or after `i`
/// (`fields.len()` if all are supported).
pub open spec fn first_unsupported_from(fields: Seq<FieldView>, i: int) -> int
    decreases fields.len() - i when 0 <= i <= fields.len()
{
    if i >= fields.len() {
        i
    } else if rust_type_of(fields[i].ftype) is None {
        i
    } else {
        first_unsupported_from(fields, i + 1)
    }
}

proof fn lemma_first_unsupported_props(fields: Seq<FieldView>, i: int)
    requires
        0 <= i <= fields.len(),
    ensures
        i <= first_unsupported_from(fields, i) <= fields.len(),
        forall|j: int|
            i <= j < first_unsupported_from(fields, i) ==> rust_type_of(
                (#[trigger] fields[j]).ftype,
            ) is Some,
        first_unsupported_from(fields, i) < fields.len() ==> rust_type_of(
            fields[first_unsupported_from(fields, i)].ftype,
        ) is None,
    decreases fields.len() - i,
{
    if i < fields.len() && !(rust_type_of(fields[i].ftype) is None) {
        lemma_first_unsupported_props(fields, i + 1);
    }
}

/// The source line declaring one generated field.
pub open spec fn field_line(f: FieldView) -> Seq<char>
    recommends
        rust_type_of(f.ftype) is Some,
{
    "\tpub "@ + f.name + ": "@ + rust_type_of(f.ftype).unwrap() + ",\n"@
}

/// The field lines of the first `n` fields, concatenated in order.
pub open spec fn fields_text_upto(fields: Seq<FieldView>, n: int) -> Seq<char>
    decreases n,
{
    if n <= 0 {
        Seq::empty()
    } else {
        fields_text_upto(fields, n - 1) + field_line(fields[n - 1])
    }
}

/// The configuration structure generated for `name` and `fields`.
pub open spec fn config_source(name: Seq<char>, fields: Seq<FieldView>) -> Seq<char> {
    "#[derive(serde::Serialize, serde::Deserialize)]\npub struct Config"@ + name + " {\n"@
        + fields_text_upto(fields, fields.len() as int) + "\n}\n"@
}

/// Emits the configuration structure for `name`: one field per entry of
/// `fields`, in order, with `integer` mapped to `i32` and
/// `string`/`object` mapped to `String`. Fails with the schema error
/// naming the first field of unsupported kind — exactly when one exists.
pub fn create_config(name: &str, fields: &Vec<Field>) -> (r: Result<String, SchemaError>)
    ensures
        match r {
            Ok(s) => all_kinds_supported(fields.deep_view()) && s@ == config_source(
                name@,
                fields.deep_view(),
            ),
            Err(e) => {
                &&& !all_kinds_supported(fields.deep_view())
                &&& match e {
                    SchemaError::UnsupportedKind { field, kind } => {
                        let k = first_unsupported_from(fields.deep_view(), 0);
                        &&& k < fields.deep_view().len()
                        &&& field@ == fields.deep_view()[k].name
                        &&& kind@ == fields.deep_view()[k].ftype
                    },
                    _ => false,
                }
            },
        },
{
    let ghost fv = fields.deep_view();
    let mut body = String::new();
    let mut i: usize = 0;
    while i < fields.len()
        invariant
            0 <= i <= fields.len(),
            fv == fields.deep_view(),
            fv.len() == fields@.len(),
            body@ == fields_text_upto(fv, i as int),
            forall|j: int| 0 <= j < i ==> rust_type_of((#[trigger] fv[j]).ftype) is Some,
        decreases fields.len() - i,
    {
        proof {
            assert(fv[i as int] == fields@[i as int]@);
        }
        let f = &fields[i];
        let ftype: &str = if str_eq(f.ftype.as_str(), "integer") {
            "i32"
        } else if str_eq(f.ftype.as_str(), "string") {
            "String"
        } else if str_eq(f.ftype.as_str(), "object") {
            "String"
        } else {
            proof {
                lemma_first_unsupported_props(fv, 0);
                let k = first_unsupported_from(fv, 0);
                if k < i as int {
                    assert(rust_type_of(fv[k].ftype) is Some);
                }
                if k > i as int {
                    assert(rust_type_of(fv[i as int].ftype) is Some);
                }
                assert(k == i as int);
            }
            return Err(SchemaError::UnsupportedKind {
                field: f.name.clone(),
                kind: f.ftype.clone(),
            });
        };
        body.append("\tpub ");
        body.append(f.name.as_str());
        body.append(": ");
        body.append(ftype);
        body.append(",\n");
        proof {
            assert(body@ =~= fields_text_upto(fv, i as int + 1));
        }
        i = i + 1;
    }
    let mut out = "#[derive(serde::Serialize, serde::Deserialize)]\npub struct Config".to_owned();
    out.append(name);
    out.append(" {\n");
    out.append(body.as_str());
    out.append("\n}\n");
    proof {
        assert(out@ =~= config_source(name@, fv));
    }
    Ok(out)
}

/// Generation is deterministic: the same structure name and the same
/// resolved fields always yield the same source text, byte for byte.
pub proof fn lemma_generation_deterministic(
    name: Seq<char>,
    fields: Seq<FieldView>,
    a: Seq<char>,
    b: Seq<char>,
)
    requires
        a == config_source(name, fields),
        b == config_source(name, fields),
    ensures
        a == b,
{
}

} // verus!
