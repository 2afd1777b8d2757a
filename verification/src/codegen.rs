//! Source-text generation for harvested connectors.
//!
//! Each harvested connector becomes a self-contained text fragment: a named
//! handle structure and a stub implementation of the protocol operations
//! whose `spec` operation returns the harvested payload as a literal. The
//! fragments are plain text; nothing here parses or compiles them.

use crate::errors::SchemaError;
use crate::schema::{all_kinds_supported, config_source, create_config, first_unsupported_from,
    Field};
use crate::text::{lemma_skip_ws_bounds, lemma_word_end_bounds, skip_ws, word_end, word_stop,
    ws_end};
use vstd::prelude::*;
use vstd::string::StrSliceExecFns;
use vstd::string::StringExecFns;

verus! {

/// Up to `n` leading words of `s` starting at `i`, concatenated without
/// separators.
pub open spec fn take_words(s: Seq<char>, i: int, n: int) -> Seq<char>
    decreases n when 0 <= i <= s.len() via take_words_dec
{
    if n <= 0 {
        Seq::empty()
    } else {
        let j = skip_ws(s, i);
        if j >= s.len() {
            Seq::empty()
        } else {
            let k = word_end(s, j);
            s.subrange(j, k) + take_words(s, k, n - 1)
        }
    }
}

#[via_fn]
proof fn take_words_dec(s: Seq<char>, i: int, n: int) {
    if 0 <= i <= s.len() && n > 0 {
        lemma_skip_ws_bounds(s, i);
        let j = skip_ws(s, i);
        if j < s.len() {
            lemma_word_end_bounds(s, j);
        }
    }
}

/// The handle name generated for a connector: its first three words run
/// together.
pub open spec fn struct_name_spec(name: Seq<char>) -> Seq<char> {
    take_words(name, 0, 3)
}

/// Builds the generated handle name from a connector's human label: the
/// label's first three words, run together without separators.
pub fn struct_name_of(name: &str) -> (r: String)
    ensures
        r@ == struct_name_spec(name@),
{
    let n = name.unicode_len();
    let mut out = String::new();
    let mut i: usize = 0;
    let mut left: usize = 3;
    while left > 0
        invariant
            0 <= i <= n,
            n == name@.len(),
            left <= 3,
            out@ + take_words(name@, i as int, left as int) == take_words(name@, 0, 3),
        decreases left,
    {
        let j = ws_end(name, i);
        if j >= n {
            proof {
                assert(take_words(name@, i as int, left as int) =~= Seq::<char>::empty());
                assert(out@ + Seq::<char>::empty() =~= out@);
            }
            return out;
        }
        let k = word_stop(name, j);
        let word = name.substring_char(j, k);
        proof {
            assert(take_words(name@, i as int, left as int) == name@.subrange(j as int, k as int)
                + take_words(name@, k as int, left as int - 1));
            assert((out@ + name@.subrange(j as int, k as int)) + take_words(
                name@,
                k as int,
                left as int - 1,
            ) =~= out@ + (name@.subrange(j as int, k as int) + take_words(
                name@,
                k as int,
                left as int - 1,
            )));
        }
        out.append(word);
        i = k;
        left = left - 1;
    }
    proof {
        assert(take_words(name@, i as int, 0) =~= Seq::<char>::empty());
        assert(out@ + Seq::<char>::empty() =~= out@);
    }
    out
}

/// The full generated file for a set of connector fragments: the import of
/// the protocol trait, the fragments, and a final line break.
pub open spec fn file_source(content: Seq<char>) -> Seq<char> {
    "use dirtcrunch::Source;\n\n"@ + content + "\n"@
}

/// Wraps generated connector fragments into one self-contained file.
pub fn create_file(content: String) -> (r: String)
    ensures
        r@ == file_source(content@),
{
    let mut out = "use dirtcrunch::Source;\n\n".to_owned();
    out.append(content.as_str());
    out.append("\n");
    proof {
        assert(out@ =~= file_source(content@));
    }
    out
}

/// The fragment generated for one connector: a handle structure named
/// `name`, its constructor, and a protocol-trait stub whose `spec`
/// operation returns the harvested payload `spec_json` as a literal for
/// the image `image`.
pub open spec fn binding_source(name: Seq<char>, image: Seq<char>, spec_json: Seq<char>) -> Seq<
    char,
> {
    "pub struct "@ + name + " {}\n\nimpl "@ + name
        + " {\n    pub fn new() -> Self {\n        Self {}\n    }\n}\n\n#[async_trait::async_trait]\nimpl<'a> Source<'a> for "@
        + name + " {\n    const IMAGE: &'a str = \""@ + image
        + "\";\n    fn specs(&self) -> serde_json::Value { \n        serde_json::Value::String(r#\" "@
        + spec_json + " \"#.to_string())\n    }\n}\n"@
}

/// Emits the connector fragment for the handle `name` running `image`,
/// with the harvested `spec_json` payload embedded as a literal.
pub fn create_objects(name: &str, image: &str, spec_json: &str) -> (r: String)
    ensures
        r@ == binding_source(name@, image@, spec_json@),
{
    let mut out = "pub struct ".to_owned();
    out.append(name);
    out.append(" {}\n\nimpl ");
    out.append(name);
    out.append(
        " {\n    pub fn new() -> Self {\n        Self {}\n    }\n}\n\n#[async_trait::async_trait]\nimpl<'a> Source<'a> for ",
    );
    out.append(name);
    out.append(" {\n    const IMAGE: &'a str = \"");
    out.append(image);
    out.append(
        "\";\n    fn specs(&self) -> serde_json::Value { \n        serde_json::Value::String(r#\" ",
    );
    out.append(spec_json);
    out.append(" \"#.to_string())\n    }\n}\n");
    proof {
        assert(out@ =~= binding_source(name@, image@, spec_json@));
    }
    out
}

/// The whole generated binding for one connector: its configuration
/// structure, then the handle and protocol stub.
pub open spec fn generated_binding(
    name: Seq<char>,
    image: Seq<char>,
    spec_json: Seq<char>,
    fields: Seq<crate::schema::FieldView>,
) -> Seq<char> {
    config_source(name, fields) + "\n"@ + binding_source(name, image, spec_json)
}

/// Emits the whole binding for one connector named `name` running `image`:
/// the configuration structure for its resolved `fields`, then the handle
/// structure and the protocol stub carrying the harvested `spec_json`.
/// Fails with the schema error naming the first field of unsupported kind —
/// exactly when one exists.
pub fn create_binding(name: &str, image: &str, spec_json: &str, fields: &Vec<Field>) -> (r: Result<
    String,
    SchemaError,
>)
    ensures
        match r {
            Ok(s) => all_kinds_supported(fields.deep_view()) && s@ == generated_binding(
                name@,
                image@,
                spec_json@,
                fields.deep_view(),
            ),
            Err(e) => {
                &&& !all_kinds_supported(fields.deep_view())
                &&& match e {
                    SchemaError::UnsupportedKind { field, kind } => {
                        let k = first_unsupported_from(fields.deep_view(), 0);
                        &&& k < fields.deep_view().len()
                        &&& field@ == fields.deep_view()[k].name
                        &&& kind@ == fields.deep_view()[k].ftype
                    },
                    _ => false,
                }
            },
        },
{
    let mut out = match create_config(name, fields) {
        Ok(config) => config,
        Err(e) => {
            return Err(e);
        },
    };
    out.append("\n");
    let fragment = create_objects(name, image, spec_json);
    out.append(fragment.as_str());
    proof {
        assert(out@ =~= generated_binding(name@, image@, spec_json@, fields.deep_view()));
    }
    Ok(out)
}

} // verus!
