//! Rust: type names, field names and type expressions.
use vstd::prelude::*;
use vstd::string::StringExecFns;
use crate::mapper::LanguageContext;
use crate::mapper::render_type;
use crate::mapper::sanitize_identifier;
use crate::mapper::sanitize_identifier_spec;
use crate::mapper::type_expr;
use crate::resolver::last_segment;
use crate::schema::SchemaObject;
use crate::syntax::Language;
use crate::text::ascii_lower;
use crate::text::is_alnum;

verus! {

/// The name of a type in Rust: the sanitized form of the declared name.
pub fn type_ident(raw: &str) -> (res: String)
    ensures
        res@ == sanitize_identifier_spec(raw@),
{
    sanitize_identifier(raw)
}

/// The characters of a Rust field name: alphanumeric characters are kept,
/// the very first character of the name in lower case; each run of other
/// characters becomes one underscore.
pub open spec fn snake_chars(raw: Seq<char>) -> Seq<char>
    decreases raw.len(),
{
    if raw.len() == 0 {
        Seq::empty()
    } else {
        let before = snake_chars(raw.drop_last());
        let c = raw.last();
        if is_alnum(c) {
            if raw.len() == 1 {
                before.push(ascii_lower(c))
            } else {
                before.push(c)
            }
        } else if before.len() > 0 && before.last() == '_' {
            before
        } else {
            before.push('_')
        }
    }
}

/// The name of a field in Rust: its snake characters, and `field` for the
/// empty name.
pub open spec fn field_name_spec(raw: Seq<char>) -> Seq<char> {
    if snake_chars(raw).len() == 0 {
        "field"@
    } else {
        snake_chars(raw)
    }
}

/// Only the empty name has no snake characters.
pub proof fn lemma_snake_chars_nonempty(raw: Seq<char>)
    ensures
        snake_chars(raw).len() == 0 <==> raw.len() == 0,
        snake_chars(raw).len() <= raw.len(),
    decreases raw.len(),
{
    if raw.len() > 0 {
        lemma_snake_chars_nonempty(raw.drop_last());
    }
}

/// The name of a field in Rust.
pub fn field_name(raw: &str) -> (res: String)
    ensures
        res@ == field_name_spec(raw@),
        res@.len() > 0,
{
    let mut out = String::new();
    let mut first = true;
    let mut underscore = false;
    for ch in it: raw.chars()
        invariant
            it.seq() == raw@,
            out@ == snake_chars(raw@.take(it.index() as int)),
            first == (it.index() == 0),
            underscore == (out@.len() > 0 && out@.last() == '_'),
    {
        assert(raw@.take(it.index() + 1).drop_last() =~= raw@.take(it.index() as int));
        if ch.is_ascii_alphanumeric() {
            if first {
                out.push(ch.to_ascii_lowercase());
            } else {
                out.push(ch);
            }
            underscore = false;
        } else if !underscore {
            out.push('_');
            underscore = true;
        }
        first = false;
    }
    proof {
        assert(raw@.take(raw@.len() as int) =~= raw@);
        lemma_snake_chars_nonempty(raw@);
        reveal_strlit("field");
    }
    if out.as_str().is_empty() {
        String::from_str("field")
    } else {
        out
    }
}

/// The Rust type expression of a node.
pub fn map_type(schema: &SchemaObject, ctx: &LanguageContext) -> (res: String)
    ensures
        res@ == type_expr(Language::Rust, schema@, ctx@),
        schema@.reference.is_some() ==> res@ == sanitize_identifier_spec(
            last_segment(schema@.reference.unwrap()),
        ),
{
    render_type(Language::Rust, schema, ctx)
}

} // verus!
