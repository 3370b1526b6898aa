//! TypeScript: type names, field names and type expressions.
use vstd::prelude::*;
use vstd::string::StringExecFns;
use crate::mapper::LanguageContext;
use crate::mapper::render_type;
use crate::mapper::sanitize_identifier;
use crate::mapper::sanitize_identifier_spec;
use crate::mapper::type_expr;
use crate::resolver::last_segment;
use crate::schema::SchemaObject;
use crate::syntax::Language;
use crate::text::lower_first;
use crate::text::uncapitalize;

verus! {

/// The name of a type in TypeScript: the sanitized form of the declared name.
pub fn type_ident(raw: &str) -> (res: String)
    ensures
        res@ == sanitize_identifier_spec(raw@),
{
    sanitize_identifier(raw)
}

/// The name of a field in TypeScript: the declared name with its first
/// character in lower case, and `field` for the empty name.
pub open spec fn field_name_spec(raw: Seq<char>) -> Seq<char> {
    if raw.len() == 0 {
        "field"@
    } else {
        lower_first(raw)
    }
}

/// The name of a field in TypeScript.
pub fn field_name(raw: &str) -> (res: String)
    ensures
        res@ == field_name_spec(raw@),
{
    if raw.is_empty() {
        String::from_str("field")
    } else {
        uncapitalize(raw)
    }
}

/// The TypeScript type expression of a node.
pub fn map_type(schema: &SchemaObject, ctx: &LanguageContext) -> (res: String)
    ensures
        res@ == type_expr(Language::Ts, schema@, ctx@),
        schema@.reference.is_some() ==> res@ == sanitize_identifier_spec(
            last_segment(schema@.reference.unwrap()),
        ),
{
    render_type(Language::Ts, schema, ctx)
}

} // verus!
