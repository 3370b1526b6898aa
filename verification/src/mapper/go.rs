//! Go: type names, field names and type expressions.
use vstd::prelude::*;
use crate::mapper::LanguageContext;
use crate::mapper::lemma_sanitized_head;
use crate::mapper::render_type;
use crate::mapper::sanitize_identifier;
use crate::mapper::sanitize_identifier_spec;
use crate::mapper::type_expr;
use crate::resolver::last_segment;
use crate::schema::SchemaObject;
use crate::syntax::Language;
use crate::text::capitalize;
use crate::text::upper_first;

verus! {

/// The name of a type in Go: the sanitized form of the declared name.
pub fn type_ident(raw: &str) -> (res: String)
    ensures
        res@ == sanitize_identifier_spec(raw@),
{
    sanitize_identifier(raw)
}

/// The name of a field in Go: the sanitized form of the declared name with
/// its first character in upper case, so that the field is exported. The
/// sanitizer has put that character in upper case already.
pub fn field_name(raw: &str) -> (res: String)
    ensures
        res@ == upper_first(sanitize_identifier_spec(raw@)),
        res@ == sanitize_identifier_spec(raw@),
{
    let ident = sanitize_identifier(raw);
    proof {
        lemma_sanitized_head(raw@);
    }
    capitalize(ident.as_str())
}

/// The Go type expression of a node.
pub fn map_type(schema: &SchemaObject, ctx: &LanguageContext) -> (res: String)
    ensures
        res@ == type_expr(Language::Go, schema@, ctx@),
        schema@.reference.is_some() ==> res@ == sanitize_identifier_spec(
            last_segment(schema@.reference.unwrap()),
        ),
{
    render_type(Language::Go, schema, ctx)
}

} // verus!
