//! Python: type names, field names and type expressions.
use vstd::prelude::*;
use vstd::string::StringExecFns;
use crate::mapper::LanguageContext;
use crate::mapper::render_type;
use crate::mapper::sanitize_identifier;
use crate::mapper::sanitize_identifier_spec;
use crate::mapper::type_expr;
use crate::resolver::last_segment;
use crate::schema::SchemaObject;
use crate::syntax::Language;

verus! {

/// The name of a type in Python: the sanitized form of the declared name.
pub fn type_ident(raw: &str) -> (res: String)
    ensures
        res@ == sanitize_identifier_spec(raw@),
{
    sanitize_identifier(raw)
}

/// The name of a field in Python: the declared name as it is.
pub fn field_name(raw: &str) -> (res: String)
    ensures
        res@ == raw@,
{
    String::from_str(raw)
}

/// The Python type expression of a node.
pub fn map_type(schema: &SchemaObject, ctx: &LanguageContext) -> (res: String)
    ensures
        res@ == type_expr(Language::Python, schema@, ctx@),
        schema@.reference.is_some() ==> res@ == sanitize_identifier_spec(
            last_segment(schema@.reference.unwrap()),
        ),
{
    render_type(Language::Python, schema, ctx)
}

} // verus!
