//! The type syntax of the four target languages: the names of their scalar
//! types and the text they put around a sequence, a map, a union, a set of
//! string literals and an optional value.
use vstd::prelude::*;
use crate::schema::InstanceType;

verus! {

/// A target language that has a mapper.
#[derive(Clone, Copy, Debug, PartialEq, Eq, Structural)]
pub enum Language {
    Ts,
    Python,
    Go,
    Rust,
}

/// The language that a name stands for. TypeScript has two names.
pub open spec fn language_of(name: Seq<char>) -> Option<Language> {
    if name == "ts"@ || name == "typescript"@ {
        Some(Language::Ts)
    } else if name == "python"@ {
        Some(Language::Python)
    } else if name == "go"@ {
        Some(Language::Go)
    } else if name == "rust"@ {
        Some(Language::Rust)
    } else {
        None
    }
}

impl Language {
    /// The language that `name` stands for, where it stands for one.
    pub fn parse(name: &str) -> (res: Option<Language>)
        ensures
            res == language_of(name@),
    {
        if name.eq("ts") || name.eq("typescript") {
            Some(Language::Ts)
        } else if name.eq("python") {
            Some(Language::Python)
        } else if name.eq("go") {
            Some(Language::Go)
        } else if name.eq("rust") {
            Some(Language::Rust)
        } else {
            None
        }
    }
}

/// The most permissive type of a language.
pub open spec fn any_type(lang: Language) -> Seq<char> {
    match lang {
        Language::Ts => "any"@,
        Language::Python => "Any"@,
        Language::Go => "interface{}"@,
        Language::Rust => "serde_json::Value"@,
    }
}

/// The built-in type that a language has for a primitive kind. A kind that
/// is no scalar has the most permissive type.
pub open spec fn scalar_type(lang: Language, kind: InstanceType) -> Seq<char> {
    match lang {
        Language::Ts => match kind {
            InstanceType::String => "string"@,
            InstanceType::Integer => "number"@,
            InstanceType::Number => "number"@,
            InstanceType::Boolean => "boolean"@,
            InstanceType::Null => "null"@,
            _ => any_type(lang),
        },
        Language::Python => match kind {
            InstanceType::String => "str"@,
            InstanceType::Integer => "int"@,
            InstanceType::Number => "float"@,
            InstanceType::Boolean => "bool"@,
            InstanceType::Null => "None"@,
            _ => any_type(lang),
        },
        Language::Go => match kind {
            InstanceType::String => "string"@,
            InstanceType::Integer => "int64"@,
            InstanceType::Number => "float64"@,
            InstanceType::Boolean => "bool"@,
            _ => any_type(lang),
        },
        Language::Rust => match kind {
            InstanceType::String => "String"@,
            InstanceType::Integer => "i64"@,
            InstanceType::Number => "f64"@,
            InstanceType::Boolean => "bool"@,
            InstanceType::Null => "Option<serde_json::Value>"@,
            _ => any_type(lang),
        },
    }
}

/// What a language writes before the item type of a sequence.
pub open spec fn sequence_open(lang: Language) -> Seq<char> {
    match lang {
        Language::Ts => ""@,
        Language::Python => "List["@,
        Language::Go => "[]"@,
        Language::Rust => "Vec<"@,
    }
}

/// What a language writes behind the item type of a sequence.
pub open spec fn sequence_close(lang: Language) -> Seq<char> {
    match lang {
        Language::Ts => "[]"@,
        Language::Python => "]"@,
        Language::Go => ""@,
        Language::Rust => ">"@,
    }
}

/// What a language writes before the value type of a string-keyed map.
pub open spec fn map_open(lang: Language) -> Seq<char> {
    match lang {
        Language::Ts => "Record<string, "@,
        Language::Python => "Dict[str, "@,
        Language::Go => "map[string]"@,
        Language::Rust => "std::collections::HashMap<String, "@,
    }
}

/// What a language writes behind the value type of a string-keyed map.
pub open spec fn map_close(lang: Language) -> Seq<char> {
    match lang {
        Language::Ts => ">"@,
        Language::Python => "]"@,
        Language::Go => ""@,
        Language::Rust => ">"@,
    }
}

/// What a language writes before the alternatives of a union. Go has no
/// union syntax and is not asked.
pub open spec fn union_open(lang: Language) -> Seq<char> {
    match lang {
        Language::Python => "Union["@,
        Language::Rust => "std::vec::Vec<"@,
        _ => ""@,
    }
}

/// What a language writes between two alternatives of a union.
pub open spec fn union_separator(lang: Language) -> Seq<char> {
    match lang {
        Language::Python => ", "@,
        _ => " | "@,
    }
}

/// What a language writes behind the alternatives of a union.
pub open spec fn union_close(lang: Language) -> Seq<char> {
    match lang {
        Language::Python => "]"@,
        Language::Rust => ">"@,
        _ => ""@,
    }
}

/// Whether a language has a type for a set of string literals.
pub open spec fn has_literal_types(lang: Language) -> bool {
    lang == Language::Ts || lang == Language::Python
}

/// What a language writes before a set of string literals.
pub open spec fn literal_open(lang: Language) -> Seq<char> {
    match lang {
        Language::Python => "Literal["@,
        _ => ""@,
    }
}

/// What a language writes between two string literals of a set.
pub open spec fn literal_separator(lang: Language) -> Seq<char> {
    match lang {
        Language::Python => ", "@,
        _ => " | "@,
    }
}

/// What a language writes behind a set of string literals.
pub open spec fn literal_close(lang: Language) -> Seq<char> {
    match lang {
        Language::Python => "]"@,
        _ => ""@,
    }
}

/// What a language writes before the type of an optional value.
pub open spec fn optional_open(lang: Language) -> Seq<char> {
    match lang {
        Language::Ts => ""@,
        Language::Python => "Optional["@,
        Language::Go => "*"@,
        Language::Rust => "Option<"@,
    }
}

/// What a language writes behind the type of an optional value.
pub open spec fn optional_close(lang: Language) -> Seq<char> {
    match lang {
        Language::Ts => " | null"@,
        Language::Python => "]"@,
        Language::Go => ""@,
        Language::Rust => ">"@,
    }
}

/// The most permissive type of a language, as text.
pub fn any_type_str(lang: Language) -> (s: &'static str)
    ensures
        s@ == any_type(lang),
{
    match lang {
        Language::Ts => "any",
        Language::Python => "Any",
        Language::Go => "interface{}",
        Language::Rust => "serde_json::Value",
    }
}

/// The built-in type that a language has for a primitive kind, as text.
pub fn scalar_type_str(lang: Language, kind: InstanceType) -> (s: &'static str)
    ensures
        s@ == scalar_type(lang, kind),
{
    match lang {
        Language::Ts => match kind {
            InstanceType::String => "string",
            InstanceType::Integer => "number",
            InstanceType::Number => "number",
            InstanceType::Boolean => "boolean",
            InstanceType::Null => "null",
            _ => any_type_str(lang),
        },
        Language::Python => match kind {
            InstanceType::String => "str",
            InstanceType::Integer => "int",
            InstanceType::Number => "float",
            InstanceType::Boolean => "bool",
            InstanceType::Null => "None",
            _ => any_type_str(lang),
        },
        Language::Go => match kind {
            InstanceType::String => "string",
            InstanceType::Integer => "int64",
            InstanceType::Number => "float64",
            InstanceType::Boolean => "bool",
            _ => any_type_str(lang),
        },
        Language::Rust => match kind {
            InstanceType::String => "String",
            InstanceType::Integer => "i64",
            InstanceType::Number => "f64",
            InstanceType::Boolean => "bool",
            InstanceType::Null => "Option<serde_json::Value>",
            _ => any_type_str(lang),
        },
    }
}

/// What a language writes before the item type of a sequence, as text.
pub fn sequence_open_str(lang: Language) -> (s: &'static str)
    ensures
        s@ == sequence_open(lang),
{
    match lang {
        Language::Ts => "",
        Language::Python => "List[",
        Language::Go => "[]",
        Language::Rust => "Vec<",
    }
}

/// What a language writes behind the item type of a sequence, as text.
pub fn sequence_close_str(lang: Language) -> (s: &'static str)
    ensures
        s@ == sequence_close(lang),
{
    match lang {
        Language::Ts => "[]",
        Language::Python => "]",
        Language::Go => "",
        Language::Rust => ">",
    }
}

/// What a language writes before the value type of a map, as text.
pub fn map_open_str(lang: Language) -> (s: &'static str)
    ensures
        s@ == map_open(lang),
{
    match lang {
        Language::Ts => "Record<string, ",
        Language::Python => "Dict[str, ",
        Language::Go => "map[string]",
        Language::Rust => "std::collections::HashMap<String, ",
    }
}

/// What a language writes behind the value type of a map, as text.
pub fn map_close_str(lang: Language) -> (s: &'static str)
    ensures
        s@ == map_close(lang),
{
    match lang {
        Language::Ts => ">",
        Language::Python => "]",
        Language::Go => "",
        Language::Rust => ">",
    }
}

/// What a language writes before the alternatives of a union, as text.
pub fn union_open_str(lang: Language) -> (s: &'static str)
    ensures
        s@ == union_open(lang),
{
    match lang {
        Language::Python => "Union[",
        Language::Rust => "std::vec::Vec<",
        _ => "",
    }
}

/// What a language writes between two alternatives of a union, as text.
pub fn union_separator_str(lang: Language) -> (s: &'static str)
    ensures
        s@ == union_separator(lang),
{
    match lang {
        Language::Python => ", ",
        _ => " | ",
    }
}

/// What a language writes behind the alternatives of a union, as text.
pub fn union_close_str(lang: Language) -> (s: &'static str)
    ensures
        s@ == union_close(lang),
{
    match lang {
        Language::Python => "]",
        Language::Rust => ">",
        _ => "",
    }
}

/// What a language writes before a set of string literals, as text.
pub fn literal_open_str(lang: Language) -> (s: &'static str)
    ensures
        s@ == literal_open(lang),
{
    match lang {
        Language::Python => "Literal[",
        _ => "",
    }
}

/// What a language writes between two string literals, as text.
pub fn literal_separator_str(lang: Language) -> (s: &'static str)
    ensures
        s@ == literal_separator(lang),
{
    match lang {
        Language::Python => ", ",
        _ => " | ",
    }
}

/// What a language writes behind a set of string literals, as text.
pub fn literal_close_str(lang: Language) -> (s: &'static str)
    ensures
        s@ == literal_close(lang),
{
    match lang {
        Language::Python => "]",
        _ => "",
    }
}

/// What a language writes before the type of an optional value, as text.
pub fn optional_open_str(lang: Language) -> (s: &'static str)
    ensures
        s@ == optional_open(lang),
{
    match lang {
        Language::Ts => "",
        Language::Python => "Optional[",
        Language::Go => "*",
        Language::Rust => "Option<",
    }
}

/// What a language writes behind the type of an optional value, as text.
pub fn optional_close_str(lang: Language) -> (s: &'static str)
    ensures
        s@ == optional_close(lang),
{
    match lang {
        Language::Ts => " | null",
        Language::Python => "]",
        Language::Go => "",
        Language::Rust => ">",
    }
}

/// The type of an optional value is longer than the type of the value, and
/// taking away what was written around it gives the type of the value back.
pub proof fn lemma_optional_wrap_reversible(lang: Language, ty: Seq<char>)
    ensures
        ({
            let wrapped = optional_open(lang) + ty + optional_close(lang);
            &&& wrapped.len() == optional_open(lang).len() + ty.len() + optional_close(lang).len()
            &&& wrapped.len() > ty.len()
            &&& wrapped != ty
            &&& wrapped.subrange(
                optional_open(lang).len() as int,
                wrapped.len() - optional_close(lang).len(),
            ) == ty
        }),
{
    reveal_strlit("");
    reveal_strlit("Optional[");
    reveal_strlit("*");
    reveal_strlit("Option<");
    reveal_strlit(" | null");
    reveal_strlit("]");
    reveal_strlit(">");
    let wrapped = optional_open(lang) + ty + optional_close(lang);
}

} // verus!
