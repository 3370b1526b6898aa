//! What the emitter is handed: the names and type expressions of the fields
//! of a catalog entry in each language, the metadata of the bindings, and
//! the files that one language gets.
use vstd::prelude::*;
use vstd::string::StringExecFns;
use crate::error::GenError;
use crate::error::GenErrorView;
use crate::mapper::build_context;
use crate::mapper::LanguageContext;
use crate::mapper::LanguageContextView;
use crate::mapper::name_table;
use crate::mapper::type_expr;
use crate::openrpc::OpenRpc;
use crate::resolver::ResolvedField;
use crate::resolver::ResolvedFieldView;
use crate::resolver::ResolvedType;
use crate::syntax::Language;
use crate::syntax::language_of;
use crate::syntax::lemma_optional_wrap_reversible;
use crate::syntax::optional_close;
use crate::syntax::optional_open;

verus! {

/// A type expression as a field renders it: as it is where the field is
/// required, in the optional idiom of the context's language where it is
/// not.
pub open spec fn maybe_optional_spec(
    ty: Seq<char>,
    required: bool,
    ctx: LanguageContextView,
) -> Seq<char> {
    if required {
        ty
    } else {
        ctx.wrap_optional(ty)
    }
}

/// The type expression of a field in a language.
pub open spec fn field_type_expr(
    lang: Language,
    field: ResolvedFieldView,
    ctx: LanguageContextView,
) -> Seq<char> {
    maybe_optional_spec(type_expr(lang, field.schema, ctx), field.required, ctx)
}

/// The one place where optionality is decided: a required field keeps its
/// type expression, an optional one gets it wrapped.
pub fn maybe_optional(ty: String, required: bool, ctx: &LanguageContext) -> (res: String)
    ensures
        res@ == maybe_optional_spec(ty@, required, ctx@),
{
    if required {
        ty
    } else {
        ctx.wrap_optional(ty.as_str())
    }
}

/// In a context of one of the four languages, the type of an optional
/// field is the type of the same field when required with the language's
/// optional idiom around it; it is longer, and taking the idiom away gives
/// the required form back.
pub proof fn lemma_optional_field_wraps_required(
    lang: Language,
    field: ResolvedFieldView,
    ctx: LanguageContextView,
)
    requires
        language_of(ctx.language) == Some(lang),
    ensures
        ({
            let required = field_type_expr(
                lang,
                ResolvedFieldView { name: field.name, schema: field.schema, required: true },
                ctx,
            );
            let optional = field_type_expr(
                lang,
                ResolvedFieldView { name: field.name, schema: field.schema, required: false },
                ctx,
            );
            &&& required == type_expr(lang, field.schema, ctx)
            &&& optional == optional_open(lang) + required + optional_close(lang)
            &&& optional.len() > required.len()
            &&& optional.subrange(
                optional_open(lang).len() as int,
                optional.len() - optional_close(lang).len(),
            ) == required
        }),
{
    lemma_optional_wrap_reversible(lang, type_expr(lang, field.schema, ctx));
}

impl ResolvedField {
    /// The field's name in TypeScript.
    pub fn ts_name(&self) -> (res: String)
        ensures
            res@ == crate::mapper::ts::field_name_spec(self.name@),
    {
        crate::mapper::ts::field_name(self.name.as_str())
    }

    /// The field's name in Python.
    pub fn python_name(&self) -> (res: String)
        ensures
            res@ == self.name@,
    {
        crate::mapper::python::field_name(self.name.as_str())
    }

    /// The field's name in Go.
    pub fn go_name(&self) -> (res: String)
        ensures
            res@ == crate::mapper::sanitize_identifier_spec(self.name@),
    {
        crate::mapper::go::field_name(self.name.as_str())
    }

    /// The field's name in Rust.
    pub fn rust_name(&self) -> (res: String)
        ensures
            res@ == crate::mapper::rust::field_name_spec(self.name@),
    {
        crate::mapper::rust::field_name(self.name.as_str())
    }

    /// The field's type in TypeScript.
    pub fn ts_type(&self, ctx: &LanguageContext) -> (res: String)
        ensures
            res@ == field_type_expr(Language::Ts, self@, ctx@),
    {
        maybe_optional(crate::mapper::ts::map_type(&self.schema, ctx), self.required, ctx)
    }

    /// The field's type in Python.
    pub fn python_type(&self, ctx: &LanguageContext) -> (res: String)
        ensures
            res@ == field_type_expr(Language::Python, self@, ctx@),
    {
        maybe_optional(crate::mapper::python::map_type(&self.schema, ctx), self.required, ctx)
    }

    /// The field's type in Go.
    pub fn go_type(&self, ctx: &LanguageContext) -> (res: String)
        ensures
            res@ == field_type_expr(Language::Go, self@, ctx@),
    {
        maybe_optional(crate::mapper::go::map_type(&self.schema, ctx), self.required, ctx)
    }

    /// The field's type in Rust.
    pub fn rust_type(&self, ctx: &LanguageContext) -> (res: String)
        ensures
            res@ == field_type_expr(Language::Rust, self@, ctx@),
    {
        maybe_optional(crate::mapper::rust::map_type(&self.schema, ctx), self.required, ctx)
    }
}

/// What the bindings say about themselves.
#[derive(Debug, PartialEq, Eq)]
pub struct BindingMetadata {
    pub version: String,
}

/// The version of bindings whose document states none.
pub open spec fn default_version() -> Seq<char> {
    "0.1.0"@
}

impl BindingMetadata {
    /// The metadata of the bindings of a document: its version, or the
    /// default version where it states none.
    pub fn from_openrpc(spec: &OpenRpc) -> (res: Self)
        ensures
            res.version@ == (match spec.declared_version() {
                Some(version) => version,
                None => default_version(),
            }),
    {
        let declared = match &spec.info {
            Some(info) => match &info.version {
                Some(version) => Some(version.clone()),
                None => None,
            },
            None => None,
        };
        match declared {
            Some(version) => BindingMetadata { version },
            None => BindingMetadata { version: String::from_str("0.1.0") },
        }
    }
}

/// One file of the bindings: its name inside the language's directory, and
/// its text.
#[derive(Debug, PartialEq, Eq)]
pub struct GeneratedFile {
    pub name: String,
    pub content: String,
}

impl GeneratedFile {
    /// A file of the given name and text.
    pub fn new(name: &str, content: String) -> (res: Self)
        ensures
            res.name@ == name@,
            res.content@ == content@,
    {
        GeneratedFile { name: String::from_str(name), content }
    }
}

/// The name of the file that holds a language's type declarations.
pub open spec fn types_file(lang: Language) -> Seq<char> {
    match lang {
        Language::Ts => "types.ts"@,
        Language::Python => "types.py"@,
        Language::Go => "types.go"@,
        Language::Rust => "types.rs"@,
    }
}

/// The name of the file that holds a language's package manifest.
pub open spec fn manifest_file(lang: Language) -> Seq<char> {
    match lang {
        Language::Ts => "package.json"@,
        Language::Python => "pyproject.toml"@,
        Language::Go => "go.mod"@,
        Language::Rust => "Cargo.toml"@,
    }
}

/// The language that is to be generated under a name; a name that stands
/// for no language with a mapper is refused.
pub fn select_language(lang: &str) -> (res: Result<Language, GenError>)
    ensures
        match res {
            Ok(language) => language_of(lang@) == Some(language),
            Err(e) => language_of(lang@).is_none() && e@ == GenErrorView::UnsupportedLanguage(
                lang@,
            ),
        },
{
    match Language::parse(lang) {
        Some(language) => Ok(language),
        None => Err(GenError::UnsupportedLanguage(String::from_str(lang))),
    }
}

/// The two files of a language, from their rendered texts: the type
/// declarations first, the package manifest second.
pub fn package_artifacts(language: Language, types: String, manifest: String) -> (files: Vec<
    GeneratedFile,
>)
    ensures
        files.len() == 2,
        files[0].name@ == types_file(language),
        files[0].content@ == types@,
        files[1].name@ == manifest_file(language),
        files[1].content@ == manifest@,
{
    let (types_name, manifest_name) = match language {
        Language::Ts => ("types.ts", "package.json"),
        Language::Python => ("types.py", "pyproject.toml"),
        Language::Go => ("types.go", "go.mod"),
        Language::Rust => ("types.rs", "Cargo.toml"),
    };
    let mut files: Vec<GeneratedFile> = Vec::new();
    files.push(GeneratedFile::new(types_name, types));
    files.push(GeneratedFile::new(manifest_name, manifest));
    files
}

/// What `str::to_lowercase` of std makes of a string.
pub uninterp spec fn lowercase(s: Seq<char>) -> Seq<char>;

/// `str::to_lowercase` of std: the lower-case equivalent of a string as
/// Unicode defines it, which depends on the string alone.
pub assume_specification[ str::to_lowercase ](s: &str) -> (res: String)
    ensures
        res@ == lowercase(s@),
;

/// What generating one language starts from: its normalized name, the
/// language, and its naming context.
#[derive(Debug)]
pub struct LanguageJob {
    pub lang: String,
    pub language: Language,
    pub context: LanguageContext,
}

/// The job for a language name that is in lower case already: the naming
/// context of the catalog for it, and the language it stands for. A name
/// that stands for no language with a mapper is refused.
pub fn plan_language(types: &[ResolvedType], lang: &str) -> (res: Result<LanguageJob, GenError>)
    ensures
        match res {
            Ok(job) => {
                &&& job.lang@ == lang@
                &&& language_of(lang@) == Some(job.language)
                &&& job.context@.language == lang@
                &&& job.context@.type_names == name_table(types.deep_view())
                &&& job.context@.sanitized()
            },
            Err(e) => language_of(lang@).is_none() && e@ == GenErrorView::UnsupportedLanguage(
                lang@,
            ),
        },
{
    let context = build_context(types, lang);
    let language = match select_language(lang) {
        Ok(language) => language,
        Err(e) => {
            return Err(e);
        },
    };
    Ok(LanguageJob { lang: String::from_str(lang), language, context })
}

/// The job for a language as it was requested, in whatever case.
pub fn plan_requested_language(types: &[ResolvedType], requested: &str) -> (res: Result<
    LanguageJob,
    GenError,
>)
    ensures
        match res {
            Ok(job) => {
                &&& job.lang@ == lowercase(requested@)
                &&& language_of(lowercase(requested@)) == Some(job.language)
                &&& job.context@.language == lowercase(requested@)
                &&& job.context@.type_names == name_table(types.deep_view())
                &&& job.context@.sanitized()
            },
            Err(e) => language_of(lowercase(requested@)).is_none() && e@
                == GenErrorView::UnsupportedLanguage(lowercase(requested@)),
        },
{
    let lang = requested.to_lowercase();
    plan_language(types, lang.as_str())
}

} // verus!
