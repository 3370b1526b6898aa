//! The naming context of one target language, the identifier sanitizer, and
//! the classification of a schema shape that the four language mappers share.
use vstd::prelude::*;
use vstd::string::StringExecFns;
use crate::resolver::first_item;
use crate::resolver::first_item_of;
use crate::resolver::last_segment;
use crate::resolver::lemma_last_segment;
use crate::resolver::ref_to_name;
use crate::resolver::ResolvedType;
use crate::resolver::ResolvedTypeView;
use crate::schema::AdditionalProperties;
use crate::schema::AdditionalPropertiesView;
use crate::schema::enum_values_view;
use crate::schema::EnumValue;
use crate::schema::EnumValueView;
use crate::schema::InstanceType;
use crate::schema::InstanceTypes;
use crate::schema::InstanceTypesView;
use crate::schema::lemma_schemas_deep_view;
use crate::schema::Schema;
use crate::schema::SchemaObject;
use crate::schema::SchemaObjectView;
use crate::schema::SchemaView;
use crate::syntax::any_type;
use crate::syntax::any_type_str;
use crate::syntax::has_literal_types;
use crate::syntax::Language;
use crate::syntax::language_of;
use crate::syntax::literal_close;
use crate::syntax::literal_close_str;
use crate::syntax::literal_open;
use crate::syntax::literal_open_str;
use crate::syntax::literal_separator;
use crate::syntax::literal_separator_str;
use crate::syntax::map_close;
use crate::syntax::map_close_str;
use crate::syntax::map_open;
use crate::syntax::map_open_str;
use crate::syntax::optional_close;
use crate::syntax::optional_open;
use crate::syntax::scalar_type;
use crate::syntax::scalar_type_str;
use crate::syntax::sequence_close;
use crate::syntax::sequence_close_str;
use crate::syntax::sequence_open;
use crate::syntax::sequence_open_str;
use crate::syntax::union_close;
use crate::syntax::union_close_str;
use crate::syntax::union_open;
use crate::syntax::union_open_str;
use crate::syntax::union_separator;
use crate::syntax::union_separator_str;
use crate::text::ascii_upper;
use crate::text::enclose;
use crate::text::is_alnum;
use crate::text::join;
use crate::text::join_strings;

pub mod go;
pub mod python;
pub mod rust;
pub mod ts;

verus! {

/// The character at `i` starts a word: it is the first character, or the
/// character before it is a separator.
pub open spec fn starts_word(s: Seq<char>, i: int) -> bool {
    i == 0 || !is_alnum(s[i - 1])
}

/// The alphanumeric characters of `s` in order, each one that starts a word in
/// upper case. Separators are dropped.
pub open spec fn sanitized_chars(s: Seq<char>) -> Seq<char>
    decreases s.len(),
{
    if s.len() == 0 {
        Seq::empty()
    } else {
        let before = sanitized_chars(s.drop_last());
        let c = s.last();
        if !is_alnum(c) {
            before
        } else if starts_word(s, s.len() - 1) {
            before.push(ascii_upper(c))
        } else {
            before.push(c)
        }
    }
}

/// The identifier that stands for a name without any alphanumeric character.
pub open spec fn placeholder() -> Seq<char> {
    "Type"@
}

/// The identifier made from `s`: its sanitized characters, or the placeholder
/// where there are none.
pub open spec fn sanitize_identifier_spec(s: Seq<char>) -> Seq<char> {
    if sanitized_chars(s).len() == 0 {
        placeholder()
    } else {
        sanitized_chars(s)
    }
}

/// An input without alphanumeric characters has no sanitized characters.
pub proof fn lemma_separators_only(s: Seq<char>)
    requires
        forall|i: int| 0 <= i < s.len() ==> !is_alnum(s[i]),
    ensures
        sanitized_chars(s) == Seq::<char>::empty(),
        sanitize_identifier_spec(s) == placeholder(),
    decreases s.len(),
{
    if s.len() > 0 {
        lemma_separators_only(s.drop_last());
    }
}

/// Sanitized characters are ASCII alphanumeric, and there are as many of them
/// as the input has alphanumeric characters at most.
pub proof fn lemma_sanitized_chars_alphanumeric(s: Seq<char>)
    ensures
        sanitized_chars(s).len() <= s.len(),
        forall|i: int|
            0 <= i < sanitized_chars(s).len() ==> is_alnum(
                #[trigger] sanitized_chars(s)[i],
            ),
    decreases s.len(),
{
    if s.len() > 0 {
        lemma_sanitized_chars_alphanumeric(s.drop_last());
    }
}

/// An input with an alphanumeric character has a sanitized character.
pub proof fn lemma_alphanumeric_is_kept(s: Seq<char>, i: int)
    requires
        0 <= i < s.len(),
        is_alnum(s[i]),
    ensures
        sanitized_chars(s).len() > 0,
    decreases s.len(),
{
    if i < s.len() - 1 {
        lemma_alphanumeric_is_kept(s.drop_last(), i);
    }
}

/// The sanitizer's output holds only ASCII alphanumeric characters, whatever
/// the input, and is never empty.
pub proof fn lemma_sanitize_identifier_alphanumeric(s: Seq<char>)
    ensures
        sanitize_identifier_spec(s).len() > 0,
        forall|i: int|
            0 <= i < sanitize_identifier_spec(s).len() ==> is_alnum(
                #[trigger] sanitize_identifier_spec(s)[i],
            ),
{
    lemma_sanitized_chars_alphanumeric(s);
    reveal_strlit("Type");
}

/// The sanitizer gives the placeholder exactly for the inputs without an
/// alphanumeric character.
pub proof fn lemma_placeholder_iff_separators_only(s: Seq<char>)
    ensures
        (forall|i: int| 0 <= i < s.len() ==> !is_alnum(s[i]))
            ==> sanitize_identifier_spec(s) == placeholder(),
        (exists|i: int| 0 <= i < s.len() && is_alnum(s[i])) ==> sanitize_identifier_spec(
            s,
        ) == sanitized_chars(s),
{
    if forall|i: int| 0 <= i < s.len() ==> !is_alnum(s[i]) {
        lemma_separators_only(s);
    }
    if exists|i: int| 0 <= i < s.len() && is_alnum(s[i]) {
        let i = choose|i: int| 0 <= i < s.len() && is_alnum(s[i]);
        lemma_alphanumeric_is_kept(s, i);
    }
}

/// The first character of an identifier is never a lower-case letter.
pub proof fn lemma_sanitized_head(s: Seq<char>)
    ensures
        ascii_upper(sanitize_identifier_spec(s)[0]) == sanitize_identifier_spec(s)[0],
        sanitized_chars(s).len() > 0 ==> ascii_upper(sanitized_chars(s)[0]) == sanitized_chars(
            s,
        )[0],
    decreases s.len(),
{
    reveal_strlit("Type");
    if s.len() > 0 {
        let shorter = s.drop_last();
        lemma_sanitized_head(shorter);
        if sanitized_chars(shorter).len() == 0 && is_alnum(s.last()) {
            if s.len() > 1 {
                if is_alnum(s[s.len() - 2]) {
                    lemma_alphanumeric_is_kept(shorter, s.len() - 2);
                }
            }
        }
    }
}

/// Turns an arbitrary name into an identifier: alphanumeric characters are
/// kept, each first one of a word in upper case; every other character only
/// separates words. A name without alphanumeric characters becomes `Type`.
pub fn sanitize_identifier(name: &str) -> (out: String)
    ensures
        out@ == sanitize_identifier_spec(name@),
        out@.len() > 0,
        forall|i: int| 0 <= i < out@.len() ==> is_alnum(out@[i]),
        (forall|i: int| 0 <= i < name@.len() ==> !is_alnum(name@[i])) ==> out@
            == placeholder(),
{
    let mut out = String::new();
    let mut capitalize = true;
    for ch in it: name.chars()
        invariant
            it.seq() == name@,
            out@ == sanitized_chars(name@.take(it.index() as int)),
            capitalize == starts_word(name@, it.index() as int),
    {
        assert(name@.take(it.index() + 1).drop_last() =~= name@.take(it.index() as int));
        if ch.is_ascii_alphanumeric() {
            if capitalize {
                out.push(ch.to_ascii_uppercase());
                capitalize = false;
            } else {
                out.push(ch);
            }
        } else {
            capitalize = true;
        }
    }
    proof {
        assert(name@.take(name@.len() as int) =~= name@);
        lemma_sanitize_identifier_alphanumeric(name@);
        lemma_placeholder_iff_separators_only(name@);
    }
    if out.as_str().is_empty() {
        String::from_str("Type")
    } else {
        out
    }
}

/// One row of a name table.
#[derive(Debug)]
struct NameEntry {
    raw: String,
    display: String,
}

/// The naming context of one target language: the language, and for every
/// type of the catalog the name under which the language knows it.
#[derive(Debug)]
pub struct LanguageContext {
    type_names: Vec<NameEntry>,
    language: String,
}

/// What `LanguageContext` stands for: its language, and its name table as
/// a map from declared names to display names.
pub struct LanguageContextView {
    pub type_names: Map<Seq<char>, Seq<char>>,
    pub language: Seq<char>,
}

/// The table that a list of rows stands for. A later row replaces an
/// earlier one of the same name.
spec fn table_of(entries: Seq<NameEntry>) -> Map<Seq<char>, Seq<char>>
    decreases entries.len(),
{
    if entries.len() == 0 {
        Map::empty()
    } else {
        table_of(entries.drop_last()).insert(entries.last().raw@, entries.last().display@)
    }
}

impl View for LanguageContext {
    type V = LanguageContextView;

    closed spec fn view(&self) -> LanguageContextView {
        LanguageContextView { type_names: table_of(self.type_names@), language: self.language@ }
    }
}

impl LanguageContextView {
    /// The display name of a type: the one in the table, or the sanitized
    /// name where the table has none.
    pub open spec fn type_ident(self, raw: Seq<char>) -> Seq<char> {
        if self.type_names.contains_key(raw) {
            self.type_names[raw]
        } else {
            sanitize_identifier_spec(raw)
        }
    }

    /// A type expression in the optional idiom of the context's language.
    /// A language without a mapper leaves it as it is.
    pub open spec fn wrap_optional(self, ty: Seq<char>) -> Seq<char> {
        match language_of(self.language) {
            Some(lang) => optional_open(lang) + ty + optional_close(lang),
            None => ty,
        }
    }

    /// Every display name of the table is the sanitized form of the name
    /// it stands for.
    pub open spec fn sanitized(self) -> bool {
        forall|raw: Seq<char>| #[trigger]
            self.type_names.contains_key(raw) ==> self.type_names[raw]
                == sanitize_identifier_spec(raw)
    }
}

/// The names of the catalog's types.
pub open spec fn catalog_names(types: Seq<ResolvedTypeView>) -> Set<Seq<char>> {
    types.map_values(|t: ResolvedTypeView| t.name).to_set()
}

/// The name table of a catalog: each of its names, with its sanitized form.
pub open spec fn name_table(types: Seq<ResolvedTypeView>) -> Map<Seq<char>, Seq<char>> {
    Map::new(
        |raw: Seq<char>| catalog_names(types).contains(raw),
        |raw: Seq<char>| sanitize_identifier_spec(raw),
    )
}

impl LanguageContext {
    /// Each row holds a name and its sanitized form.
    #[verifier::type_invariant]
    spec fn rows_sanitized(self) -> bool {
        forall|i: int|
            0 <= i < self.type_names@.len() ==> (#[trigger] self.type_names@[i]).display@
                == sanitize_identifier_spec(self.type_names@[i].raw@)
    }

    /// A table built from sanitized rows holds sanitized names.
    proof fn lemma_table_sanitized(entries: Seq<NameEntry>)
        requires
            forall|i: int|
                0 <= i < entries.len() ==> (#[trigger] entries[i]).display@
                    == sanitize_identifier_spec(entries[i].raw@),
        ensures
            forall|raw: Seq<char>| #[trigger]
                table_of(entries).contains_key(raw) ==> table_of(entries)[raw]
                    == sanitize_identifier_spec(raw),
        decreases entries.len(),
    {
        if entries.len() > 0 {
            Self::lemma_table_sanitized(entries.drop_last());
            assert forall|raw: Seq<char>| #[trigger]
                table_of(entries).contains_key(raw) implies table_of(entries)[raw]
                == sanitize_identifier_spec(raw) by {
                if raw != entries.last().raw@ {
                    assert(table_of(entries.drop_last()).contains_key(raw));
                }
            }
        }
    }

    /// The display name of the type that is declared as `raw`.
    pub fn type_ident(&self, raw: &str) -> (res: String)
        ensures
            res@ == self@.type_ident(raw@),
            res@ == sanitize_identifier_spec(raw@),
            self@.sanitized(),
    {
        proof {
            use_type_invariant(self);
            Self::lemma_table_sanitized(self.type_names@);
        }
        let mut i: usize = self.type_names.len();
        assert(self.type_names@.take(i as int) =~= self.type_names@);
        while i > 0
            invariant
                i <= self.type_names.len(),
                self.rows_sanitized(),
                self@.sanitized(),
                table_of(self.type_names@).contains_key(raw@) == table_of(
                    self.type_names@.take(i as int),
                ).contains_key(raw@),
                table_of(self.type_names@).contains_key(raw@) ==> table_of(self.type_names@)[raw@]
                    == table_of(self.type_names@.take(i as int))[raw@],
            decreases i,
        {
            i -= 1;
            assert(self.type_names@.take(i as int + 1).drop_last() =~= self.type_names@.take(
                i as int,
            ));
            if self.type_names[i].raw.as_str().eq(raw) {
                return self.type_names[i].display.clone();
            }
        }
        sanitize_identifier(raw)
    }

    /// `ty` in the optional idiom of this context's language.
    pub fn wrap_optional(&self, ty: &str) -> (res: String)
        ensures
            res@ == self@.wrap_optional(ty@),
    {
        match Language::parse(self.language.as_str()) {
            Some(lang) => crate::text::enclose(
                crate::syntax::optional_open_str(lang),
                ty,
                crate::syntax::optional_close_str(lang),
            ),
            None => String::from_str(ty),
        }
    }

    /// The language that this context was built for.
    pub fn language(&self) -> (res: &str)
        ensures
            res@ == self@.language,
    {
        self.language.as_str()
    }
}

/// The naming context of a catalog for one language: every type of the
/// catalog gets its display name in that language.
pub fn build_context(types: &[ResolvedType], lang: &str) -> (ctx: LanguageContext)
    ensures
        ctx@.language == lang@,
        ctx@.type_names == name_table(types.deep_view()),
        ctx@.sanitized(),
{
    let mut type_names: Vec<NameEntry> = Vec::new();
    let mut i: usize = 0;
    while i < types.len()
        invariant
            i <= types.len(),
            forall|j: int|
                0 <= j < type_names@.len() ==> (#[trigger] type_names@[j]).display@
                    == sanitize_identifier_spec(type_names@[j].raw@),
            table_of(type_names@) == name_table(types.deep_view().take(i as int)),
        decreases types.len() - i,
    {
        let ty = &types[i];
        let name = match Language::parse(lang) {
            Some(Language::Ts) => ts::type_ident(ty.name.as_str()),
            Some(Language::Python) => python::type_ident(ty.name.as_str()),
            Some(Language::Go) => go::type_ident(ty.name.as_str()),
            Some(Language::Rust) => rust::type_ident(ty.name.as_str()),
            None => sanitize_identifier(ty.name.as_str()),
        };
        let ghost before = type_names@;
        type_names.push(NameEntry { raw: ty.name.clone(), display: name });
        proof {
            assert(type_names@.drop_last() =~= before);
            let upto = types.deep_view().take(i as int + 1);
            let shorter = types.deep_view().take(i as int);
            lemma_name_table_push(shorter, upto.last());
            assert(upto =~= shorter.push(upto.last()));
        }
        i += 1;
    }
    proof {
        assert(types.deep_view().take(types.len() as int) =~= types.deep_view());
        LanguageContext::lemma_table_sanitized(type_names@);
    }
    LanguageContext { type_names, language: String::from_str(lang) }
}

/// One more type in the catalog puts one more name into the table.
pub proof fn lemma_name_table_push(types: Seq<ResolvedTypeView>, added: ResolvedTypeView)
    ensures
        name_table(types.push(added)) == name_table(types).insert(
            added.name,
            sanitize_identifier_spec(added.name),
        ),
        name_table(Seq::empty()) == Map::<Seq<char>, Seq<char>>::empty(),
{
    let names = types.map_values(|t: ResolvedTypeView| t.name);
    let longer = types.push(added).map_values(|t: ResolvedTypeView| t.name);
    assert forall|raw: Seq<char>| longer.contains(raw) <==> (names.contains(raw) || raw
        == added.name) by {
        if longer.contains(raw) {
            let i = choose|i: int| 0 <= i < longer.len() && longer[i] == raw;
            if i < names.len() {
                assert(names[i] == raw);
            }
        }
        if names.contains(raw) {
            let i = choose|i: int| 0 <= i < names.len() && names[i] == raw;
            assert(longer[i] == raw);
        }
        if raw == added.name {
            assert(longer[longer.len() - 1] == raw);
        }
    }
}

/// The display name of the type that a node refers to: the name that its
/// reference ends in, as the context displays it. A node without a
/// reference refers to none.
pub open spec fn reference_type(node: SchemaObjectView, ctx: LanguageContextView) -> Option<
    Seq<char>,
> {
    match node.reference {
        Some(reference) => Some(ctx.type_ident(last_segment(reference))),
        None => None,
    }
}

/// The primitive kind of a node: its kind tag, or the first one of a list
/// of tags.
pub open spec fn primitive_kind(node: SchemaObjectView) -> Option<InstanceType> {
    match node.instance_type {
        Some(InstanceTypesView::Single(kind)) => Some(kind),
        Some(InstanceTypesView::Vec(kinds)) => if kinds.len() > 0 {
            Some(kinds[0])
        } else {
            None
        },
        None => None,
    }
}

/// The alternatives of the union that a node declares: those of its
/// "one of", else those of its "any of".
pub open spec fn union_members(node: SchemaObjectView) -> Option<Seq<SchemaView>> {
    match node.subschemas {
        Some(subschemas) => if subschemas.one_of.is_some() {
            subschemas.one_of
        } else {
            subschemas.any_of
        },
        None => None,
    }
}

/// A string literal as the target languages write it, between double
/// quotes.
pub open spec fn quoted(literal: Seq<char>) -> Seq<char> {
    "\""@ + literal + "\""@
}

/// The string literals among the values of an enumeration, each quoted.
pub open spec fn quoted_literals(values: Seq<EnumValueView>) -> Seq<Seq<char>>
    decreases values.len(),
{
    if values.len() == 0 {
        Seq::empty()
    } else {
        match values.last() {
            EnumValueView::String(literal) => quoted_literals(values.drop_last()).push(
                quoted(literal),
            ),
            EnumValueView::Other => quoted_literals(values.drop_last()),
        }
    }
}

/// The quoted string literals of a node that enumerates at least one
/// string literal. This is the same in every language.
pub open spec fn literal_variants(node: SchemaObjectView) -> Option<Seq<Seq<char>>> {
    match node.enum_values {
        Some(values) => if quoted_literals(values).len() > 0 {
            Some(quoted_literals(values))
        } else {
            None
        },
        None => None,
    }
}

/// A union of the given alternatives. Go has no union syntax and takes its
/// most permissive type.
pub open spec fn union_type(lang: Language, alternatives: Seq<Seq<char>>) -> Seq<char> {
    if lang == Language::Go {
        any_type(lang)
    } else {
        union_open(lang) + join(alternatives, union_separator(lang)) + union_close(lang)
    }
}

/// The type of the given string literals, in a language that has types
/// for string literals.
pub open spec fn literal_type(lang: Language, variants: Seq<Seq<char>>) -> Seq<char> {
    literal_open(lang) + join(variants, literal_separator(lang)) + literal_close(lang)
}

/// The type of an enumeration of the given string literals: the type of
/// these literals where the language has such types, and its plain string
/// type where it has none.
pub open spec fn enumeration_type(lang: Language, variants: Seq<Seq<char>>) -> Seq<char> {
    if has_literal_types(lang) {
        literal_type(lang, variants)
    } else {
        scalar_type(lang, InstanceType::String)
    }
}

/// A sequence of items of the given type.
pub open spec fn sequence_type(lang: Language, item: Seq<char>) -> Seq<char> {
    sequence_open(lang) + item + sequence_close(lang)
}

/// A map from strings to values of the given type.
pub open spec fn map_type_of(lang: Language, value: Seq<char>) -> Seq<char> {
    map_open(lang) + value + map_close(lang)
}

/// The type expression of a node in a language. The first of these that
/// applies decides, in every language alike: a reference, a union, an
/// enumeration of string literals, an array, an object, a scalar kind; the
/// most permissive type where none does.
pub open spec fn type_expr(lang: Language, node: SchemaObjectView, ctx: LanguageContextView) -> Seq<
    char,
>
    decreases node, 1nat,
{
    if reference_type(node, ctx).is_some() {
        reference_type(node, ctx).unwrap()
    } else if union_members(node).is_some() {
        union_type(lang, type_exprs(lang, union_members(node).unwrap(), ctx))
    } else if literal_variants(node).is_some() {
        enumeration_type(lang, literal_variants(node).unwrap())
    } else {
        match primitive_kind(node) {
            Some(InstanceType::Array) => sequence_type(lang, item_type_expr(lang, node, ctx)),
            Some(InstanceType::Object) => map_type_of(lang, value_type_expr(lang, node, ctx)),
            Some(kind) => scalar_type(lang, kind),
            None => any_type(lang),
        }
    }
}

/// The type of the items of an array node: that of its item schema, or the
/// most permissive type where it declares none.
pub open spec fn item_type_expr(
    lang: Language,
    node: SchemaObjectView,
    ctx: LanguageContextView,
) -> Seq<char>
    decreases node, 0nat,
{
    match node.array {
        Some(array) => match first_item(array) {
            Some(item) => schema_type_expr(lang, item, ctx),
            None => any_type(lang),
        },
        None => any_type(lang),
    }
}

/// The type of the values of an object node that is read as a map: that of
/// its additional-properties schema; a map of anything where it only says
/// `true`; the most permissive type where it says `false` or nothing.
pub open spec fn value_type_expr(
    lang: Language,
    node: SchemaObjectView,
    ctx: LanguageContextView,
) -> Seq<char>
    decreases node, 0nat,
{
    match node.object {
        Some(object) => match object.additional_properties {
            Some(AdditionalPropertiesView::Schema(schema)) => schema_type_expr(lang, *schema, ctx),
            Some(AdditionalPropertiesView::Bool(true)) => map_type_of(lang, any_type(lang)),
            _ => any_type(lang),
        },
        None => any_type(lang),
    }
}

/// The type expression of a raw schema: that of its normalized node.
pub open spec fn schema_type_expr(lang: Language, schema: SchemaView, ctx: LanguageContextView) -> Seq<
    char,
>
    decreases schema, 0nat,
{
    match schema {
        SchemaView::Bool(_) => any_type(lang),
        SchemaView::Object(node) => type_expr(lang, node, ctx),
    }
}

/// The type expression of each schema of a list.
pub open spec fn type_exprs(
    lang: Language,
    schemas: Seq<SchemaView>,
    ctx: LanguageContextView,
) -> Seq<Seq<char>>
    decreases schemas, 0nat,
{
    Seq::new(
        schemas.len(),
        |i: int|
            if 0 <= i < schemas.len() {
                schema_type_expr(lang, schemas[i], ctx)
            } else {
                arbitrary()
            },
    )
}

/// The display name of the type that a node refers to, where it refers to
/// one. A reference without a `/` names the type by all of itself.
pub fn map_reference(schema: &SchemaObject, ctx: &LanguageContext) -> (res: Option<String>)
    ensures
        res.deep_view() == reference_type(schema@, ctx@),
        ctx@.sanitized(),
{
    proof {
        use_type_invariant(ctx);
        LanguageContext::lemma_table_sanitized(ctx.type_names@);
    }
    match &schema.reference {
        Some(reference) => {
            let name = match ref_to_name(reference.as_str()) {
                Ok(name) => name,
                Err(_) => {
                    proof {
                        lemma_last_segment(reference@);
                        assert(reference@.skip(0) =~= reference@);
                    }
                    reference.clone()
                },
            };
            Some(ctx.type_ident(name.as_str()))
        },
        None => None,
    }
}

/// The primitive kind of a node, where it has one.
pub fn map_primitive(schema: &SchemaObject) -> (res: Option<InstanceType>)
    ensures
        res == primitive_kind(schema@),
{
    match &schema.instance_type {
        Some(types) => match types {
            InstanceTypes::Single(kind) => Some(*kind),
            InstanceTypes::Vec(list) => {
                if list.len() > 0 {
                    Some(list[0])
                } else {
                    None
                }
            },
        },
        None => None,
    }
}

/// The string literals among the values of an enumeration, each between
/// double quotes.
pub fn quote_literals(values: &Vec<EnumValue>) -> (res: Vec<String>)
    ensures
        res.deep_view() == quoted_literals(enum_values_view(values@)),
{
    let ghost all = enum_values_view(values@);
    let mut out: Vec<String> = Vec::new();
    let mut i: usize = 0;
    while i < values.len()
        invariant
            i <= values.len(),
            all == enum_values_view(values@),
            out.deep_view() == quoted_literals(all.take(i as int)),
        decreases values.len() - i,
    {
        assert(all.take(i as int + 1).drop_last() =~= all.take(i as int));
        match &values[i] {
            EnumValue::String(literal) => {
                out.push(enclose("\"", literal.as_str(), "\""));
            },
            EnumValue::Other => {},
        }
        i += 1;
    }
    assert(all.take(values.len() as int) =~= all);
    out
}

/// The item schema of an array is a part of the array's keywords.
proof fn lemma_first_item_is_part(array: crate::schema::ArrayValidationView)
    requires
        first_item(array).is_some(),
    ensures
        decreases_to!(array => first_item(array)->0),
{
}

/// The type expression of a node in a language. A node that refers to a
/// type has the sanitized name of that type, in every language.
pub fn render_type(lang: Language, schema: &SchemaObject, ctx: &LanguageContext) -> (res: String)
    ensures
        res@ == type_expr(lang, schema@, ctx@),
        schema@.reference.is_some() ==> res@ == sanitize_identifier_spec(
            last_segment(schema@.reference.unwrap()),
        ),
    decreases schema@, 1nat,
{
    if let Some(reference) = map_reference(schema, ctx) {
        return reference;
    }
    if let Some(subschemas) = &schema.subschemas {
        let members = if subschemas.one_of.is_some() {
            &subschemas.one_of
        } else {
            &subschemas.any_of
        };
        if let Some(options) = members {
            proof {
                lemma_schemas_deep_view(*options);
                let node = schema@;
                if node.subschemas->0.one_of.is_some() {
                    assert(decreases_to!(node.subschemas->0 => node.subschemas->0.one_of->0));
                } else {
                    assert(decreases_to!(node.subschemas->0 => node.subschemas->0.any_of->0));
                }
            }
            match lang {
                Language::Go => {
                    return String::from_str(any_type_str(lang));
                },
                _ => {
                    let parts = render_types(lang, options, ctx);
                    let joined = join_strings(&parts, union_separator_str(lang));
                    return enclose(union_open_str(lang), joined.as_str(), union_close_str(lang));
                },
            }
        }
    }
    if let Some(enum_values) = &schema.enum_values {
        let variants = quote_literals(enum_values);
        if variants.len() > 0 {
            match lang {
                Language::Ts | Language::Python => {
                    let joined = join_strings(&variants, literal_separator_str(lang));
                    return enclose(
                        literal_open_str(lang),
                        joined.as_str(),
                        literal_close_str(lang),
                    );
                },
                _ => {
                    return String::from_str(scalar_type_str(lang, InstanceType::String));
                },
            }
        }
    }
    match map_primitive(schema) {
        Some(InstanceType::Array) => {
            let inner = match &schema.array {
                Some(array) => match first_item_of(array) {
                    Some(item) => {
                        proof {
                            lemma_first_item_is_part(schema@.array->0);
                        }
                        render_schema_type(lang, item, ctx)
                    },
                    None => String::from_str(any_type_str(lang)),
                },
                None => String::from_str(any_type_str(lang)),
            };
            enclose(sequence_open_str(lang), inner.as_str(), sequence_close_str(lang))
        },
        Some(InstanceType::Object) => {
            let inner = match &schema.object {
                Some(object) => match &object.additional_properties {
                    Some(AdditionalProperties::Schema(additional)) => {
                        proof {
                            let declared = schema@.object->0.additional_properties->0;
                            assert(decreases_to!(declared => declared->Schema_0));
                        }
                        render_schema_type(lang, &**additional, ctx)
                    },
                    Some(AdditionalProperties::Bool(true)) => enclose(
                        map_open_str(lang),
                        any_type_str(lang),
                        map_close_str(lang),
                    ),
                    _ => String::from_str(any_type_str(lang)),
                },
                None => String::from_str(any_type_str(lang)),
            };
            enclose(map_open_str(lang), inner.as_str(), map_close_str(lang))
        },
        Some(kind) => String::from_str(scalar_type_str(lang, kind)),
        None => String::from_str(any_type_str(lang)),
    }
}

/// The type expression of a raw schema in a language.
pub fn render_schema_type(lang: Language, schema: &Schema, ctx: &LanguageContext) -> (res: String)
    ensures
        res@ == schema_type_expr(lang, schema@, ctx@),
    decreases schema@, 0nat,
{
    match schema {
        Schema::Bool(_) => String::from_str(any_type_str(lang)),
        Schema::Object(node) => {
            assert(schema@->Object_0 == node@);
            render_type(lang, node, ctx)
        },
    }
}

/// The type expression of each schema of a list.
pub fn render_types(lang: Language, schemas: &Vec<Schema>, ctx: &LanguageContext) -> (res: Vec<
    String,
>)
    ensures
        res.deep_view() == type_exprs(lang, schemas.deep_view(), ctx@),
    decreases schemas.deep_view(), 0nat,
{
    let mut out: Vec<String> = Vec::new();
    let mut i: usize = 0;
    while i < schemas.len()
        invariant
            i <= schemas.len(),
            out@.len() == i,
            forall|j: int|
                0 <= j < i ==> out@[j]@ == schema_type_expr(lang, schemas@[j]@, ctx@),
        decreases schemas.len() - i,
    {
        let member = &schemas[i];
        assert(schemas.deep_view()[i as int] == member@);
        out.push(render_schema_type(lang, member, ctx));
        i += 1;
    }
    out
}

/// A node that refers to a type renders as the sanitized name of that type:
/// in every language, whatever else the node declares, in every context
/// whose table holds sanitized names.
pub proof fn lemma_reference_renders_sanitized_name(
    lang: Language,
    node: SchemaObjectView,
    ctx: LanguageContextView,
)
    requires
        node.reference.is_some(),
        ctx.sanitized(),
    ensures
        type_expr(lang, node, ctx) == sanitize_identifier_spec(
            last_segment(node.reference.unwrap()),
        ),
        type_expr(lang, node, ctx) == type_expr(Language::Ts, node, ctx),
{
}

/// The table of a catalog holds sanitized names, for every language.
pub proof fn lemma_name_table_sanitized(types: Seq<ResolvedTypeView>, language: Seq<char>)
    ensures
        (LanguageContextView { type_names: name_table(types), language }).sanitized(),
{
}

/// An enumeration of string literals is classified alike in every language:
/// a node without reference and union that enumerates a string literal is
/// the type of its literals in TypeScript and Python and the plain string
/// type in Go and Rust, whatever kind, items or properties it declares.
pub proof fn lemma_enumeration_renders_alike(node: SchemaObjectView, ctx: LanguageContextView)
    requires
        node.reference.is_none(),
        union_members(node).is_none(),
        node.enum_values.is_some(),
        quoted_literals(node.enum_values.unwrap()).len() > 0,
    ensures
        type_expr(Language::Ts, node, ctx) == join(
            quoted_literals(node.enum_values.unwrap()),
            " | "@,
        ),
        type_expr(Language::Python, node, ctx) == "Literal["@ + join(
            quoted_literals(node.enum_values.unwrap()),
            ", "@,
        ) + "]"@,
        type_expr(Language::Go, node, ctx) == "string"@,
        type_expr(Language::Rust, node, ctx) == "String"@,
{
    reveal_strlit("");
    let variants = quoted_literals(node.enum_values.unwrap());
    assert(""@ + join(variants, " | "@) + ""@ =~= join(variants, " | "@));
}

/// The node that declares nothing has the most permissive type, so a
/// boolean schema renders as its normalized node does.
pub proof fn lemma_empty_node_is_any(lang: Language, ctx: LanguageContextView)
    ensures
        type_expr(lang, SchemaObjectView::empty(), ctx) == any_type(lang),
        forall|schema: SchemaView|
            #[trigger] schema_type_expr(lang, schema, ctx) == type_expr(
                lang,
                crate::resolver::normalize(schema),
                ctx,
            ),
{
}

/// An object that admits any additional property renders as a map of what
/// the object node renders as: a map of anything.
pub proof fn lemma_object_node_is_map_of_any(lang: Language, ctx: LanguageContextView)
    ensures
        type_expr(lang, crate::resolver::object_node(), ctx) == map_type_of(lang, any_type(lang)),
{
}

/// Mapping is repeatable: two calls of a mapper on nodes with the same view,
/// in contexts with the same view, give the same text.
pub proof fn lemma_map_type_repeatable(
    schema: &SchemaObject,
    ctx: &LanguageContext,
    again: &SchemaObject,
    again_ctx: &LanguageContext,
    first: String,
    second: String,
)
    requires
        schema@ == again@,
        ctx@ == again_ctx@,
    ensures
        call_ensures(ts::map_type, (schema, ctx), first) && call_ensures(
            ts::map_type,
            (again, again_ctx),
            second,
        ) ==> first@ == second@,
        call_ensures(python::map_type, (schema, ctx), first) && call_ensures(
            python::map_type,
            (again, again_ctx),
            second,
        ) ==> first@ == second@,
        call_ensures(go::map_type, (schema, ctx), first) && call_ensures(
            go::map_type,
            (again, again_ctx),
            second,
        ) ==> first@ == second@,
        call_ensures(rust::map_type, (schema, ctx), first) && call_ensures(
            rust::map_type,
            (again, again_ctx),
            second,
        ) ==> first@ == second@,
{
}

} // verus!
