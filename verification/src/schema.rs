//! The schema tree that the resolver and the type mappers walk.
//!
//! Every executable type here has a ghost counterpart whose name ends in
//! `View`: strings become `Seq<char>` and vectors become `Seq`, so that two
//! trees can be compared for equality in contracts. `x@` and `x.deep_view()`
//! both denote that counterpart.
use vstd::prelude::*;

verus! {

/// The primitive kind that a schema node may be tagged with.
#[derive(Clone, Copy, Debug, PartialEq, Eq, Structural)]
pub enum InstanceType {
    Null,
    Boolean,
    Object,
    Array,
    Number,
    String,
    Integer,
}

/// A kind tag is written either as one kind or as a list of kinds.
#[derive(Debug, PartialEq, Eq)]
pub enum InstanceTypes {
    Single(InstanceType),
    Vec(Vec<InstanceType>),
}

/// One literal of an enumeration. Only string literals are ever rendered,
/// so every other literal is kept as `Other`.
#[derive(Debug, PartialEq, Eq)]
pub enum EnumValue {
    String(String),
    Other,
}

/// A schema together with the name it is declared under: a property of an
/// object, or an entry of the named-schema section.
#[derive(Debug, PartialEq, Eq)]
pub struct NamedSchema {
    pub name: String,
    pub schema: Schema,
}

/// The item shape of an array: one schema for every item, or one per position.
#[derive(Debug, PartialEq, Eq)]
pub enum Items {
    Single(Box<Schema>),
    Vec(Vec<Schema>),
}

/// What an object says about properties it does not name.
#[derive(Debug, PartialEq, Eq)]
pub enum AdditionalProperties {
    Schema(Box<Schema>),
    Bool(bool),
}

/// The composition keywords of a node.
#[derive(Debug, PartialEq, Eq)]
pub struct SubschemaValidation {
    pub all_of: Option<Vec<Schema>>,
    pub any_of: Option<Vec<Schema>>,
    pub one_of: Option<Vec<Schema>>,
}

/// The array keywords of a node.
#[derive(Debug, PartialEq, Eq)]
pub struct ArrayValidation {
    pub items: Option<Items>,
}

/// The object keywords of a node. `properties` is kept in declaration order;
/// `required` is read as a set.
#[derive(Debug, PartialEq, Eq)]
pub struct ObjectValidation {
    pub required: Vec<String>,
    pub properties: Vec<NamedSchema>,
    pub additional_properties: Option<AdditionalProperties>,
}

/// A structured schema node.
#[derive(Debug, PartialEq, Eq)]
pub struct SchemaObject {
    pub instance_type: Option<InstanceTypes>,
    pub enum_values: Option<Vec<EnumValue>>,
    pub subschemas: Option<SubschemaValidation>,
    pub array: Option<ArrayValidation>,
    pub object: Option<ObjectValidation>,
    pub reference: Option<String>,
}

/// A raw schema node: a boolean marker or a structured node.
#[derive(Debug, PartialEq, Eq)]
pub enum Schema {
    Bool(bool),
    Object(SchemaObject),
}

/// What `InstanceTypes` stands for.
pub enum InstanceTypesView {
    Single(InstanceType),
    Vec(Seq<InstanceType>),
}

/// What `EnumValue` stands for.
pub enum EnumValueView {
    String(Seq<char>),
    Other,
}

/// What `NamedSchema` stands for.
pub struct NamedSchemaView {
    pub name: Seq<char>,
    pub schema: SchemaView,
}

/// What `Items` stands for.
pub enum ItemsView {
    Single(Box<SchemaView>),
    Vec(Seq<SchemaView>),
}

/// What `AdditionalProperties` stands for.
pub enum AdditionalPropertiesView {
    Schema(Box<SchemaView>),
    Bool(bool),
}

/// What `SubschemaValidation` stands for.
pub struct SubschemaValidationView {
    pub all_of: Option<Seq<SchemaView>>,
    pub any_of: Option<Seq<SchemaView>>,
    pub one_of: Option<Seq<SchemaView>>,
}

/// What `ArrayValidation` stands for.
pub struct ArrayValidationView {
    pub items: Option<ItemsView>,
}

/// What `ObjectValidation` stands for.
pub struct ObjectValidationView {
    pub required: Seq<Seq<char>>,
    pub properties: Seq<NamedSchemaView>,
    pub additional_properties: Option<AdditionalPropertiesView>,
}

/// What `SchemaObject` stands for.
pub struct SchemaObjectView {
    pub instance_type: Option<InstanceTypesView>,
    pub enum_values: Option<Seq<EnumValueView>>,
    pub subschemas: Option<SubschemaValidationView>,
    pub array: Option<ArrayValidationView>,
    pub object: Option<ObjectValidationView>,
    pub reference: Option<Seq<char>>,
}

/// What `Schema` stands for.
pub enum SchemaView {
    Bool(bool),
    Object(SchemaObjectView),
}

impl SchemaObjectView {
    /// The node that declares nothing at all.
    pub open spec fn empty() -> SchemaObjectView {
        SchemaObjectView {
            instance_type: None,
            enum_values: None,
            subschemas: None,
            array: None,
            object: None,
            reference: None,
        }
    }
}

/// The view of a kind tag.
pub open spec fn instance_types_view(t: InstanceTypes) -> InstanceTypesView {
    match t {
        InstanceTypes::Single(k) => InstanceTypesView::Single(k),
        InstanceTypes::Vec(v) => InstanceTypesView::Vec(v@),
    }
}

/// The view of one literal of an enumeration.
pub open spec fn enum_value_view(v: EnumValue) -> EnumValueView {
    match v {
        EnumValue::String(s) => EnumValueView::String(s@),
        EnumValue::Other => EnumValueView::Other,
    }
}

/// The views of the values of an enumeration.
pub open spec fn enum_values_view(values: Seq<EnumValue>) -> Seq<EnumValueView> {
    values.map_values(|e: EnumValue| enum_value_view(e))
}

/// The view of a raw schema node.
pub open spec fn schema_view(s: Schema) -> SchemaView
    decreases s,
{
    match s {
        Schema::Bool(b) => SchemaView::Bool(b),
        Schema::Object(o) => SchemaView::Object(schema_object_view(o)),
    }
}

/// The views of a list of schemas, in the same order.
pub open spec fn schemas_view(v: Seq<Schema>) -> Seq<SchemaView>
    decreases v,
{
    Seq::new(
        v.len(),
        |i: int|
            if 0 <= i < v.len() {
                schema_view(v[i])
            } else {
                arbitrary()
            },
    )
}

/// The view of a named schema.
pub open spec fn named_schema_view(p: NamedSchema) -> NamedSchemaView
    decreases p,
{
    NamedSchemaView { name: p.name@, schema: schema_view(p.schema) }
}

/// The views of a list of named schemas, in the same order.
pub open spec fn named_schemas_view(v: Seq<NamedSchema>) -> Seq<NamedSchemaView>
    decreases v,
{
    Seq::new(
        v.len(),
        |i: int|
            if 0 <= i < v.len() {
                named_schema_view(v[i])
            } else {
                arbitrary()
            },
    )
}

/// The view of an item shape.
pub open spec fn items_view(items: Items) -> ItemsView
    decreases items,
{
    match items {
        Items::Single(s) => ItemsView::Single(Box::new(schema_view(*s))),
        Items::Vec(v) => ItemsView::Vec(schemas_view(v@)),
    }
}

/// The view of an additional-properties shape.
pub open spec fn additional_properties_view(a: AdditionalProperties) -> AdditionalPropertiesView
    decreases a,
{
    match a {
        AdditionalProperties::Schema(s) => AdditionalPropertiesView::Schema(
            Box::new(schema_view(*s)),
        ),
        AdditionalProperties::Bool(b) => AdditionalPropertiesView::Bool(b),
    }
}

/// The view of a list of schemas that may be absent.
pub open spec fn optional_schemas_view(o: Option<Vec<Schema>>) -> Option<Seq<SchemaView>>
    decreases o,
{
    match o {
        Some(v) => Some(schemas_view(v@)),
        None => None,
    }
}

/// The view of the composition keywords.
pub open spec fn subschemas_view(s: SubschemaValidation) -> SubschemaValidationView
    decreases s,
{
    SubschemaValidationView {
        all_of: optional_schemas_view(s.all_of),
        any_of: optional_schemas_view(s.any_of),
        one_of: optional_schemas_view(s.one_of),
    }
}

/// The view of the array keywords.
pub open spec fn array_view(a: ArrayValidation) -> ArrayValidationView
    decreases a,
{
    ArrayValidationView {
        items: match a.items {
            Some(items) => Some(items_view(items)),
            None => None,
        },
    }
}

/// The view of the object keywords.
pub open spec fn object_view(o: ObjectValidation) -> ObjectValidationView
    decreases o,
{
    ObjectValidationView {
        required: o.required.deep_view(),
        properties: named_schemas_view(o.properties@),
        additional_properties: match o.additional_properties {
            Some(a) => Some(additional_properties_view(a)),
            None => None,
        },
    }
}

/// The view of a structured node.
pub open spec fn schema_object_view(o: SchemaObject) -> SchemaObjectView
    decreases o,
{
    SchemaObjectView {
        instance_type: match o.instance_type {
            Some(t) => Some(instance_types_view(t)),
            None => None,
        },
        enum_values: match o.enum_values {
            Some(v) => Some(enum_values_view(v@)),
            None => None,
        },
        subschemas: match o.subschemas {
            Some(s) => Some(subschemas_view(s)),
            None => None,
        },
        array: match o.array {
            Some(a) => Some(array_view(a)),
            None => None,
        },
        object: match o.object {
            Some(obj) => Some(object_view(obj)),
            None => None,
        },
        reference: match o.reference {
            Some(r) => Some(r@),
            None => None,
        },
    }
}

impl View for InstanceTypes {
    type V = InstanceTypesView;

    open spec fn view(&self) -> InstanceTypesView {
        instance_types_view(*self)
    }
}

impl View for EnumValue {
    type V = EnumValueView;

    open spec fn view(&self) -> EnumValueView {
        enum_value_view(*self)
    }
}

impl View for Schema {
    type V = SchemaView;

    open spec fn view(&self) -> SchemaView {
        schema_view(*self)
    }
}

impl DeepView for Schema {
    type V = SchemaView;

    open spec fn deep_view(&self) -> SchemaView {
        schema_view(*self)
    }
}

impl View for NamedSchema {
    type V = NamedSchemaView;

    open spec fn view(&self) -> NamedSchemaView {
        named_schema_view(*self)
    }
}

impl DeepView for NamedSchema {
    type V = NamedSchemaView;

    open spec fn deep_view(&self) -> NamedSchemaView {
        named_schema_view(*self)
    }
}

impl View for Items {
    type V = ItemsView;

    open spec fn view(&self) -> ItemsView {
        items_view(*self)
    }
}

impl View for AdditionalProperties {
    type V = AdditionalPropertiesView;

    open spec fn view(&self) -> AdditionalPropertiesView {
        additional_properties_view(*self)
    }
}

impl View for SubschemaValidation {
    type V = SubschemaValidationView;

    open spec fn view(&self) -> SubschemaValidationView {
        subschemas_view(*self)
    }
}

impl View for ArrayValidation {
    type V = ArrayValidationView;

    open spec fn view(&self) -> ArrayValidationView {
        array_view(*self)
    }
}

impl View for ObjectValidation {
    type V = ObjectValidationView;

    open spec fn view(&self) -> ObjectValidationView {
        object_view(*self)
    }
}

impl View for SchemaObject {
    type V = SchemaObjectView;

    open spec fn view(&self) -> SchemaObjectView {
        schema_object_view(*self)
    }
}

impl DeepView for SchemaObject {
    type V = SchemaObjectView;

    open spec fn deep_view(&self) -> SchemaObjectView {
        schema_object_view(*self)
    }
}

/// The deep view of a vector of schemas is `schemas_view` of its contents.
pub proof fn lemma_schemas_deep_view(v: Vec<Schema>)
    ensures
        v.deep_view() == schemas_view(v@),
{
}

/// The deep view of a vector of named schemas is `named_schemas_view` of its
/// contents.
pub proof fn lemma_named_schemas_deep_view(v: Vec<NamedSchema>)
    ensures
        v.deep_view() == named_schemas_view(v@),
{
}


/// A copy of a list of names.
pub fn clone_names(names: &Vec<String>) -> (res: Vec<String>)
    ensures
        res.deep_view() == names.deep_view(),
{
    let mut out: Vec<String> = Vec::new();
    let mut i: usize = 0;
    while i < names.len()
        invariant
            i <= names.len(),
            out@.len() == i,
            forall|j: int| 0 <= j < i ==> out@[j]@ == names@[j]@,
        decreases names.len() - i,
    {
        out.push(names[i].clone());
        i += 1;
    }
    out
}

/// A copy of a list of schemas.
pub fn clone_schemas(schemas: &Vec<Schema>) -> (res: Vec<Schema>)
    ensures
        res.deep_view() == schemas.deep_view(),
    decreases schemas,
{
    let mut out: Vec<Schema> = Vec::new();
    let mut i: usize = 0;
    while i < schemas.len()
        invariant
            i <= schemas.len(),
            out@.len() == i,
            forall|j: int| 0 <= j < i ==> out@[j]@ == schemas@[j]@,
        decreases schemas.len() - i,
    {
        let member = &schemas[i];
        out.push(member.clone());
        i += 1;
    }
    out
}

/// A copy of a list of named schemas.
pub fn clone_named_schemas(entries: &Vec<NamedSchema>) -> (res: Vec<NamedSchema>)
    ensures
        res.deep_view() == entries.deep_view(),
    decreases entries,
{
    let mut out: Vec<NamedSchema> = Vec::new();
    let mut i: usize = 0;
    while i < entries.len()
        invariant
            i <= entries.len(),
            out@.len() == i,
            forall|j: int| 0 <= j < i ==> out@[j]@ == entries@[j]@,
        decreases entries.len() - i,
    {
        let entry = &entries[i];
        out.push(entry.clone());
        i += 1;
    }
    out
}

impl Clone for InstanceTypes {
    fn clone(&self) -> (res: Self)
        ensures
            res@ == self@,
    {
        match self {
            InstanceTypes::Single(k) => InstanceTypes::Single(*k),
            InstanceTypes::Vec(v) => {
                let mut out: Vec<InstanceType> = Vec::new();
                let mut i: usize = 0;
                while i < v.len()
                    invariant
                        i <= v.len(),
                        out@ == v@.take(i as int),
                    decreases v.len() - i,
                {
                    out.push(v[i]);
                    i += 1;
                }
                assert(out@ =~= v@);
                InstanceTypes::Vec(out)
            },
        }
    }
}

impl Clone for EnumValue {
    fn clone(&self) -> (res: Self)
        ensures
            res@ == self@,
    {
        match self {
            EnumValue::String(s) => EnumValue::String(s.clone()),
            EnumValue::Other => EnumValue::Other,
        }
    }
}

impl Clone for NamedSchema {
    fn clone(&self) -> (res: Self)
        ensures
            res@ == self@,
        decreases self,
    {
        NamedSchema { name: self.name.clone(), schema: self.schema.clone() }
    }
}

impl Clone for Items {
    fn clone(&self) -> (res: Self)
        ensures
            res@ == self@,
        decreases self,
    {
        match self {
            Items::Single(s) => Items::Single(Box::new((&**s).clone())),
            Items::Vec(v) => {
                let out = clone_schemas(v);
                proof {
                    lemma_schemas_deep_view(out);
                    lemma_schemas_deep_view(*v);
                }
                Items::Vec(out)
            },
        }
    }
}

impl Clone for AdditionalProperties {
    fn clone(&self) -> (res: Self)
        ensures
            res@ == self@,
        decreases self,
    {
        match self {
            AdditionalProperties::Schema(s) => AdditionalProperties::Schema(
                Box::new((&**s).clone()),
            ),
            AdditionalProperties::Bool(b) => AdditionalProperties::Bool(*b),
        }
    }
}

/// A copy of an optional list of schemas.
pub fn clone_optional_schemas(schemas: &Option<Vec<Schema>>) -> (res: Option<Vec<Schema>>)
    ensures
        optional_schemas_view(res) == optional_schemas_view(*schemas),
    decreases schemas,
{
    match schemas {
        Some(v) => {
            let out = clone_schemas(v);
            proof {
                lemma_schemas_deep_view(out);
                lemma_schemas_deep_view(*v);
            }
            Some(out)
        },
        None => None,
    }
}

impl Clone for SubschemaValidation {
    fn clone(&self) -> (res: Self)
        ensures
            res@ == self@,
        decreases self,
    {
        SubschemaValidation {
            all_of: clone_optional_schemas(&self.all_of),
            any_of: clone_optional_schemas(&self.any_of),
            one_of: clone_optional_schemas(&self.one_of),
        }
    }
}

impl Clone for ArrayValidation {
    fn clone(&self) -> (res: Self)
        ensures
            res@ == self@,
        decreases self,
    {
        ArrayValidation {
            items: match &self.items {
                Some(items) => Some(items.clone()),
                None => None,
            },
        }
    }
}

impl Clone for ObjectValidation {
    fn clone(&self) -> (res: Self)
        ensures
            res@ == self@,
        decreases self,
    {
        let required = clone_names(&self.required);
        let properties = clone_named_schemas(&self.properties);
        proof {
            lemma_named_schemas_deep_view(properties);
            lemma_named_schemas_deep_view(self.properties);
        }
        ObjectValidation {
            required,
            properties,
            additional_properties: match &self.additional_properties {
                Some(a) => Some(a.clone()),
                None => None,
            },
        }
    }
}

impl Clone for SchemaObject {
    fn clone(&self) -> (res: Self)
        ensures
            res@ == self@,
        decreases self,
    {
        let enum_values = match &self.enum_values {
            Some(v) => {
                let mut out: Vec<EnumValue> = Vec::new();
                let mut i: usize = 0;
                while i < v.len()
                    invariant
                        i <= v.len(),
                        out@.len() == i,
                        forall|j: int| 0 <= j < i ==> out@[j]@ == v@[j]@,
                    decreases v.len() - i,
                {
                    out.push(v[i].clone());
                    i += 1;
                }
                assert(enum_values_view(out@) =~= enum_values_view(v@));
                Some(out)
            },
            None => None,
        };
        SchemaObject {
            instance_type: match &self.instance_type {
                Some(t) => Some(t.clone()),
                None => None,
            },
            enum_values,
            subschemas: match &self.subschemas {
                Some(s) => Some(s.clone()),
                None => None,
            },
            array: match &self.array {
                Some(a) => Some(a.clone()),
                None => None,
            },
            object: match &self.object {
                Some(o) => Some(o.clone()),
                None => None,
            },
            reference: match &self.reference {
                Some(r) => Some(r.clone()),
                None => None,
            },
        }
    }
}

impl Clone for Schema {
    fn clone(&self) -> (res: Self)
        ensures
            res@ == self@,
        decreases self,
    {
        match self {
            Schema::Bool(b) => Schema::Bool(*b),
            Schema::Object(o) => Schema::Object(o.clone()),
        }
    }
}

impl Default for SchemaObject {
    /// The node that declares nothing: no kind, no reference, no shape.
    fn default() -> (res: Self)
        ensures
            res@ == SchemaObjectView::empty(),
    {
        SchemaObject {
            instance_type: None,
            enum_values: None,
            subschemas: None,
            array: None,
            object: None,
            reference: None,
        }
    }
}

} // verus!
