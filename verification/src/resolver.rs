//! From named schemas to a catalog: references are followed, conjunctions
//! are flattened, and every named schema gets its ordered list of fields.
use vstd::prelude::*;
use crate::error::GenError;
use crate::error::GenErrorView;
use crate::openrpc::OpenRpc;
use crate::schema::AdditionalProperties;
use crate::schema::AdditionalPropertiesView;
use crate::schema::ArrayValidation;
use crate::schema::ArrayValidationView;
use crate::schema::InstanceType;
use crate::schema::InstanceTypes;
use crate::schema::InstanceTypesView;
use crate::schema::Items;
use crate::schema::ItemsView;
use crate::schema::lemma_schemas_deep_view;
use crate::schema::NamedSchema;
use crate::schema::NamedSchemaView;
use crate::schema::ObjectValidation;
use crate::schema::ObjectValidationView;
use crate::schema::Schema;
use crate::schema::SchemaObject;
use crate::schema::SchemaObjectView;
use crate::schema::SchemaView;
use crate::schema::SubschemaValidation;

verus! {

/// One entry of the catalog: a named schema with its resolved fields.
#[derive(Debug, PartialEq, Eq)]
pub struct ResolvedType {
    pub name: String,
    pub schema: SchemaObject,
    pub fields: Vec<ResolvedField>,
}

/// One field of a catalog entry. Its schema is kept as declared: it is
/// resolved only when the field's type is rendered.
#[derive(Debug, PartialEq, Eq)]
pub struct ResolvedField {
    pub name: String,
    pub schema: SchemaObject,
    pub required: bool,
}

/// What `ResolvedField` stands for.
pub struct ResolvedFieldView {
    pub name: Seq<char>,
    pub schema: SchemaObjectView,
    pub required: bool,
}

/// What `ResolvedType` stands for.
pub struct ResolvedTypeView {
    pub name: Seq<char>,
    pub schema: SchemaObjectView,
    pub fields: Seq<ResolvedFieldView>,
}

impl View for ResolvedField {
    type V = ResolvedFieldView;

    open spec fn view(&self) -> ResolvedFieldView {
        ResolvedFieldView { name: self.name@, schema: self.schema@, required: self.required }
    }
}

impl DeepView for ResolvedField {
    type V = ResolvedFieldView;

    open spec fn deep_view(&self) -> ResolvedFieldView {
        self@
    }
}

impl View for ResolvedType {
    type V = ResolvedTypeView;

    open spec fn view(&self) -> ResolvedTypeView {
        ResolvedTypeView {
            name: self.name@,
            schema: self.schema@,
            fields: self.fields.deep_view(),
        }
    }
}

impl DeepView for ResolvedType {
    type V = ResolvedTypeView;

    open spec fn deep_view(&self) -> ResolvedTypeView {
        self@
    }
}

impl Clone for ResolvedField {
    fn clone(&self) -> (res: Self)
        ensures
            res@ == self@,
    {
        ResolvedField {
            name: self.name.clone(),
            schema: self.schema.clone(),
            required: self.required,
        }
    }
}

impl Clone for ResolvedType {
    fn clone(&self) -> (res: Self)
        ensures
            res@ == self@,
    {
        let mut fields: Vec<ResolvedField> = Vec::new();
        let mut i: usize = 0;
        while i < self.fields.len()
            invariant
                i <= self.fields.len(),
                fields@.len() == i,
                forall|j: int| 0 <= j < i ==> fields@[j]@ == self.fields@[j]@,
            decreases self.fields.len() - i,
        {
            fields.push(self.fields[i].clone());
            i += 1;
        }
        assert(fields.deep_view() =~= self.fields.deep_view());
        ResolvedType { name: self.name.clone(), schema: self.schema.clone(), fields }
    }
}

/// A boolean schema stands for the node that declares nothing; a structured
/// node stands for itself.
pub open spec fn normalize(schema: SchemaView) -> SchemaObjectView {
    match schema {
        SchemaView::Bool(_) => SchemaObjectView::empty(),
        SchemaView::Object(node) => node,
    }
}

/// The uniform representation of a raw schema node.
pub fn normalize_schema(schema: &Schema) -> (res: SchemaObject)
    ensures
        res@ == normalize(schema@),
{
    match schema {
        Schema::Bool(_) => SchemaObject::default(),
        Schema::Object(node) => node.clone(),
    }
}

/// What stands behind the last `/` of a reference; all of it where it has
/// no `/`.
pub open spec fn last_segment(reference: Seq<char>) -> Seq<char>
    decreases reference.len(),
{
    if reference.len() == 0 || reference.last() == '/' {
        Seq::empty()
    } else {
        last_segment(reference.drop_last()).push(reference.last())
    }
}

/// The last segment is the longest tail of the reference without a `/`.
pub proof fn lemma_last_segment(reference: Seq<char>)
    ensures
        last_segment(reference).len() <= reference.len(),
        last_segment(reference) == reference.skip(
            reference.len() - last_segment(reference).len(),
        ),
        !last_segment(reference).contains('/'),
        reference.contains('/') <==> last_segment(reference).len() < reference.len(),
        reference.contains('/') ==> reference[reference.len() - last_segment(reference).len()
            - 1] == '/',
    decreases reference.len(),
{
    if reference.len() > 0 && reference.last() != '/' {
        let shorter = reference.drop_last();
        lemma_last_segment(shorter);
        if reference.contains('/') {
            let i = choose|i: int| 0 <= i < reference.len() && reference[i] == '/';
            assert(shorter[i] == '/');
        }
    }
}

/// The name that a reference points to: what stands behind its last `/`.
/// A reference without a `/` is malformed.
pub fn ref_to_name(reference: &str) -> (res: Result<String, GenError>)
    ensures
        match res {
            Ok(name) => {
                &&& reference@.contains('/')
                &&& name@ == last_segment(reference@)
                &&& !name@.contains('/')
                &&& name@.len() < reference@.len()
                &&& name@ == reference@.skip(reference@.len() - name@.len())
                &&& reference@[reference@.len() - name@.len() - 1] == '/'
            },
            Err(e) => !reference@.contains('/') && e@ == GenErrorView::MalformedReference(
                reference@,
            ),
        },
{
    proof {
        lemma_last_segment(reference@);
    }
    let mut segment = String::new();
    let mut separated = false;
    for ch in it: reference.chars()
        invariant
            it.seq() == reference@,
            segment@ == last_segment(reference@.take(it.index() as int)),
            separated == reference@.take(it.index() as int).contains('/'),
    {
        proof {
            let upto = reference@.take(it.index() + 1);
            assert(upto.drop_last() =~= reference@.take(it.index() as int));
            if ch == '/' {
                assert(upto[upto.len() - 1] == '/');
            }
        }
        if ch == '/' {
            segment = String::new();
            separated = true;
        } else {
            segment.push(ch);
        }
    }
    assert(reference@.take(reference@.len() as int) =~= reference@);
    if separated {
        Ok(segment)
    } else {
        Err(GenError::MalformedReference(reference.to_owned()))
    }
}

/// The schema that describes the items of an array: the single item
/// schema, or the first one of a list.
pub open spec fn first_item(array: ArrayValidationView) -> Option<SchemaView> {
    match array.items {
        Some(ItemsView::Single(item)) => Some(*item),
        Some(ItemsView::Vec(list)) => if list.len() > 0 {
            Some(list[0])
        } else {
            None
        },
        None => None,
    }
}

/// The node of an object that says nothing but that it is an object.
pub open spec fn object_node() -> SchemaObjectView {
    SchemaObjectView {
        instance_type: Some(InstanceTypesView::Vec(seq![InstanceType::Object])),
        enum_values: None,
        subschemas: None,
        array: None,
        object: None,
        reference: None,
    }
}

/// The shape of the values that an object admits under names it does not
/// declare: the declared schema, any object where it only says `true`, and
/// none where it says `false` or nothing.
pub open spec fn additional_node(object: ObjectValidationView) -> Option<SchemaObjectView> {
    match object.additional_properties {
        Some(AdditionalPropertiesView::Schema(schema)) => Some(normalize(*schema)),
        Some(AdditionalPropertiesView::Bool(true)) => Some(object_node()),
        _ => None,
    }
}

/// Each schema of the list, normalized.
pub open spec fn normalize_all(schemas: Seq<SchemaView>) -> Seq<SchemaObjectView> {
    schemas.map_values(|s: SchemaView| normalize(s))
}

/// The item schema of an array, where it declares one, by reference.
pub fn first_item_of(array: &ArrayValidation) -> (res: Option<&Schema>)
    ensures
        match res {
            Some(item) => first_item(array@) == Some(item@),
            None => first_item(array@).is_none(),
        },
{
    match &array.items {
        Some(Items::Single(item)) => Some(&**item),
        Some(Items::Vec(list)) => {
            if list.len() > 0 {
                Some(&list[0])
            } else {
                None
            }
        },
        None => None,
    }
}

/// The normalized item schema of an array, where it declares one.
pub fn array_item_schema(array: &ArrayValidation) -> (res: Option<SchemaObject>)
    ensures
        res.deep_view() == match first_item(array@) {
            Some(item) => Some(normalize(item)),
            None => None,
        },
{
    match first_item_of(array) {
        Some(item) => Some(normalize_schema(item)),
        None => None,
    }
}

/// The normalized shape of an object's additional properties.
pub fn object_additional_properties(object: &ObjectValidation) -> (res: Option<SchemaObject>)
    ensures
        res.deep_view() == additional_node(object@),
{
    match &object.additional_properties {
        Some(AdditionalProperties::Schema(schema)) => Some(normalize_schema(&**schema)),
        Some(AdditionalProperties::Bool(true)) => {
            let mut kinds: Vec<InstanceType> = Vec::new();
            kinds.push(InstanceType::Object);
            Some(
                SchemaObject {
                    instance_type: Some(InstanceTypes::Vec(kinds)),
                    enum_values: None,
                    subschemas: None,
                    array: None,
                    object: None,
                    reference: None,
                },
            )
        },
        _ => None,
    }
}

/// Every schema of a list, normalized, in the same order.
pub fn normalize_list(schemas: &Vec<Schema>) -> (res: Vec<SchemaObject>)
    ensures
        res.deep_view() == normalize_all(schemas.deep_view()),
{
    let mut out: Vec<SchemaObject> = Vec::new();
    let mut i: usize = 0;
    while i < schemas.len()
        invariant
            i <= schemas.len(),
            out@.len() == i,
            forall|j: int| 0 <= j < i ==> out@[j]@ == normalize(schemas@[j]@),
        decreases schemas.len() - i,
    {
        out.push(normalize_schema(&schemas[i]));
        i += 1;
    }
    out
}

/// The alternatives of a "one of" composition, normalized.
pub fn one_of(subschemas: &SubschemaValidation) -> (res: Option<Vec<SchemaObject>>)
    ensures
        res.deep_view() == match subschemas@.one_of {
            Some(list) => Some(normalize_all(list)),
            None => None,
        },
{
    match &subschemas.one_of {
        Some(list) => {
            proof {
                lemma_schemas_deep_view(*list);
            }
            Some(normalize_list(list))
        },
        None => None,
    }
}

/// The alternatives of an "any of" composition, normalized.
pub fn any_of(subschemas: &SubschemaValidation) -> (res: Option<Vec<SchemaObject>>)
    ensures
        res.deep_view() == match subschemas@.any_of {
            Some(list) => Some(normalize_all(list)),
            None => None,
        },
{
    match &subschemas.any_of {
        Some(list) => {
            proof {
                lemma_schemas_deep_view(*list);
            }
            Some(normalize_list(list))
        },
        None => None,
    }
}

/// The names under which schemas are declared.
pub open spec fn component_names(components: Seq<NamedSchemaView>) -> Set<Seq<char>> {
    components.map_values(|c: NamedSchemaView| c.name).to_set()
}

/// The schema declared under `name`; the last one where the name is
/// declared more than once.
pub open spec fn find_schema(components: Seq<NamedSchemaView>, name: Seq<char>) -> Option<
    SchemaView,
>
    decreases components.len(),
{
    if components.len() == 0 {
        None
    } else if components.last().name == name {
        Some(components.last().schema)
    } else {
        find_schema(components.drop_last(), name)
    }
}

/// A schema is found exactly under the declared names.
pub proof fn lemma_find_schema_declared(components: Seq<NamedSchemaView>, name: Seq<char>)
    ensures
        find_schema(components, name).is_some() <==> component_names(components).contains(name),
    decreases components.len(),
{
    let names = components.map_values(|c: NamedSchemaView| c.name);
    if components.len() > 0 {
        let shorter = components.drop_last();
        lemma_find_schema_declared(shorter, name);
        let shorter_names = shorter.map_values(|c: NamedSchemaView| c.name);
        if components.last().name == name {
            assert(names[names.len() - 1] == name);
        } else {
            if names.contains(name) {
                let i = choose|i: int| 0 <= i < names.len() && names[i] == name;
                assert(shorter_names[i] == name);
            }
            if shorter_names.contains(name) {
                let i = choose|i: int| 0 <= i < shorter_names.len() && shorter_names[i] == name;
                assert(names[i] == name);
            }
        }
    }
}

/// How many declared names are not being resolved. Following a reference
/// makes this smaller, which is why resolution ends.
pub open spec fn unvisited(components: Seq<NamedSchemaView>, visiting: Set<Seq<char>>) -> nat {
    component_names(components).difference(visiting).len()
}

/// Entering a declared name that is not being resolved leaves fewer names
/// to enter.
pub proof fn lemma_unvisited_decreases(
    components: Seq<NamedSchemaView>,
    visiting: Set<Seq<char>>,
    name: Seq<char>,
)
    requires
        find_schema(components, name).is_some(),
        !visiting.contains(name),
    ensures
        unvisited(components, visiting.insert(name)) < unvisited(components, visiting),
{
    lemma_find_schema_declared(components, name);
    let names = component_names(components);
    vstd::seq_lib::seq_to_set_is_finite(components.map_values(|c: NamedSchemaView| c.name));
    let open_names = names.difference(visiting);
    assert(names.difference(visiting.insert(name)) =~= open_names.remove(name));
}

/// The fields that an object declares itself: one per property, in
/// declaration order, each with its normalized schema and marked required
/// where the object lists its name as required.
pub open spec fn property_fields(object: ObjectValidationView) -> Seq<ResolvedFieldView> {
    Seq::new(
        object.properties.len(),
        |i: int|
            ResolvedFieldView {
                name: object.properties[i].name,
                schema: normalize(object.properties[i].schema),
                required: object.required.contains(object.properties[i].name),
            },
    )
}

/// The members of the conjunction that a node declares, where it declares
/// one.
pub open spec fn conjunction(node: SchemaObjectView) -> Option<Seq<SchemaView>> {
    match node.subschemas {
        Some(subschemas) => subschemas.all_of,
        None => None,
    }
}

/// The fields of a node, with the names in `visiting` being resolved
/// already. In this order: a reference is followed to the schema it names;
/// a conjunction gives the fields of its members one after the other; an
/// object gives its own properties; anything else has no fields.
pub open spec fn resolved_fields(
    node: SchemaObjectView,
    components: Seq<NamedSchemaView>,
    visiting: Set<Seq<char>>,
) -> Result<Seq<ResolvedFieldView>, GenErrorView>
    decreases unvisited(components, visiting), node,
{
    match node.reference {
        Some(reference) => {
            let name = last_segment(reference);
            if !reference.contains('/') {
                Err(GenErrorView::MalformedReference(reference))
            } else if find_schema(components, name).is_none() {
                Err(GenErrorView::UnknownReference(name))
            } else if visiting.contains(name) {
                Err(GenErrorView::CyclicReference(name))
            } else {
                proof {
                    lemma_unvisited_decreases(components, visiting, name);
                }
                resolved_fields_of(
                    find_schema(components, name).unwrap(),
                    components,
                    visiting.insert(name),
                )
            }
        },
        None => match conjunction(node) {
            Some(members) => resolved_fields_of_all(members, components, visiting),
            None => match node.object {
                Some(object) => Ok(property_fields(object)),
                None => Ok(Seq::empty()),
            },
        },
    }
}

/// The fields of a raw schema: those of its normalized node.
pub open spec fn resolved_fields_of(
    schema: SchemaView,
    components: Seq<NamedSchemaView>,
    visiting: Set<Seq<char>>,
) -> Result<Seq<ResolvedFieldView>, GenErrorView>
    decreases unvisited(components, visiting), schema,
{
    match schema {
        SchemaView::Bool(_) => Ok(Seq::empty()),
        SchemaView::Object(node) => resolved_fields(node, components, visiting),
    }
}

/// The fields of each member, one list after the other in the order of the
/// members; the error of the first member that has one.
pub open spec fn resolved_fields_of_all(
    members: Seq<SchemaView>,
    components: Seq<NamedSchemaView>,
    visiting: Set<Seq<char>>,
) -> Result<Seq<ResolvedFieldView>, GenErrorView>
    decreases unvisited(components, visiting), members,
{
    if members.len() == 0 {
        Ok(Seq::empty())
    } else {
        match resolved_fields_of_all(members.drop_last(), components, visiting) {
            Err(e) => Err(e),
            Ok(head) => match resolved_fields_of(members.last(), components, visiting) {
                Err(e) => Err(e),
                Ok(tail) => Ok(head + tail),
            },
        }
    }
}

/// The names that are being resolved, innermost first.
pub enum Trail<'a> {
    Start,
    Step(&'a str, &'a Trail<'a>),
}

/// The names on a trail, as a set.
pub open spec fn trail_names(trail: Trail) -> Set<Seq<char>>
    decreases trail,
{
    match trail {
        Trail::Start => Set::empty(),
        Trail::Step(name, rest) => trail_names(*rest).insert(name@),
    }
}

impl<'a> View for Trail<'a> {
    type V = Set<Seq<char>>;

    open spec fn view(&self) -> Set<Seq<char>> {
        trail_names(*self)
    }
}

impl<'a> Trail<'a> {
    /// Whether `name` is being resolved.
    pub fn holds(&self, name: &str) -> (found: bool)
        ensures
            found == self@.contains(name@),
        decreases self,
    {
        match self {
            Trail::Start => false,
            Trail::Step(step, rest) => {
                if (*step).eq(name) {
                    true
                } else {
                    rest.holds(name)
                }
            },
        }
    }
}

/// The schema declared under `name`, where there is one.
pub fn lookup_schema<'a>(components: &'a Vec<NamedSchema>, name: &str) -> (res: Option<
    &'a Schema,
>)
    ensures
        match res {
            Some(schema) => find_schema(components.deep_view(), name@) == Some(schema@),
            None => find_schema(components.deep_view(), name@).is_none(),
        },
{
    let mut i: usize = components.len();
    assert(components.deep_view().take(i as int) =~= components.deep_view());
    while i > 0
        invariant
            i <= components.len(),
            find_schema(components.deep_view(), name@) == find_schema(
                components.deep_view().take(i as int),
                name@,
            ),
        decreases i,
    {
        i -= 1;
        assert(components.deep_view().take(i as int + 1).drop_last() =~= components.deep_view().take(
            i as int,
        ));
        if components[i].name.as_str().eq(name) {
            return Some(&components[i].schema);
        }
    }
    None
}

/// The view of what resolution gives: the fields, or the error.
pub open spec fn outcome_view(res: Result<Vec<ResolvedField>, GenError>) -> Result<
    Seq<ResolvedFieldView>,
    GenErrorView,
> {
    match res {
        Ok(fields) => Ok(fields.deep_view()),
        Err(e) => Err(e@),
    }
}

/// The fields that an object declares itself.
pub fn collect_properties(object: &ObjectValidation) -> (fields: Vec<ResolvedField>)
    ensures
        fields.deep_view() == property_fields(object@),
{
    let mut fields: Vec<ResolvedField> = Vec::new();
    let mut i: usize = 0;
    while i < object.properties.len()
        invariant
            i <= object.properties.len(),
            fields@.len() == i,
            forall|j: int| 0 <= j < i ==> fields@[j]@ == property_fields(object@)[j],
        decreases object.properties.len() - i,
    {
        let property = &object.properties[i];
        let required = crate::text::contains_name(&object.required, property.name.as_str());
        fields.push(
            ResolvedField {
                name: property.name.clone(),
                schema: normalize_schema(&property.schema),
                required,
            },
        );
        i += 1;
    }
    fields
}

/// The empty list of fields.
fn no_fields() -> (fields: Vec<ResolvedField>)
    ensures
        fields.deep_view() == Seq::<ResolvedFieldView>::empty(),
{
    let fields: Vec<ResolvedField> = Vec::new();
    fields
}

/// The fields of a node while the names on `trail` are being resolved.
pub fn collect_fields_on<'a>(
    schema: &SchemaObject,
    components: &'a Vec<NamedSchema>,
    trail: &Trail<'a>,
) -> (res: Result<Vec<ResolvedField>, GenError>)
    ensures
        outcome_view(res) == resolved_fields(schema@, components.deep_view(), trail@),
    decreases unvisited(components.deep_view(), trail@), schema,
{
    if let Some(reference) = &schema.reference {
        let target_name = match ref_to_name(reference.as_str()) {
            Ok(name) => name,
            Err(e) => {
                return Err(e);
            },
        };
        let target = match lookup_schema(components, target_name.as_str()) {
            Some(target) => target,
            None => {
                return Err(GenError::UnknownReference(target_name));
            },
        };
        if trail.holds(target_name.as_str()) {
            return Err(GenError::CyclicReference(target_name));
        }
        proof {
            lemma_unvisited_decreases(components.deep_view(), trail@, target_name@);
        }
        let longer = Trail::Step(target_name.as_str(), trail);
        return collect_fields_of(target, components, &longer);
    }
    if let Some(subschemas) = &schema.subschemas {
        if let Some(all_of) = &subschemas.all_of {
            proof {
                lemma_schemas_deep_view(*all_of);
            }
            return collect_fields_of_all(all_of, components, trail);
        }
    }
    if let Some(object) = &schema.object {
        return Ok(collect_properties(object));
    }
    Ok(no_fields())
}

/// The fields of a raw schema while the names on `trail` are being resolved.
pub fn collect_fields_of<'a>(
    schema: &Schema,
    components: &'a Vec<NamedSchema>,
    trail: &Trail<'a>,
) -> (res: Result<Vec<ResolvedField>, GenError>)
    ensures
        outcome_view(res) == resolved_fields_of(schema@, components.deep_view(), trail@),
    decreases unvisited(components.deep_view(), trail@), schema,
{
    match schema {
        Schema::Bool(_) => Ok(no_fields()),
        Schema::Object(node) => collect_fields_on(node, components, trail),
    }
}

/// The fields of the members of a conjunction, one list after the other.
pub fn collect_fields_of_all<'a>(
    members: &Vec<Schema>,
    components: &'a Vec<NamedSchema>,
    trail: &Trail<'a>,
) -> (res: Result<Vec<ResolvedField>, GenError>)
    ensures
        outcome_view(res) == resolved_fields_of_all(
            members.deep_view(),
            components.deep_view(),
            trail@,
        ),
    decreases unvisited(components.deep_view(), trail@), members,
{
    let mut fields: Vec<ResolvedField> = no_fields();
    let mut i: usize = 0;
    while i < members.len()
        invariant
            i <= members.len(),
            resolved_fields_of_all(
                members.deep_view().take(i as int),
                components.deep_view(),
                trail@,
            ) == Ok::<Seq<ResolvedFieldView>, GenErrorView>(fields.deep_view()),
        decreases members.len() - i,
    {
        let member = &members[i];
        assert(members.deep_view().take(i as int + 1).drop_last() =~= members.deep_view().take(
            i as int,
        ));
        match collect_fields_of(member, components, trail) {
            Ok(mut sub) => {
                let ghost head = fields.deep_view();
                let ghost tail = sub.deep_view();
                fields.append(&mut sub);
                assert(fields.deep_view() =~= head + tail);
            },
            Err(e) => {
                proof {
                    lemma_failure_stays(
                        members.deep_view(),
                        i as int + 1,
                        components.deep_view(),
                        trail@,
                    );
                }
                return Err(e);
            },
        }
        i += 1;
    }
    assert(members.deep_view().take(members.len() as int) =~= members.deep_view());
    Ok(fields)
}

/// Once the first `n` members fail, all of them fail with the same error.
pub proof fn lemma_failure_stays(
    members: Seq<SchemaView>,
    n: int,
    components: Seq<NamedSchemaView>,
    visiting: Set<Seq<char>>,
)
    requires
        0 <= n <= members.len(),
        resolved_fields_of_all(members.take(n), components, visiting).is_err(),
    ensures
        resolved_fields_of_all(members, components, visiting) == resolved_fields_of_all(
            members.take(n),
            components,
            visiting,
        ),
    decreases members.len() - n,
{
    if n < members.len() {
        let longer = members.take(n + 1);
        assert(longer.drop_last() =~= members.take(n));
        lemma_failure_stays(members, n + 1, components, visiting);
    } else {
        assert(members.take(n) =~= members);
    }
}

/// The fields of a schema node: references followed, conjunctions
/// flattened, properties in declaration order.
pub fn collect_fields(schema: &SchemaObject, components: &Vec<NamedSchema>) -> (res: Result<
    Vec<ResolvedField>,
    GenError,
>)
    ensures
        outcome_view(res) == resolved_fields(schema@, components.deep_view(), Set::empty()),
{
    collect_fields_on(schema, components, &Trail::Start)
}

/// A conjunction of two lists of members has the fields of the first list,
/// then those of the second, each in its own order; it fails as the first
/// list does, or else as the second does.
pub proof fn lemma_conjunction_concatenates(
    first: Seq<SchemaView>,
    second: Seq<SchemaView>,
    components: Seq<NamedSchemaView>,
    visiting: Set<Seq<char>>,
)
    ensures
        resolved_fields_of_all(first + second, components, visiting) == (match resolved_fields_of_all(
            first,
            components,
            visiting,
        ) {
            Err(e) => Err(e),
            Ok(head) => match resolved_fields_of_all(second, components, visiting) {
                Err(e) => Err(e),
                Ok(tail) => Ok(head + tail),
            },
        }),
    decreases second.len(),
{
    if second.len() > 0 {
        assert((first + second).drop_last() =~= first + second.drop_last());
        lemma_conjunction_concatenates(first, second.drop_last(), components, visiting);
        if let Ok(head) = resolved_fields_of_all(first, components, visiting) {
            if let Ok(middle) = resolved_fields_of_all(second.drop_last(), components, visiting) {
                if let Ok(tail) = resolved_fields_of(second.last(), components, visiting) {
                    assert((head + middle) + tail =~= head + (middle + tail));
                }
            }
        }
    }
}

/// A conjunction of one member has the fields of that member.
pub proof fn lemma_conjunction_of_one(
    member: SchemaView,
    components: Seq<NamedSchemaView>,
    visiting: Set<Seq<char>>,
)
    ensures
        resolved_fields_of_all(seq![member], components, visiting) == resolved_fields_of(
            member,
            components,
            visiting,
        ),
{
    let members = seq![member];
    assert(members.drop_last() =~= Seq::<SchemaView>::empty());
    assert(resolved_fields_of_all(Seq::<SchemaView>::empty(), components, visiting) == Ok::<
        Seq<ResolvedFieldView>,
        GenErrorView,
    >(Seq::empty()));
}

/// In the fields of a conjunction, the fields of member `i` stand together
/// and in their own order, right behind the fields of the members before it.
pub proof fn lemma_member_fields_in_place(
    members: Seq<SchemaView>,
    i: int,
    components: Seq<NamedSchemaView>,
    visiting: Set<Seq<char>>,
)
    requires
        0 <= i < members.len(),
        resolved_fields_of_all(members, components, visiting).is_ok(),
    ensures
        resolved_fields_of_all(members.take(i), components, visiting).is_ok(),
        resolved_fields_of(members[i], components, visiting).is_ok(),
        ({
            let all = resolved_fields_of_all(members, components, visiting)->Ok_0;
            let before = resolved_fields_of_all(members.take(i), components, visiting)->Ok_0;
            let own = resolved_fields_of(members[i], components, visiting)->Ok_0;
            &&& before.len() + own.len() <= all.len()
            &&& all.subrange(0, before.len() as int) == before
            &&& all.subrange(before.len() as int, (before.len() + own.len()) as int) == own
        }),
{
    let rest = members.skip(i);
    let one = seq![members[i]];
    let after = members.skip(i + 1);
    assert(members =~= members.take(i) + rest);
    assert(rest =~= one + after);
    lemma_conjunction_concatenates(members.take(i), rest, components, visiting);
    lemma_conjunction_concatenates(one, after, components, visiting);
    lemma_conjunction_of_one(members[i], components, visiting);
}

/// The catalog entry of one named schema: its name, its normalized schema,
/// and the fields of that schema.
pub open spec fn catalog_entry(entry: NamedSchemaView, components: Seq<NamedSchemaView>) -> Result<
    ResolvedTypeView,
    GenErrorView,
> {
    match resolved_fields(normalize(entry.schema), components, Set::empty()) {
        Ok(fields) => Ok(
            ResolvedTypeView { name: entry.name, schema: normalize(entry.schema), fields },
        ),
        Err(e) => Err(e),
    }
}

/// One catalog entry for each of `entries`, in their order, resolved
/// against `components`; the error of the first entry that has one.
pub open spec fn catalog_of(
    entries: Seq<NamedSchemaView>,
    components: Seq<NamedSchemaView>,
) -> Result<Seq<ResolvedTypeView>, GenErrorView>
    decreases entries.len(),
{
    if entries.len() == 0 {
        Ok(Seq::empty())
    } else {
        match catalog_of(entries.drop_last(), components) {
            Err(e) => Err(e),
            Ok(head) => match catalog_entry(entries.last(), components) {
                Err(e) => Err(e),
                Ok(entry) => Ok(head.push(entry)),
            },
        }
    }
}

/// The catalog of a document: it needs a named-schema section, and
/// has one entry for each schema of that section.
pub open spec fn resolved_catalog(spec: OpenRpc) -> Result<Seq<ResolvedTypeView>, GenErrorView> {
    match spec.declared_schemas() {
        None => Err(GenErrorView::MissingComponents),
        Some(schemas) => catalog_of(schemas, schemas),
    }
}

/// A catalog has exactly one entry for each declared schema, at the same
/// position and under the same name, with that schema's own fields.
pub proof fn lemma_catalog_entries(
    entries: Seq<NamedSchemaView>,
    components: Seq<NamedSchemaView>,
)
    requires
        catalog_of(entries, components).is_ok(),
    ensures
        catalog_of(entries, components)->Ok_0.len() == entries.len(),
        forall|i: int|
            0 <= i < entries.len() ==> catalog_entry(entries[i], components) == Ok::<
                ResolvedTypeView,
                GenErrorView,
            >(#[trigger] catalog_of(entries, components)->Ok_0[i]),
    decreases entries.len(),
{
    if entries.len() > 0 {
        lemma_catalog_entries(entries.drop_last(), components);
        let all = catalog_of(entries, components)->Ok_0;
        assert forall|i: int| 0 <= i < entries.len() implies catalog_entry(
            entries[i],
            components,
        ) == Ok::<ResolvedTypeView, GenErrorView>(#[trigger] all[i]) by {
            if i < entries.len() - 1 {
                assert(entries.drop_last()[i] == entries[i]);
            }
        }
    }
}

/// The fields of a catalog entry that is a conjunction are the fields of its
/// branches, one branch after the other in the order of the branches: split
/// the branches anywhere, and the fields of the first part come first, each
/// part's fields in their own order.
pub proof fn lemma_entry_fields_follow_branches(
    entry: NamedSchemaView,
    components: Seq<NamedSchemaView>,
    first: Seq<SchemaView>,
    second: Seq<SchemaView>,
)
    requires
        catalog_entry(entry, components).is_ok(),
        normalize(entry.schema).reference.is_none(),
        conjunction(normalize(entry.schema)) == Some(first + second),
    ensures
        resolved_fields_of_all(first, components, Set::empty()).is_ok(),
        resolved_fields_of_all(second, components, Set::empty()).is_ok(),
        catalog_entry(entry, components)->Ok_0.fields == resolved_fields_of_all(
            first,
            components,
            Set::empty(),
        )->Ok_0 + resolved_fields_of_all(second, components, Set::empty())->Ok_0,
{
    lemma_conjunction_concatenates(first, second, components, Set::empty());
}

/// Once the first `n` entries fail, the catalog fails with the same error.
pub proof fn lemma_catalog_failure_stays(
    entries: Seq<NamedSchemaView>,
    n: int,
    components: Seq<NamedSchemaView>,
)
    requires
        0 <= n <= entries.len(),
        catalog_of(entries.take(n), components).is_err(),
    ensures
        catalog_of(entries, components) == catalog_of(entries.take(n), components),
    decreases entries.len() - n,
{
    if n < entries.len() {
        let longer = entries.take(n + 1);
        assert(longer.drop_last() =~= entries.take(n));
        lemma_catalog_failure_stays(entries, n + 1, components);
    } else {
        assert(entries.take(n) =~= entries);
    }
}

/// The view of what building a catalog gives: the entries, or the error.
pub open spec fn catalog_view(res: Result<Vec<ResolvedType>, GenError>) -> Result<
    Seq<ResolvedTypeView>,
    GenErrorView,
> {
    match res {
        Ok(types) => Ok(types.deep_view()),
        Err(e) => Err(e@),
    }
}

/// Builds the catalog: one resolved type for each named schema of the
/// document, in declaration order.
pub fn resolve_components(spec: &OpenRpc) -> (res: Result<Vec<ResolvedType>, GenError>)
    ensures
        catalog_view(res) == resolved_catalog(*spec),
        spec.declared_schemas().is_none() ==> res matches Err(GenError::MissingComponents),
        res matches Ok(types) ==> {
            let schemas = spec.declared_schemas().unwrap();
            &&& types.len() == schemas.len()
            &&& forall|i: int|
                0 <= i < schemas.len() ==> catalog_entry(#[trigger] schemas[i], schemas) == Ok::<
                    ResolvedTypeView,
                    GenErrorView,
                >(types.deep_view()[i])
        },
{
    let components = match &spec.components {
        Some(components) => match &components.schemas {
            Some(schemas) => schemas,
            None => {
                return Err(GenError::MissingComponents);
            },
        },
        None => {
            return Err(GenError::MissingComponents);
        },
    };
    let mut resolved: Vec<ResolvedType> = Vec::new();
    assert(resolved.deep_view() =~= Seq::<ResolvedTypeView>::empty());
    let mut i: usize = 0;
    while i < components.len()
        invariant
            i <= components.len(),
            resolved.len() == i,
            spec.declared_schemas() == Some(components.deep_view()),
            catalog_of(components.deep_view().take(i as int), components.deep_view()) == Ok::<
                Seq<ResolvedTypeView>,
                GenErrorView,
            >(resolved.deep_view()),
        decreases components.len() - i,
    {
        let entry = &components[i];
        assert(components.deep_view().take(i as int + 1).drop_last() =~= components.deep_view().take(
            i as int,
        ));
        let schema_obj = normalize_schema(&entry.schema);
        match collect_fields(&schema_obj, components) {
            Ok(fields) => {
                let ghost head = resolved.deep_view();
                let item = ResolvedType { name: entry.name.clone(), schema: schema_obj, fields };
                resolved.push(item);
                assert(resolved.deep_view() =~= head.push(item@));
            },
            Err(e) => {
                proof {
                    lemma_catalog_failure_stays(
                        components.deep_view(),
                        i as int + 1,
                        components.deep_view(),
                    );
                }
                return Err(e);
            },
        }
        i += 1;
    }
    proof {
        assert(components.deep_view().take(components.len() as int) =~= components.deep_view());
        lemma_catalog_entries(components.deep_view(), components.deep_view());
    }
    Ok(resolved)
}

} // verus!
