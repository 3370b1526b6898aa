use openrpc_bindgen::error::GenError;
use openrpc_bindgen::openrpc::Components;
use openrpc_bindgen::openrpc::Info;
use openrpc_bindgen::openrpc::Method;
use openrpc_bindgen::openrpc::OpenRpc;
use openrpc_bindgen::resolver::any_of;
use openrpc_bindgen::resolver::array_item_schema;
use openrpc_bindgen::resolver::collect_fields;
use openrpc_bindgen::resolver::normalize_schema;
use openrpc_bindgen::resolver::object_additional_properties;
use openrpc_bindgen::resolver::one_of;
use openrpc_bindgen::resolver::ref_to_name;
use openrpc_bindgen::resolver::resolve_components;
use openrpc_bindgen::resolver::ResolvedField;
use openrpc_bindgen::schema::AdditionalProperties;
use openrpc_bindgen::schema::ArrayValidation;
use openrpc_bindgen::schema::InstanceType;
use openrpc_bindgen::schema::InstanceTypes;
use openrpc_bindgen::schema::Items;
use openrpc_bindgen::schema::NamedSchema;
use openrpc_bindgen::schema::ObjectValidation;
use openrpc_bindgen::schema::Schema;
use openrpc_bindgen::schema::SchemaObject;
use openrpc_bindgen::schema::SubschemaValidation;

fn of_kind(kind: InstanceType) -> SchemaObject {
    SchemaObject { instance_type: Some(InstanceTypes::Single(kind)), ..SchemaObject::default() }
}

fn reference(target: &str) -> SchemaObject {
    SchemaObject { reference: Some(target.to_string()), ..SchemaObject::default() }
}

fn named(name: &str, schema: SchemaObject) -> NamedSchema {
    NamedSchema { name: name.to_string(), schema: Schema::Object(schema) }
}

fn object(properties: Vec<NamedSchema>, required: &[&str]) -> SchemaObject {
    SchemaObject {
        instance_type: Some(InstanceTypes::Single(InstanceType::Object)),
        object: Some(ObjectValidation {
            required: required.iter().map(|r| r.to_string()).collect(),
            properties,
            additional_properties: None,
        }),
        ..SchemaObject::default()
    }
}

fn all_of(members: Vec<SchemaObject>) -> SchemaObject {
    SchemaObject {
        subschemas: Some(SubschemaValidation {
            all_of: Some(members.into_iter().map(Schema::Object).collect()),
            any_of: None,
            one_of: None,
        }),
        ..SchemaObject::default()
    }
}

fn field(name: &str, schema: SchemaObject, required: bool) -> ResolvedField {
    ResolvedField { name: name.to_string(), schema, required }
}

fn spec_with(schemas: Option<Vec<NamedSchema>>) -> OpenRpc {
    OpenRpc {
        openrpc: "1.2.6".to_string(),
        info: None,
        methods: vec![Method { name: "ping".to_string() }],
        components: Some(Components { schemas }),
    }
}

fn names(fields: &[ResolvedField]) -> Vec<String> {
    fields.iter().map(|f| f.name.clone()).collect()
}

#[test]
fn ref_to_name_takes_the_last_segment() {
    assert_eq!(ref_to_name("#/components/schemas/Foo"), Ok("Foo".to_string()));
    assert_eq!(ref_to_name("a/b"), Ok("b".to_string()));
    assert_eq!(ref_to_name("/Foo"), Ok("Foo".to_string()));
    assert_eq!(ref_to_name("x//y"), Ok("y".to_string()));
}

#[test]
fn ref_to_name_after_a_trailing_separator_is_empty() {
    assert_eq!(ref_to_name("a/b/"), Ok(String::new()));
    assert_eq!(ref_to_name("/"), Ok(String::new()));
}

#[test]
fn ref_to_name_without_separator_is_malformed() {
    assert_eq!(ref_to_name("Foo"), Err(GenError::MalformedReference("Foo".to_string())));
    assert_eq!(ref_to_name(""), Err(GenError::MalformedReference(String::new())));
    assert_eq!(ref_to_name("#Foo"), Err(GenError::MalformedReference("#Foo".to_string())));
}

#[test]
fn normalize_turns_a_boolean_into_the_empty_node() {
    assert_eq!(normalize_schema(&Schema::Bool(true)), SchemaObject::default());
    assert_eq!(normalize_schema(&Schema::Bool(false)), SchemaObject::default());
}

#[test]
fn normalize_keeps_a_structured_node() {
    let node = object(vec![named("x", of_kind(InstanceType::String))], &["x"]);
    assert_eq!(normalize_schema(&Schema::Object(node.clone())), node);
    let target = reference("#/components/schemas/B");
    assert_eq!(normalize_schema(&Schema::Object(target.clone())), target);
}

#[test]
fn default_node_declares_nothing() {
    let node = SchemaObject::default();
    assert_eq!(node.instance_type, None);
    assert_eq!(node.enum_values, None);
    assert_eq!(node.subschemas, None);
    assert_eq!(node.array, None);
    assert_eq!(node.object, None);
    assert_eq!(node.reference, None);
}

#[test]
fn clone_copies_the_whole_tree() {
    let node = all_of(vec![
        reference("#/components/schemas/B"),
        object(vec![named("y", of_kind(InstanceType::Integer))], &[]),
    ]);
    assert_eq!(node.clone(), node);
    let entry = named("A", node);
    assert_eq!(entry.clone(), entry);
}

#[test]
fn properties_become_fields_in_declaration_order() {
    let node = object(
        vec![
            named("zeta", of_kind(InstanceType::String)),
            named("alpha", of_kind(InstanceType::Integer)),
            named("mid", of_kind(InstanceType::Boolean)),
        ],
        &["alpha"],
    );
    let fields = collect_fields(&node, &vec![]).unwrap();
    assert_eq!(
        fields,
        vec![
            field("zeta", of_kind(InstanceType::String), false),
            field("alpha", of_kind(InstanceType::Integer), true),
            field("mid", of_kind(InstanceType::Boolean), false),
        ]
    );
}

#[test]
fn a_boolean_property_has_the_empty_node() {
    let node = object(
        vec![NamedSchema { name: "anything".to_string(), schema: Schema::Bool(true) }],
        &["anything"],
    );
    let fields = collect_fields(&node, &vec![]).unwrap();
    assert_eq!(fields, vec![field("anything", SchemaObject::default(), true)]);
}

#[test]
fn a_field_keeps_its_reference_unresolved() {
    let node = object(vec![named("owner", reference("#/components/schemas/User"))], &[]);
    let fields = collect_fields(&node, &vec![]).unwrap();
    assert_eq!(fields, vec![field("owner", reference("#/components/schemas/User"), false)]);
}

#[test]
fn shapes_without_properties_have_no_fields() {
    let components = vec![];
    assert_eq!(collect_fields(&SchemaObject::default(), &components), Ok(vec![]));
    assert_eq!(collect_fields(&of_kind(InstanceType::String), &components), Ok(vec![]));
    let array = SchemaObject {
        instance_type: Some(InstanceTypes::Single(InstanceType::Array)),
        array: Some(ArrayValidation {
            items: Some(Items::Single(Box::new(Schema::Object(of_kind(InstanceType::String))))),
        }),
        ..SchemaObject::default()
    };
    assert_eq!(collect_fields(&array, &components), Ok(vec![]));
    let union = SchemaObject {
        subschemas: Some(SubschemaValidation {
            all_of: None,
            any_of: None,
            one_of: Some(vec![Schema::Object(object(
                vec![named("x", of_kind(InstanceType::String))],
                &[],
            ))]),
        }),
        ..SchemaObject::default()
    };
    assert_eq!(collect_fields(&union, &components), Ok(vec![]));
}

#[test]
fn a_reference_gives_the_fields_of_its_target() {
    let components = vec![named(
        "B",
        object(vec![named("x", of_kind(InstanceType::String))], &["x"]),
    )];
    let fields = collect_fields(&reference("#/components/schemas/B"), &components).unwrap();
    assert_eq!(fields, vec![field("x", of_kind(InstanceType::String), true)]);
}

#[test]
fn a_reference_takes_precedence_over_the_local_shape() {
    let components = vec![named(
        "B",
        object(vec![named("x", of_kind(InstanceType::String))], &["x"]),
    )];
    let mut node = object(vec![named("local", of_kind(InstanceType::Integer))], &[]);
    node.reference = Some("#/components/schemas/B".to_string());
    let fields = collect_fields(&node, &components).unwrap();
    assert_eq!(names(&fields), vec!["x".to_string()]);
}

#[test]
fn references_are_followed_through_a_chain() {
    let components = vec![
        named("A", reference("#/components/schemas/B")),
        named("B", reference("#/components/schemas/C")),
        named("C", object(vec![named("deep", of_kind(InstanceType::Number))], &[])),
    ];
    let fields = collect_fields(&reference("#/components/schemas/A"), &components).unwrap();
    assert_eq!(fields, vec![field("deep", of_kind(InstanceType::Number), false)]);
}

#[test]
fn a_reference_to_a_boolean_schema_has_no_fields() {
    let components = vec![NamedSchema { name: "Any".to_string(), schema: Schema::Bool(true) }];
    assert_eq!(collect_fields(&reference("#/components/schemas/Any"), &components), Ok(vec![]));
}

#[test]
fn composed_type_resolves_to_x_then_y() {
    let components = vec![
        named(
            "A",
            all_of(vec![
                reference("#/components/schemas/B"),
                object(vec![named("y", of_kind(InstanceType::Integer))], &[]),
            ]),
        ),
        named("B", object(vec![named("x", of_kind(InstanceType::String))], &["x"])),
    ];
    let catalog = resolve_components(&spec_with(Some(components))).unwrap();
    assert_eq!(catalog.len(), 2);
    assert_eq!(catalog[0].name, "A");
    assert_eq!(
        catalog[0].fields,
        vec![
            field("x", of_kind(InstanceType::String), true),
            field("y", of_kind(InstanceType::Integer), false),
        ]
    );
    assert_eq!(catalog[1].name, "B");
    assert_eq!(catalog[1].fields, vec![field("x", of_kind(InstanceType::String), true)]);
}

#[test]
fn conjunction_keeps_the_order_of_its_branches() {
    let first = object(
        vec![named("a1", of_kind(InstanceType::String)), named("a2", of_kind(InstanceType::String))],
        &["a2"],
    );
    let second = object(vec![named("b1", of_kind(InstanceType::Integer))], &[]);
    let third = object(
        vec![named("c1", of_kind(InstanceType::Boolean)), named("c2", of_kind(InstanceType::Null))],
        &["c1"],
    );
    let components = vec![];
    let parts = [
        collect_fields(&first, &components).unwrap(),
        collect_fields(&second, &components).unwrap(),
        collect_fields(&third, &components).unwrap(),
    ];
    let all = collect_fields(&all_of(vec![first, second, third]), &components).unwrap();
    assert_eq!(all, parts.concat());
    assert_eq!(names(&all), vec!["a1", "a2", "b1", "c1", "c2"]);
}

#[test]
fn conjunction_does_not_merge_equal_names() {
    let first = object(vec![named("id", of_kind(InstanceType::String))], &["id"]);
    let second = object(vec![named("id", of_kind(InstanceType::Integer))], &[]);
    let all = collect_fields(&all_of(vec![first, second]), &vec![]).unwrap();
    assert_eq!(
        all,
        vec![
            field("id", of_kind(InstanceType::String), true),
            field("id", of_kind(InstanceType::Integer), false),
        ]
    );
}

#[test]
fn conjunctions_nest() {
    let inner = all_of(vec![
        object(vec![named("a", of_kind(InstanceType::String))], &[]),
        object(vec![named("b", of_kind(InstanceType::String))], &[]),
    ]);
    let outer = all_of(vec![inner, object(vec![named("c", of_kind(InstanceType::String))], &[])]);
    assert_eq!(names(&collect_fields(&outer, &vec![]).unwrap()), vec!["a", "b", "c"]);
}

#[test]
fn conjunction_takes_precedence_over_own_properties() {
    let mut node = all_of(vec![object(vec![named("a", of_kind(InstanceType::String))], &[])]);
    node.object = Some(ObjectValidation {
        required: vec![],
        properties: vec![named("own", of_kind(InstanceType::String))],
        additional_properties: None,
    });
    assert_eq!(names(&collect_fields(&node, &vec![]).unwrap()), vec!["a"]);
}

#[test]
fn an_empty_conjunction_has_no_fields() {
    assert_eq!(collect_fields(&all_of(vec![]), &vec![]), Ok(vec![]));
}

#[test]
fn boolean_members_of_a_conjunction_add_nothing() {
    let node = SchemaObject {
        subschemas: Some(SubschemaValidation {
            all_of: Some(vec![
                Schema::Bool(true),
                Schema::Object(object(vec![named("a", of_kind(InstanceType::String))], &[])),
                Schema::Bool(false),
            ]),
            any_of: None,
            one_of: None,
        }),
        ..SchemaObject::default()
    };
    assert_eq!(names(&collect_fields(&node, &vec![]).unwrap()), vec!["a"]);
}

#[test]
fn the_same_type_may_be_reached_twice() {
    let components = vec![
        named("Base", object(vec![named("id", of_kind(InstanceType::String))], &["id"])),
        named("Left", reference("#/components/schemas/Base")),
        named("Right", reference("#/components/schemas/Base")),
    ];
    let node = all_of(vec![
        reference("#/components/schemas/Left"),
        reference("#/components/schemas/Right"),
    ]);
    assert_eq!(names(&collect_fields(&node, &components).unwrap()), vec!["id", "id"]);
}

#[test]
fn an_unknown_reference_is_an_error() {
    let components = vec![named("B", SchemaObject::default())];
    assert_eq!(
        collect_fields(&reference("#/components/schemas/Missing"), &components),
        Err(GenError::UnknownReference("Missing".to_string()))
    );
    assert_eq!(
        collect_fields(&reference("#/components/schemas/"), &components),
        Err(GenError::UnknownReference(String::new()))
    );
}

#[test]
fn a_malformed_reference_is_an_error() {
    let components = vec![named("B", SchemaObject::default())];
    assert_eq!(
        collect_fields(&reference("B"), &components),
        Err(GenError::MalformedReference("B".to_string()))
    );
}

#[test]
fn a_reference_to_itself_is_cyclic() {
    let components = vec![named("A", reference("#/components/schemas/A"))];
    assert_eq!(
        collect_fields(&reference("#/components/schemas/A"), &components),
        Err(GenError::CyclicReference("A".to_string()))
    );
}

#[test]
fn a_reference_cycle_through_a_conjunction_is_cyclic() {
    let components = vec![
        named(
            "A",
            all_of(vec![
                object(vec![named("a", of_kind(InstanceType::String))], &[]),
                reference("#/components/schemas/B"),
            ]),
        ),
        named("B", reference("#/components/schemas/A")),
    ];
    assert_eq!(
        resolve_components(&spec_with(Some(components))),
        Err(GenError::CyclicReference("B".to_string()))
    );
}

#[test]
fn the_first_failing_branch_decides_the_error() {
    let components = vec![];
    let node = all_of(vec![
        object(vec![named("a", of_kind(InstanceType::String))], &[]),
        reference("#/components/schemas/First"),
        reference("Second"),
    ]);
    assert_eq!(
        collect_fields(&node, &components),
        Err(GenError::UnknownReference("First".to_string()))
    );
}

#[test]
fn the_last_declaration_of_a_name_is_found() {
    let components = vec![
        named("B", object(vec![named("old", of_kind(InstanceType::String))], &[])),
        named("B", object(vec![named("new", of_kind(InstanceType::String))], &[])),
    ];
    let fields = collect_fields(&reference("#/components/schemas/B"), &components).unwrap();
    assert_eq!(names(&fields), vec!["new"]);
}

#[test]
fn a_document_without_schemas_has_no_catalog() {
    assert_eq!(resolve_components(&spec_with(None)), Err(GenError::MissingComponents));
    let bare = OpenRpc {
        openrpc: "1.2.6".to_string(),
        info: Some(Info { title: None, version: None, description: None }),
        methods: vec![],
        components: None,
    };
    assert_eq!(resolve_components(&bare), Err(GenError::MissingComponents));
}

#[test]
fn an_empty_schema_section_has_an_empty_catalog() {
    assert_eq!(resolve_components(&spec_with(Some(vec![]))), Ok(vec![]));
}

#[test]
fn the_catalog_has_one_entry_per_schema_in_declaration_order() {
    let components = vec![
        named("zebra", of_kind(InstanceType::String)),
        NamedSchema { name: "flag".to_string(), schema: Schema::Bool(true) },
        named("apple", object(vec![named("x", of_kind(InstanceType::String))], &[])),
    ];
    let catalog = resolve_components(&spec_with(Some(components))).unwrap();
    let order: Vec<&str> = catalog.iter().map(|t| t.name.as_str()).collect();
    assert_eq!(order, vec!["zebra", "flag", "apple"]);
    assert_eq!(catalog[0].schema, of_kind(InstanceType::String));
    assert_eq!(catalog[0].fields, vec![]);
    assert_eq!(catalog[1].schema, SchemaObject::default());
    assert_eq!(catalog[1].fields, vec![]);
    assert_eq!(names(&catalog[2].fields), vec!["x"]);
    assert_eq!(catalog[2].clone(), catalog[2]);
}

#[test]
fn a_failing_schema_fails_the_catalog() {
    let components = vec![
        named("Good", of_kind(InstanceType::String)),
        named("Bad", reference("#/components/schemas/Nowhere")),
    ];
    assert_eq!(
        resolve_components(&spec_with(Some(components))),
        Err(GenError::UnknownReference("Nowhere".to_string()))
    );
}

#[test]
fn array_item_schema_of_a_single_item() {
    let array = ArrayValidation {
        items: Some(Items::Single(Box::new(Schema::Object(of_kind(InstanceType::Integer))))),
    };
    assert_eq!(array_item_schema(&array), Some(of_kind(InstanceType::Integer)));
    let any = ArrayValidation { items: Some(Items::Single(Box::new(Schema::Bool(true)))) };
    assert_eq!(array_item_schema(&any), Some(SchemaObject::default()));
}

#[test]
fn array_item_schema_of_a_list_is_its_first() {
    let array = ArrayValidation {
        items: Some(Items::Vec(vec![
            Schema::Object(of_kind(InstanceType::String)),
            Schema::Object(of_kind(InstanceType::Integer)),
        ])),
    };
    assert_eq!(array_item_schema(&array), Some(of_kind(InstanceType::String)));
}

#[test]
fn array_item_schema_where_none_is_declared() {
    assert_eq!(array_item_schema(&ArrayValidation { items: None }), None);
    assert_eq!(array_item_schema(&ArrayValidation { items: Some(Items::Vec(vec![])) }), None);
}

#[test]
fn additional_properties_of_each_form() {
    let with = |additional: Option<AdditionalProperties>| ObjectValidation {
        required: vec![],
        properties: vec![],
        additional_properties: additional,
    };
    assert_eq!(object_additional_properties(&with(None)), None);
    assert_eq!(object_additional_properties(&with(Some(AdditionalProperties::Bool(false)))), None);
    assert_eq!(
        object_additional_properties(&with(Some(AdditionalProperties::Bool(true)))),
        Some(SchemaObject {
            instance_type: Some(InstanceTypes::Vec(vec![InstanceType::Object])),
            ..SchemaObject::default()
        })
    );
    assert_eq!(
        object_additional_properties(&with(Some(AdditionalProperties::Schema(Box::new(
            Schema::Object(of_kind(InstanceType::Integer))
        ))))),
        Some(of_kind(InstanceType::Integer))
    );
    assert_eq!(
        object_additional_properties(&with(Some(AdditionalProperties::Schema(Box::new(
            Schema::Bool(true)
        ))))),
        Some(SchemaObject::default())
    );
}

#[test]
fn one_of_and_any_of_are_normalized_lists() {
    let subschemas = SubschemaValidation {
        all_of: None,
        any_of: Some(vec![Schema::Bool(true), Schema::Object(of_kind(InstanceType::Null))]),
        one_of: Some(vec![
            Schema::Object(of_kind(InstanceType::String)),
            Schema::Object(of_kind(InstanceType::Integer)),
        ]),
    };
    assert_eq!(
        one_of(&subschemas),
        Some(vec![of_kind(InstanceType::String), of_kind(InstanceType::Integer)])
    );
    assert_eq!(
        any_of(&subschemas),
        Some(vec![SchemaObject::default(), of_kind(InstanceType::Null)])
    );
    let none = SubschemaValidation { all_of: Some(vec![]), any_of: None, one_of: None };
    assert_eq!(one_of(&none), None);
    assert_eq!(any_of(&none), None);
}
