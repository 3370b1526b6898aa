use openrpc_bindgen::mapper::build_context;
use openrpc_bindgen::mapper::go;
use openrpc_bindgen::mapper::map_primitive;
use openrpc_bindgen::mapper::map_reference;
use openrpc_bindgen::mapper::python;
use openrpc_bindgen::mapper::render_type;
use openrpc_bindgen::mapper::rust;
use openrpc_bindgen::mapper::ts;
use openrpc_bindgen::mapper::LanguageContext;
use openrpc_bindgen::resolver::ResolvedType;
use openrpc_bindgen::schema::AdditionalProperties;
use openrpc_bindgen::schema::ArrayValidation;
use openrpc_bindgen::schema::EnumValue;
use openrpc_bindgen::schema::InstanceType;
use openrpc_bindgen::schema::InstanceTypes;
use openrpc_bindgen::schema::Items;
use openrpc_bindgen::schema::ObjectValidation;
use openrpc_bindgen::schema::Schema;
use openrpc_bindgen::schema::SchemaObject;
use openrpc_bindgen::schema::SubschemaValidation;
use openrpc_bindgen::syntax::Language;

const LANGUAGES: [Language; 4] = [Language::Ts, Language::Python, Language::Go, Language::Rust];

fn of_kind(kind: InstanceType) -> SchemaObject {
    SchemaObject { instance_type: Some(InstanceTypes::Single(kind)), ..SchemaObject::default() }
}

fn reference(target: &str) -> SchemaObject {
    SchemaObject { reference: Some(target.to_string()), ..SchemaObject::default() }
}

fn array_of(item: Option<Schema>) -> SchemaObject {
    SchemaObject {
        instance_type: Some(InstanceTypes::Single(InstanceType::Array)),
        array: Some(ArrayValidation { items: item.map(|i| Items::Single(Box::new(i))) }),
        ..SchemaObject::default()
    }
}

fn map_of(additional: Option<AdditionalProperties>) -> SchemaObject {
    SchemaObject {
        instance_type: Some(InstanceTypes::Single(InstanceType::Object)),
        object: Some(ObjectValidation {
            required: vec![],
            properties: vec![],
            additional_properties: additional,
        }),
        ..SchemaObject::default()
    }
}

fn one_of(members: Vec<Schema>) -> SchemaObject {
    SchemaObject {
        subschemas: Some(SubschemaValidation { all_of: None, any_of: None, one_of: Some(members) }),
        ..SchemaObject::default()
    }
}

fn any_of(members: Vec<Schema>) -> SchemaObject {
    SchemaObject {
        subschemas: Some(SubschemaValidation { all_of: None, any_of: Some(members), one_of: None }),
        ..SchemaObject::default()
    }
}

fn enumeration(values: Vec<EnumValue>) -> SchemaObject {
    SchemaObject {
        instance_type: Some(InstanceTypes::Single(InstanceType::String)),
        enum_values: Some(values),
        ..SchemaObject::default()
    }
}

fn text(value: &str) -> EnumValue {
    EnumValue::String(value.to_string())
}

fn catalog(names: &[&str]) -> Vec<ResolvedType> {
    names
        .iter()
        .map(|n| ResolvedType {
            name: n.to_string(),
            schema: SchemaObject::default(),
            fields: vec![],
        })
        .collect()
}

fn context(lang: &str) -> LanguageContext {
    build_context(&catalog(&["user-profile", "Order", "line item"]), lang)
}

fn in_all(schema: &SchemaObject) -> [String; 4] {
    [
        ts::map_type(schema, &context("ts")),
        python::map_type(schema, &context("python")),
        go::map_type(schema, &context("go")),
        rust::map_type(schema, &context("rust")),
    ]
}

#[test]
fn context_knows_its_language() {
    assert_eq!(context("ts").language(), "ts");
    assert_eq!(context("typescript").language(), "typescript");
    assert_eq!(context("cobol").language(), "cobol");
    assert_eq!(build_context(&[], "").language(), "");
}

#[test]
fn context_names_catalog_types_by_their_sanitized_name() {
    for lang in ["ts", "typescript", "python", "go", "rust", "cobol"] {
        let ctx = context(lang);
        assert_eq!(ctx.type_ident("user-profile"), "UserProfile");
        assert_eq!(ctx.type_ident("Order"), "Order");
        assert_eq!(ctx.type_ident("line item"), "LineItem");
    }
}

#[test]
fn context_sanitizes_names_outside_the_catalog() {
    let ctx = context("go");
    assert_eq!(ctx.type_ident("not-in-catalog"), "NotInCatalog");
    assert_eq!(ctx.type_ident("--"), "Type");
    assert_eq!(build_context(&[], "go").type_ident("user-profile"), "UserProfile");
}

#[test]
fn context_of_a_catalog_with_a_repeated_name() {
    let ctx = build_context(&catalog(&["a-b", "c", "a-b"]), "rust");
    assert_eq!(ctx.type_ident("a-b"), "AB");
    assert_eq!(ctx.type_ident("c"), "C");
}

#[test]
fn wrap_optional_in_each_language() {
    assert_eq!(context("ts").wrap_optional("string"), "string | null");
    assert_eq!(context("typescript").wrap_optional("string"), "string | null");
    assert_eq!(context("python").wrap_optional("str"), "Optional[str]");
    assert_eq!(context("go").wrap_optional("string"), "*string");
    assert_eq!(context("rust").wrap_optional("String"), "Option<String>");
}

#[test]
fn wrap_optional_in_an_unknown_language_changes_nothing() {
    assert_eq!(context("cobol").wrap_optional("PIC X"), "PIC X");
    assert_eq!(context("TS").wrap_optional("string"), "string");
    assert_eq!(context("").wrap_optional(""), "");
}

#[test]
fn wrap_optional_of_the_empty_expression() {
    assert_eq!(context("ts").wrap_optional(""), " | null");
    assert_eq!(context("python").wrap_optional(""), "Optional[]");
    assert_eq!(context("go").wrap_optional(""), "*");
    assert_eq!(context("rust").wrap_optional(""), "Option<>");
}

#[test]
fn removing_the_wrapper_recovers_the_required_form() {
    let wrappers = [("ts", "", " | null"), ("python", "Optional[", "]"), ("go", "*", ""), ("rust", "Option<", ">")];
    for (lang, open, close) in wrappers {
        for ty in ["string", "Option<i64>", "a | null", "", "*T"] {
            let wrapped = context(lang).wrap_optional(ty);
            assert!(wrapped.len() > ty.len());
            assert_ne!(wrapped, ty);
            assert!(wrapped.starts_with(open) && wrapped.ends_with(close));
            assert_eq!(&wrapped[open.len()..wrapped.len() - close.len()], ty);
        }
    }
}

#[test]
fn map_primitive_reads_the_kind_tag() {
    assert_eq!(map_primitive(&SchemaObject::default()), None);
    assert_eq!(map_primitive(&of_kind(InstanceType::Boolean)), Some(InstanceType::Boolean));
    let list = |kinds: Vec<InstanceType>| SchemaObject {
        instance_type: Some(InstanceTypes::Vec(kinds)),
        ..SchemaObject::default()
    };
    assert_eq!(
        map_primitive(&list(vec![InstanceType::Null, InstanceType::String])),
        Some(InstanceType::Null)
    );
    assert_eq!(map_primitive(&list(vec![InstanceType::Integer])), Some(InstanceType::Integer));
    assert_eq!(map_primitive(&list(vec![])), None);
}

#[test]
fn map_reference_gives_the_sanitized_name() {
    let ctx = context("ts");
    assert_eq!(
        map_reference(&reference("#/components/schemas/user-profile"), &ctx),
        Some("UserProfile".to_string())
    );
    assert_eq!(
        map_reference(&reference("#/components/schemas/unknown thing"), &ctx),
        Some("UnknownThing".to_string())
    );
    assert_eq!(map_reference(&reference("#/components/schemas/"), &ctx), Some("Type".to_string()));
}

#[test]
fn map_reference_without_a_reference() {
    let ctx = context("ts");
    assert_eq!(map_reference(&SchemaObject::default(), &ctx), None);
    assert_eq!(map_reference(&of_kind(InstanceType::String), &ctx), None);
}

#[test]
fn map_reference_of_a_bare_name() {
    let ctx = context("ts");
    assert_eq!(map_reference(&reference("user-profile"), &ctx), Some("UserProfile".to_string()));
    assert_eq!(map_reference(&reference("#Order"), &ctx), Some("Order".to_string()));
    assert_eq!(map_reference(&reference(""), &ctx), Some("Type".to_string()));
}

#[test]
fn a_reference_maps_to_the_sanitized_name_in_every_language() {
    let mut node = reference("#/components/schemas/user-profile");
    node.instance_type = Some(InstanceTypes::Single(InstanceType::Integer));
    node.enum_values = Some(vec![text("a")]);
    for out in in_all(&node) {
        assert_eq!(out, "UserProfile");
    }
    for lang in LANGUAGES {
        assert_eq!(render_type(lang, &node, &context("cobol")), "UserProfile");
    }
}

#[test]
fn a_reference_without_separator_names_the_type_by_itself() {
    let mut node = reference("user-profile");
    node.instance_type = Some(InstanceTypes::Single(InstanceType::Boolean));
    assert_eq!(in_all(&node), ["UserProfile", "UserProfile", "UserProfile", "UserProfile"]);
    assert_eq!(in_all(&reference("Order")), ["Order", "Order", "Order", "Order"]);
}

#[test]
fn scalars_in_each_language() {
    assert_eq!(in_all(&of_kind(InstanceType::String)), ["string", "str", "string", "String"]);
    assert_eq!(in_all(&of_kind(InstanceType::Integer)), ["number", "int", "int64", "i64"]);
    assert_eq!(in_all(&of_kind(InstanceType::Number)), ["number", "float", "float64", "f64"]);
    assert_eq!(in_all(&of_kind(InstanceType::Boolean)), ["boolean", "bool", "bool", "bool"]);
    assert_eq!(
        in_all(&of_kind(InstanceType::Null)),
        ["null", "None", "interface{}", "Option<serde_json::Value>"]
    );
}

#[test]
fn an_unclassified_shape_is_the_most_permissive_type() {
    assert_eq!(
        in_all(&SchemaObject::default()),
        ["any", "Any", "interface{}", "serde_json::Value"]
    );
    let no_kind = SchemaObject {
        instance_type: Some(InstanceTypes::Vec(vec![])),
        ..SchemaObject::default()
    };
    assert_eq!(in_all(&no_kind), ["any", "Any", "interface{}", "serde_json::Value"]);
}

#[test]
fn the_first_kind_of_a_list_decides() {
    let node = SchemaObject {
        instance_type: Some(InstanceTypes::Vec(vec![InstanceType::String, InstanceType::Null])),
        ..SchemaObject::default()
    };
    assert_eq!(in_all(&node), ["string", "str", "string", "String"]);
}

#[test]
fn arrays_in_each_language() {
    let node = array_of(Some(Schema::Object(of_kind(InstanceType::String))));
    assert_eq!(in_all(&node), ["string[]", "List[str]", "[]string", "Vec<String>"]);
}

#[test]
fn arrays_without_item_shape() {
    let expected = ["any[]", "List[Any]", "[]interface{}", "Vec<serde_json::Value>"];
    assert_eq!(in_all(&array_of(None)), expected);
    assert_eq!(in_all(&of_kind(InstanceType::Array)), expected);
    assert_eq!(in_all(&array_of(Some(Schema::Bool(true)))), expected);
    let empty_list = SchemaObject {
        instance_type: Some(InstanceTypes::Single(InstanceType::Array)),
        array: Some(ArrayValidation { items: Some(Items::Vec(vec![])) }),
        ..SchemaObject::default()
    };
    assert_eq!(in_all(&empty_list), expected);
}

#[test]
fn arrays_of_a_list_of_items_take_the_first() {
    let node = SchemaObject {
        instance_type: Some(InstanceTypes::Single(InstanceType::Array)),
        array: Some(ArrayValidation {
            items: Some(Items::Vec(vec![
                Schema::Object(of_kind(InstanceType::Integer)),
                Schema::Object(of_kind(InstanceType::String)),
            ])),
        }),
        ..SchemaObject::default()
    };
    assert_eq!(in_all(&node), ["number[]", "List[int]", "[]int64", "Vec<i64>"]);
}

#[test]
fn arrays_nest() {
    let inner = array_of(Some(Schema::Object(reference("#/components/schemas/line item"))));
    let node = array_of(Some(Schema::Object(inner)));
    assert_eq!(
        in_all(&node),
        ["LineItem[][]", "List[List[LineItem]]", "[][]LineItem", "Vec<Vec<LineItem>>"]
    );
}

#[test]
fn array_items_without_the_array_kind_are_not_an_array() {
    let mut node = array_of(Some(Schema::Object(of_kind(InstanceType::String))));
    node.instance_type = None;
    assert_eq!(in_all(&node), ["any", "Any", "interface{}", "serde_json::Value"]);
}

#[test]
fn additional_properties_of_integer_is_a_map_of_integer() {
    let node = map_of(Some(AdditionalProperties::Schema(Box::new(Schema::Object(of_kind(
        InstanceType::Integer,
    ))))));
    assert_eq!(
        in_all(&node),
        [
            "Record<string, number>",
            "Dict[str, int]",
            "map[string]int64",
            "std::collections::HashMap<String, i64>",
        ]
    );
}

#[test]
fn objects_without_additional_properties_are_maps_of_anything() {
    let expected = [
        "Record<string, any>",
        "Dict[str, Any]",
        "map[string]interface{}",
        "std::collections::HashMap<String, serde_json::Value>",
    ];
    assert_eq!(in_all(&map_of(None)), expected);
    assert_eq!(in_all(&of_kind(InstanceType::Object)), expected);
    assert_eq!(in_all(&map_of(Some(AdditionalProperties::Bool(false)))), expected);
    assert_eq!(
        in_all(&map_of(Some(AdditionalProperties::Schema(Box::new(Schema::Bool(true)))))),
        expected
    );
}

#[test]
fn objects_that_admit_anything_are_maps_of_maps() {
    assert_eq!(
        in_all(&map_of(Some(AdditionalProperties::Bool(true)))),
        [
            "Record<string, Record<string, any>>",
            "Dict[str, Dict[str, Any]]",
            "map[string]map[string]interface{}",
            "std::collections::HashMap<String, std::collections::HashMap<String, serde_json::Value>>",
        ]
    );
}

#[test]
fn maps_of_arrays_of_references() {
    let node = map_of(Some(AdditionalProperties::Schema(Box::new(Schema::Object(array_of(
        Some(Schema::Object(reference("#/components/schemas/Order"))),
    ))))));
    assert_eq!(
        in_all(&node),
        [
            "Record<string, Order[]>",
            "Dict[str, List[Order]]",
            "map[string][]Order",
            "std::collections::HashMap<String, Vec<Order>>",
        ]
    );
}

#[test]
fn unions_in_each_language() {
    let members = vec![
        Schema::Object(of_kind(InstanceType::String)),
        Schema::Object(of_kind(InstanceType::Integer)),
        Schema::Object(reference("#/components/schemas/Order")),
    ];
    let expected = [
        "string | number | Order",
        "Union[str, int, Order]",
        "interface{}",
        "std::vec::Vec<String | i64 | Order>",
    ];
    assert_eq!(in_all(&one_of(members.clone())), expected);
    assert_eq!(in_all(&any_of(members)), expected);
}

#[test]
fn one_of_takes_precedence_over_any_of() {
    let node = SchemaObject {
        subschemas: Some(SubschemaValidation {
            all_of: None,
            any_of: Some(vec![Schema::Object(of_kind(InstanceType::Boolean))]),
            one_of: Some(vec![Schema::Object(of_kind(InstanceType::String))]),
        }),
        ..SchemaObject::default()
    };
    assert_eq!(in_all(&node), ["string", "Union[str]", "interface{}", "std::vec::Vec<String>"]);
}

#[test]
fn unions_of_nothing() {
    assert_eq!(in_all(&one_of(vec![])), ["", "Union[]", "interface{}", "std::vec::Vec<>"]);
}

#[test]
fn unions_with_a_boolean_member() {
    let node = any_of(vec![Schema::Bool(true), Schema::Object(of_kind(InstanceType::Null))]);
    assert_eq!(
        in_all(&node),
        [
            "any | null",
            "Union[Any, None]",
            "interface{}",
            "std::vec::Vec<serde_json::Value | Option<serde_json::Value>>",
        ]
    );
}

#[test]
fn a_conjunction_alone_is_no_union() {
    let node = SchemaObject {
        instance_type: Some(InstanceTypes::Single(InstanceType::Integer)),
        subschemas: Some(SubschemaValidation {
            all_of: Some(vec![Schema::Object(of_kind(InstanceType::String))]),
            any_of: None,
            one_of: None,
        }),
        ..SchemaObject::default()
    };
    assert_eq!(in_all(&node), ["number", "int", "int64", "i64"]);
}

#[test]
fn a_union_takes_precedence_over_the_kind() {
    let mut node = one_of(vec![Schema::Object(of_kind(InstanceType::Boolean))]);
    node.instance_type = Some(InstanceTypes::Single(InstanceType::Array));
    node.enum_values = Some(vec![text("a")]);
    assert_eq!(in_all(&node), ["boolean", "Union[bool]", "interface{}", "std::vec::Vec<bool>"]);
}

#[test]
fn enumerations_of_strings() {
    let node = enumeration(vec![text("red"), text("green"), text("blue")]);
    assert_eq!(
        in_all(&node),
        [
            "\"red\" | \"green\" | \"blue\"",
            "Literal[\"red\", \"green\", \"blue\"]",
            "string",
            "String",
        ]
    );
}

#[test]
fn enumerations_skip_values_that_are_no_strings() {
    let node = enumeration(vec![EnumValue::Other, text("on"), EnumValue::Other, text("off")]);
    assert_eq!(
        in_all(&node),
        ["\"on\" | \"off\"", "Literal[\"on\", \"off\"]", "string", "String"]
    );
}

#[test]
fn enumerations_without_strings_fall_through_to_the_kind() {
    let mut node = enumeration(vec![EnumValue::Other, EnumValue::Other]);
    node.instance_type = Some(InstanceTypes::Single(InstanceType::Integer));
    assert_eq!(in_all(&node), ["number", "int", "int64", "i64"]);
    let empty = enumeration(vec![]);
    assert_eq!(in_all(&empty), ["string", "str", "string", "String"]);
}

#[test]
fn enumerations_take_precedence_over_arrays() {
    let mut node = array_of(Some(Schema::Object(of_kind(InstanceType::String))));
    node.enum_values = Some(vec![text("x")]);
    assert_eq!(in_all(&node), ["\"x\"", "Literal[\"x\"]", "string", "String"]);
}

#[test]
fn enumerations_without_a_kind_are_strings_where_literals_have_no_type() {
    let node = SchemaObject {
        enum_values: Some(vec![text("a"), text("b")]),
        ..SchemaObject::default()
    };
    assert_eq!(in_all(&node), ["\"a\" | \"b\"", "Literal[\"a\", \"b\"]", "string", "String"]);
}

#[test]
fn enumerations_of_strings_take_precedence_over_any_kind() {
    for kind in [
        InstanceType::Integer,
        InstanceType::Number,
        InstanceType::Boolean,
        InstanceType::Null,
        InstanceType::Object,
        InstanceType::Array,
        InstanceType::String,
    ] {
        let mut node = of_kind(kind);
        node.enum_values = Some(vec![EnumValue::Other, text("on")]);
        assert_eq!(in_all(&node), ["\"on\"", "Literal[\"on\"]", "string", "String"]);
    }
}

#[test]
fn enumeration_literals_are_quoted_as_they_are() {
    let node = enumeration(vec![text(""), text("a b"), text("q\"q")]);
    assert_eq!(ts::map_type(&node, &context("ts")), "\"\" | \"a b\" | \"q\"q\"");
}

#[test]
fn mapping_twice_gives_the_same_text() {
    let node = map_of(Some(AdditionalProperties::Schema(Box::new(Schema::Object(one_of(vec![
        Schema::Object(reference("#/components/schemas/user-profile")),
        Schema::Object(array_of(Some(Schema::Object(enumeration(vec![text("a")]))))),
    ]))))));
    let ctx = context("python");
    let first = python::map_type(&node, &ctx);
    let second = python::map_type(&node, &ctx);
    assert_eq!(first, second);
    assert_eq!(first, "Dict[str, Union[UserProfile, List[Literal[\"a\"]]]]");
    assert_eq!(python::map_type(&node.clone(), &context("python")), first);
    assert_eq!(in_all(&node), in_all(&node));
}

#[test]
fn each_mapper_is_the_shared_renderer_for_its_language() {
    let node = array_of(Some(Schema::Object(of_kind(InstanceType::Number))));
    let ctx = context("ts");
    assert_eq!(ts::map_type(&node, &ctx), render_type(Language::Ts, &node, &ctx));
    assert_eq!(python::map_type(&node, &ctx), render_type(Language::Python, &node, &ctx));
    assert_eq!(go::map_type(&node, &ctx), render_type(Language::Go, &node, &ctx));
    assert_eq!(rust::map_type(&node, &ctx), render_type(Language::Rust, &node, &ctx));
}

#[test]
fn language_names() {
    assert_eq!(Language::parse("ts"), Some(Language::Ts));
    assert_eq!(Language::parse("typescript"), Some(Language::Ts));
    assert_eq!(Language::parse("python"), Some(Language::Python));
    assert_eq!(Language::parse("go"), Some(Language::Go));
    assert_eq!(Language::parse("rust"), Some(Language::Rust));
    assert_eq!(Language::parse("Rust"), None);
    assert_eq!(Language::parse("t"), None);
    assert_eq!(Language::parse(""), None);
    assert_eq!(Language::parse("golang"), None);
}
