use mdmodels_macro::enums::{generate_enum, key_lt, EnumDef};
use mdmodels_macro::field::{
    get_builder_attr, get_data_type, get_serde_attr, wrap_dtype, DataType, Primitive, SerdeHint,
    Shape,
};
use mdmodels_macro::is_reserved;
use mdmodels_macro::model::{
    generate, generate_field, module_name, AttributeDef, GenError, Model, NameKind, ObjectDef,
};

fn attr(name: &str, dtype: &str, is_array: bool, required: bool) -> AttributeDef {
    AttributeDef {
        name: name.to_string(),
        dtypes: vec![dtype.to_string()],
        is_array,
        required,
    }
}

fn mapping(pairs: &[(&str, &str)]) -> Vec<(String, String)> {
    pairs.iter().map(|(k, v)| (k.to_string(), v.to_string())).collect()
}

#[test]
fn primitive_names_resolve() {
    assert!(matches!(get_data_type("integer"), DataType::Primitive(Primitive::Int32)));
    assert!(matches!(get_data_type("float"), DataType::Primitive(Primitive::Float32)));
    assert!(matches!(get_data_type("string"), DataType::Primitive(Primitive::Text)));
    assert!(matches!(get_data_type("boolean"), DataType::Primitive(Primitive::Boolean)));
}

#[test]
fn other_names_are_references() {
    match get_data_type("Nested") {
        DataType::Reference(n) => assert_eq!(n, "Nested"),
        DataType::Primitive(_) => panic!("expected a reference"),
    }
    match get_data_type("Integer") {
        DataType::Reference(n) => assert_eq!(n, "Integer"),
        DataType::Primitive(_) => panic!("expected a reference"),
    }
}

#[test]
fn shape_table_for_primitives() {
    let t = || DataType::Primitive(Primitive::Int32);
    assert_eq!(wrap_dtype(false, true, t()).shape, Shape::Bare);
    assert_eq!(wrap_dtype(false, false, t()).shape, Shape::Optional);
    assert_eq!(wrap_dtype(true, true, t()).shape, Shape::Sequence);
    assert_eq!(wrap_dtype(true, false, t()).shape, Shape::OptionalSequence);
}

#[test]
fn shape_table_for_references() {
    let t = || DataType::Reference("Nested".to_string());
    assert_eq!(wrap_dtype(false, true, t()).shape, Shape::Bare);
    assert_eq!(wrap_dtype(false, false, t()).shape, Shape::Optional);
    assert_eq!(wrap_dtype(true, true, t()).shape, Shape::Sequence);
    assert_eq!(wrap_dtype(true, false, t()).shape, Shape::Sequence);
}

#[test]
fn serde_hints_by_flags() {
    assert_eq!(get_serde_attr(false, true), SerdeHint::NoHint);
    assert_eq!(get_serde_attr(false, false), SerdeHint::SkipIfAbsent);
    assert_eq!(get_serde_attr(true, true), SerdeHint::DefaultIfMissing);
    assert_eq!(get_serde_attr(true, false), SerdeHint::DefaultIfMissing);
}

#[test]
fn builder_settings_by_flags() {
    let b = get_builder_attr(true, false, "values");
    assert!(b.strip_option);
    assert_eq!(b.each, Some("to_values".to_string()));
    let b = get_builder_attr(false, true, "value");
    assert!(!b.strip_option);
    assert_eq!(b.each, None);
}

#[test]
fn reserved_words_are_rejected() {
    for w in ["type", "struct", "enum", "use", "crate", "mod", "fn", "impl", "trait"] {
        assert!(is_reserved(w), "{}", w);
    }
}

#[test]
fn other_words_are_accepted() {
    for w in ["Type", "TYPE", "types", "", "Object", "self", "typ", "Fn", "impl_"] {
        assert!(!is_reserved(w), "{}", w);
    }
}

#[test]
fn object_with_required_and_optional_fields() {
    let model = Model {
        name: None,
        objects: vec![ObjectDef {
            name: "Object".to_string(),
            attributes: vec![attr("name", "string", false, true), attr("age", "integer", false, false)],
        }],
        enums: vec![],
    };
    let module = generate(&model).unwrap();
    let object = &module.objects[0];
    assert_eq!(object.name, "Object");
    let name = &object.fields[0];
    assert_eq!(name.name, "name");
    assert_eq!(name.serde, SerdeHint::NoHint);
    assert_eq!(name.field_type.shape, Shape::Bare);
    assert!(matches!(name.field_type.dtype, DataType::Primitive(Primitive::Text)));
    let age = &object.fields[1];
    assert_eq!(age.serde, SerdeHint::SkipIfAbsent);
    assert_eq!(age.field_type.shape, Shape::Optional);
    assert!(matches!(age.field_type.dtype, DataType::Primitive(Primitive::Int32)));
    assert!(age.builder.strip_option);
    assert_eq!(age.builder.each, None);
}

#[test]
fn accessor_names() {
    let f = generate_field(&attr("value", "string", false, true));
    assert_eq!(f.getter, "get_value");
    assert_eq!(f.setter, "set_value");
}

#[test]
fn first_type_name_counts() {
    let a = AttributeDef {
        name: "x".to_string(),
        dtypes: vec!["boolean".to_string(), "string".to_string()],
        is_array: false,
        required: true,
    };
    assert!(matches!(generate_field(&a).field_type.dtype, DataType::Primitive(Primitive::Boolean)));
}

#[test]
fn enum_alpha_beta() {
    let e = generate_enum(&mapping(&[("a", "alpha"), ("b", "beta")]), "Letters");
    assert_eq!(e.name, "Letters");
    assert_eq!(e.variants.len(), 2);
    assert_eq!(e.default_variant().ident, "A");
    assert_eq!(e.variants[0].ident, "A");
    assert_eq!(e.stringify(0), "alpha");
    assert_eq!(e.variants[1].ident, "B");
    assert_eq!(e.stringify(1), "beta");
}

#[test]
fn enum_default_is_smallest_key_in_camel_case() {
    let e = generate_enum(&mapping(&[("first_value", "one"), ("second_value", "two")]), "E");
    assert_eq!(e.default_variant().ident, "FirstValue");
    assert_eq!(e.variants[1].ident, "SecondValue");
    assert_eq!(e.stringify(1), "two");
}

#[test]
fn reserved_object_name_aborts() {
    let model = Model {
        name: Some("m".to_string()),
        objects: vec![
            ObjectDef { name: "Fine".to_string(), attributes: vec![] },
            ObjectDef { name: "type".to_string(), attributes: vec![attr("a", "string", false, true)] },
        ],
        enums: vec![EnumDef { name: "impl".to_string(), mappings: mapping(&[("a", "b")]) }],
    };
    assert_eq!(generate(&model).unwrap_err(), GenError::ReservedName(NameKind::Object, "type".to_string()));
}

#[test]
fn reserved_enum_name_aborts() {
    let model = Model {
        name: None,
        objects: vec![ObjectDef { name: "Type".to_string(), attributes: vec![] }],
        enums: vec![EnumDef { name: "trait".to_string(), mappings: mapping(&[("a", "b")]) }],
    };
    assert_eq!(generate(&model).unwrap_err(), GenError::ReservedName(NameKind::Enum, "trait".to_string()));
}

#[test]
fn empty_model_gives_empty_namespace() {
    let model = Model { name: None, objects: vec![], enums: vec![] };
    let module = generate(&model).unwrap();
    assert_eq!(module.name, "model");
    assert!(module.objects.is_empty());
    assert!(module.enums.is_empty());
}

#[test]
fn namespace_is_snake_case() {
    assert_eq!(module_name(&Some("My Model".to_string())), "my_model");
    assert_eq!(module_name(&Some("DataModel".to_string())), "data_model");
    assert_eq!(module_name(&None), "model");
}

#[test]
fn whole_model_generates_in_order() {
    let model = Model {
        name: Some("Test".to_string()),
        objects: vec![
            ObjectDef {
                name: "Object".to_string(),
                attributes: vec![
                    attr("multiple_values", "float", true, false),
                    attr("multiple_nested_objects", "Nested", true, false),
                    attr("enum_value", "SomeEnum", false, false),
                ],
            },
            ObjectDef { name: "Nested".to_string(), attributes: vec![attr("value", "string", false, false)] },
        ],
        enums: vec![EnumDef { name: "SomeEnum".to_string(), mappings: mapping(&[("value", "value")]) }],
    };
    let module = generate(&model).unwrap();
    assert_eq!(module.name, "test");
    assert_eq!(module.objects.len(), 2);
    let f = &module.objects[0].fields;
    assert_eq!(f[0].field_type.shape, Shape::OptionalSequence);
    assert_eq!(f[0].builder.each, Some("to_multiple_values".to_string()));
    assert_eq!(f[1].field_type.shape, Shape::Sequence);
    assert_eq!(f[1].serde, SerdeHint::DefaultIfMissing);
    match &f[2].field_type.dtype {
        DataType::Reference(n) => assert_eq!(n, "SomeEnum"),
        DataType::Primitive(_) => panic!("expected a reference"),
    }
    assert_eq!(module.objects[1].name, "Nested");
    assert_eq!(module.enums.len(), 1);
    assert_eq!(module.enums[0].default_variant().ident, "Value");
    assert_eq!(module.enums[0].stringify(0), "value");
}

#[test]
fn key_order_is_by_code_point() {
    assert!(key_lt("a", "b"));
    assert!(!key_lt("b", "a"));
    assert!(key_lt("", "a"));
    assert!(!key_lt("a", "a"));
    assert!(key_lt("ab", "abc"));
    assert!(key_lt("B", "a"));
    assert!(!key_lt("b", "B"));
}

#[test]
fn enum_mapping_order_check() {
    let def = |m: &[(&str, &str)]| EnumDef { name: "E".to_string(), mappings: mapping(m) };
    assert!(def(&[("a", "alpha"), ("b", "beta")]).is_wf());
    assert!(def(&[("only", "one")]).is_wf());
    assert!(!def(&[("b", "beta"), ("a", "alpha")]).is_wf());
    assert!(!def(&[("a", "x"), ("a", "y")]).is_wf());
    assert!(!def(&[]).is_wf());
}

#[test]
fn model_well_formedness_check() {
    let good = Model {
        name: None,
        objects: vec![ObjectDef { name: "O".to_string(), attributes: vec![attr("a", "string", false, true)] }],
        enums: vec![EnumDef { name: "E".to_string(), mappings: mapping(&[("a", "x"), ("b", "y")]) }],
    };
    assert!(good.is_wf());
    let mut no_type = good.clone();
    no_type.objects[0].attributes[0].dtypes.clear();
    assert!(!no_type.is_wf());
    let mut empty_enum = good.clone();
    empty_enum.enums[0].mappings.clear();
    assert!(!empty_enum.is_wf());
    let mut unsorted = good.clone();
    unsorted.enums[0].mappings.reverse();
    assert!(!unsorted.is_wf());
}
