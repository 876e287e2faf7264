use sahih::codegen::generator::{serialize_property, serialize_type, InterfaceGenerator};
use sahih::codegen::model::{ModelProperty, PropertyMetadata, PropertyType};

#[test]
fn it_serializes_numbers() {
    let to_serialize = PropertyType::Number;

    assert_eq!(serialize_type(&to_serialize), "number");
}

#[test]
fn it_serializes_strings() {
    let to_serialize = PropertyType::String;

    assert_eq!(serialize_type(&to_serialize), "string");
}

#[test]
fn it_serializes_booleans() {
    let to_serialize = PropertyType::Boolean;

    assert_eq!(serialize_type(&to_serialize), "boolean");
}

#[test]
fn it_serializes_required_prop() {
    let schema_data = PropertyMetadata::default();
    let model_prop = ModelProperty {
        name: "testprop".to_string(),
        data: schema_data,
        prop_type: PropertyType::Boolean,
    };

    assert_eq!(serialize_property(&model_prop, true), "testprop: boolean");
}

#[test]
fn it_serializes_optional_prop() {
    let schema_data = PropertyMetadata::default();
    let model_prop = ModelProperty {
        name: "testprop".to_string(),
        data: schema_data,
        prop_type: PropertyType::Boolean,
    };

    assert_eq!(serialize_property(&model_prop, false), "testprop?: boolean");
}

#[test]
fn it_serializes_unsupported_to_unknown() {
    assert_eq!(serialize_type(&PropertyType::Unsupported), "unknown");
}

#[test]
fn it_quotes_names_with_spaces() {
    let model_prop = ModelProperty {
        name: "has space".to_string(),
        data: PropertyMetadata::default(),
        prop_type: PropertyType::String,
    };

    assert_eq!(serialize_property(&model_prop, true), "\"has space\": string");
}

#[test]
fn it_builds_an_empty_interface() {
    let generator = InterfaceGenerator::new("Foo");

    assert_eq!(generator.build(), "interface Foo {\n}");
}

#[test]
fn it_deduplicates_identical_members() {
    let mut generator = InterfaceGenerator::new("Dup");
    let model_prop = ModelProperty {
        name: "x".to_string(),
        data: PropertyMetadata::default(),
        prop_type: PropertyType::String,
    };

    generator.register_property(&model_prop);
    generator.register_property(&model_prop);

    assert_eq!(generator.build(), "interface Dup {\n\tx: string\n}");
}

#[test]
fn it_builds_the_same_interface_twice() {
    let mut generator = InterfaceGenerator::new("Twice");
    let model_prop = ModelProperty {
        name: "flag".to_string(),
        data: PropertyMetadata::default(),
        prop_type: PropertyType::Boolean,
    };

    generator.register_property(&model_prop);

    assert_eq!(generator.build(), generator.build());
}
