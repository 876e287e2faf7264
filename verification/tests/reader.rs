use sahih::codegen::model::{PropertyMetadata, PropertyType, SchemaAnnotations};
use sahih::codegen::{InterfaceGenerator, ValidationGenerator};
use sahih::reader::{
    consume_schemas, RawDocument, RawNamedSchema, RawProperty, RawPropertyEntry,
    RawPropertyKind, RawPropertySchema, RawSchema, RawSchemaEntry, RawSchemaKind, ReadError,
};

fn inline_property(name: &str, kind: RawPropertyKind) -> RawProperty {
    RawProperty {
        name: name.to_string(),
        entry: RawPropertyEntry::Inline(RawPropertySchema {
            data: PropertyMetadata::default(),
            kind,
        }),
    }
}

fn object_entry(name: &str, properties: Vec<RawProperty>) -> RawNamedSchema {
    RawNamedSchema {
        name: name.to_string(),
        schema: RawSchemaEntry::Inline(RawSchema {
            data: SchemaAnnotations::default(),
            kind: RawSchemaKind::Object(properties),
        }),
    }
}

#[test]
fn it_normalizes_an_object_schema() {
    let doc = RawDocument {
        schemas: Some(vec![object_entry(
            "Foo",
            vec![inline_property("testprop", RawPropertyKind::Boolean)],
        )]),
    };

    let models = consume_schemas(&doc).unwrap();
    assert_eq!(models.len(), 1);
    assert_eq!(models[0].name, "Foo");
    assert_eq!(
        InterfaceGenerator::from(&models[0]).build(),
        "interface Foo {\n\ttestprop: boolean\n}"
    );
}

#[test]
fn it_fails_without_a_components_section() {
    let doc = RawDocument { schemas: None };

    assert_eq!(consume_schemas(&doc).unwrap_err(), ReadError::MissingComponents);
}

#[test]
fn it_skips_referenced_schemas_silently() {
    let doc = RawDocument {
        schemas: Some(vec![
            RawNamedSchema { name: "Linked".to_string(), schema: RawSchemaEntry::Reference },
            object_entry("Kept", vec![]),
        ]),
    };

    let models = consume_schemas(&doc).unwrap();
    assert_eq!(models.len(), 1);
    assert_eq!(models[0].name, "Kept");
}

#[test]
fn it_skips_non_object_roots() {
    let doc = RawDocument {
        schemas: Some(vec![
            RawNamedSchema {
                name: "JustAString".to_string(),
                schema: RawSchemaEntry::Inline(RawSchema {
                    data: SchemaAnnotations::default(),
                    kind: RawSchemaKind::Primitive,
                }),
            },
            RawNamedSchema {
                name: "AllOfThem".to_string(),
                schema: RawSchemaEntry::Inline(RawSchema {
                    data: SchemaAnnotations::default(),
                    kind: RawSchemaKind::Composite,
                }),
            },
        ]),
    };

    let models = consume_schemas(&doc).unwrap();
    assert_eq!(models.len(), 0);
}

#[test]
fn it_skips_unresolvable_properties() {
    let doc = RawDocument {
        schemas: Some(vec![object_entry(
            "Partial",
            vec![
                RawProperty { name: "linked".to_string(), entry: RawPropertyEntry::Reference },
                inline_property("nested", RawPropertyKind::Composite),
                inline_property("kept", RawPropertyKind::String),
            ],
        )]),
    };

    let models = consume_schemas(&doc).unwrap();
    assert_eq!(models.len(), 1);
    assert_eq!(
        InterfaceGenerator::from(&models[0]).build(),
        "interface Partial {\n\tkept: string\n}"
    );
}

#[test]
fn it_collapses_exotic_property_types() {
    let doc = RawDocument {
        schemas: Some(vec![object_entry(
            "Exotic",
            vec![inline_property("anything", RawPropertyKind::OtherType)],
        )]),
    };

    let models = consume_schemas(&doc).unwrap();
    assert_eq!(models[0].properties.len(), 1);
    assert_eq!(
        InterfaceGenerator::from(&models[0]).build(),
        "interface Exotic {\n\tanything: unknown\n}"
    );
    assert_eq!(
        ValidationGenerator::from(&models[0]).build(),
        "export const ExoticValidator = yup.object().shape({ anything: yup.mixed().required(),\n });\n"
    );
}

#[test]
fn it_keeps_the_place_of_a_repeated_property_name() {
    let doc = RawDocument {
        schemas: Some(vec![object_entry(
            "Rewritten",
            vec![
                inline_property("twice", RawPropertyKind::String),
                inline_property("after", RawPropertyKind::Boolean),
                inline_property("twice", RawPropertyKind::Number),
            ],
        )]),
    };

    let models = consume_schemas(&doc).unwrap();
    assert_eq!(
        InterfaceGenerator::from(&models[0]).build(),
        "interface Rewritten {\n\ttwice: number\n\tafter: boolean\n}"
    );
}

#[test]
fn it_normalizes_properties_with_constraints() {
    let mut data = PropertyMetadata::default();
    data.min_length = Some(3);
    let doc = RawDocument {
        schemas: Some(vec![object_entry(
            "Named",
            vec![RawProperty {
                name: "code".to_string(),
                entry: RawPropertyEntry::Inline(RawPropertySchema {
                    data,
                    kind: RawPropertyKind::String,
                }),
            }],
        )]),
    };

    let models = consume_schemas(&doc).unwrap();
    assert_eq!(
        ValidationGenerator::from(&models[0]).build(),
        "export const NamedValidator = yup.object().shape({ code: yup.string().min(3).required(),\n });\n"
    );
}

#[test]
fn it_maps_every_supported_property_type() {
    let doc = RawDocument {
        schemas: Some(vec![object_entry(
            "Kinds",
            vec![
                inline_property("n", RawPropertyKind::Number),
                inline_property("s", RawPropertyKind::String),
                inline_property("b", RawPropertyKind::Boolean),
            ],
        )]),
    };

    let models = consume_schemas(&doc).unwrap();
    let model = &models[0];
    assert_eq!(model.properties["n"].prop_type, PropertyType::Number);
    assert_eq!(model.properties["s"].prop_type, PropertyType::String);
    assert_eq!(model.properties["b"].prop_type, PropertyType::Boolean);
}
