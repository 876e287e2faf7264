use sahih::codegen::model::{PropertyMetadata, SchemaAnnotations};
use sahih::config::{ConfigManager, SahihConfig, SahihInputConfig, SahihOutputConfig};
use sahih::printer::{Color, ColorPalette};
use sahih::reader::{
    consume_schemas, RawDocument, RawNamedSchema, RawProperty, RawPropertyEntry,
    RawPropertyKind, RawPropertySchema, RawSchema, RawSchemaEntry, RawSchemaKind,
};
use sahih::render_models;

fn boolean_model_doc() -> RawDocument {
    RawDocument {
        schemas: Some(vec![RawNamedSchema {
            name: "Foo".to_string(),
            schema: RawSchemaEntry::Inline(RawSchema {
                data: SchemaAnnotations::default(),
                kind: RawSchemaKind::Object(vec![RawProperty {
                    name: "testprop".to_string(),
                    entry: RawPropertyEntry::Inline(RawPropertySchema {
                        data: PropertyMetadata::default(),
                        kind: RawPropertyKind::Boolean,
                    }),
                }]),
            }),
        }]),
    }
}

#[test]
fn it_renders_one_block_per_model() {
    let models = consume_schemas(&boolean_model_doc()).unwrap();

    assert_eq!(
        render_models(&models),
        "interface Foo {\n\ttestprop: boolean\n}\nexport const FooValidator = yup.object().shape({ testprop: yup.mixed().required(),\n });\n\n\n\n"
    );
}

#[test]
fn it_renders_an_empty_model_block() {
    let doc = RawDocument {
        schemas: Some(vec![RawNamedSchema {
            name: "Empty".to_string(),
            schema: RawSchemaEntry::Inline(RawSchema {
                data: SchemaAnnotations::default(),
                kind: RawSchemaKind::Object(vec![]),
            }),
        }]),
    };
    let models = consume_schemas(&doc).unwrap();

    assert_eq!(
        render_models(&models),
        "interface Empty {\n}\nexport const EmptyValidator = yup.object().shape({  });\n\n\n\n"
    );
}

#[test]
fn it_renders_models_deterministically() {
    let models = consume_schemas(&boolean_model_doc()).unwrap();

    assert_eq!(render_models(&models), render_models(&models));
}

#[test]
fn it_holds_a_project_configuration() {
    let manager = ConfigManager {
        projects: vec![(
            "schemaalpha".to_string(),
            SahihConfig {
                output: SahihOutputConfig {
                    target: "./assets/generated/model".to_string(),
                    overwrite: false,
                },
                input: SahihInputConfig {
                    target: "./fixtures/api-schema.json".to_string(),
                    from_url: false,
                },
            },
        )],
    };

    assert_eq!(manager.projects.len(), 1);
    assert_eq!(manager.projects[0].0, "schemaalpha");
    assert_eq!(manager.projects[0].1.output.target, "./assets/generated/model");
}

#[test]
fn it_maps_the_palette_to_fixed_options() {
    let bold_green = ColorPalette::BoldGreen.to_color();
    assert_eq!(bold_green.color, Color::Green);
    assert!(bold_green.is_bold);

    let blue = ColorPalette::Blue.to_color();
    assert_eq!(blue.color, Color::Blue);
    assert!(!blue.is_bold);
}
