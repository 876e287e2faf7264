use sahih::codegen::model::{ModelProperty, PropertyMetadata, PropertyType};
use sahih::codegen::validation::{NumberRules, PropRules, StringRules, ValidationGenerator};
use sahih::text::Decimal;

#[test]
fn it_builds_number_rules() {
    let rules = vec![
        NumberRules::Min(Decimal::new(false, vec![1, 0], vec![4])),
        NumberRules::Max(Decimal::new(false, vec![4, 0], vec![0])),
    ];
    let prop_rules = PropRules::Number(rules);
    let built_rules = prop_rules.build();
    assert_eq!(built_rules, ".number().min(10.4).max(40).required()");
}

#[test]
fn it_builds_string_match() {
    let rules = vec![StringRules::Matches("^[A-Z]{3}$".to_string())];
    let prop_rules = PropRules::String(rules);
    let built_rules = prop_rules.build();
    assert_eq!(built_rules, r#".string().matches(/^[A-Z]{3}$/).required()"#);
}

#[test]
fn it_builds_string_len() {
    let rules = vec![StringRules::Min(8), StringRules::Max(128)];
    let prop_rules = PropRules::String(rules);
    let built_rules = prop_rules.build();
    assert_eq!(built_rules, ".string().min(8).max(128).required()");
}

#[test]
fn it_builds_string_email() {
    let rules = vec![StringRules::Email];
    let prop_rules = PropRules::String(rules);
    let built_rules = prop_rules.build();
    assert_eq!(built_rules, ".string().email().required()");
}

#[test]
fn it_builds_string_uuid() {
    let rules = vec![StringRules::Uuid];
    let prop_rules = PropRules::String(rules);
    let built_rules = prop_rules.build();
    assert_eq!(built_rules, ".string().uuid().required()");
}

#[test]
fn it_builds_string_one_of() {
    let rules = vec![StringRules::OneOf(vec!["a".to_string(), "b".to_string()])];
    let prop_rules = PropRules::String(rules);
    assert_eq!(prop_rules.build(), ".string()`a`,`b`.required()");
}

#[test]
fn it_builds_unsupported_as_mixed() {
    assert_eq!(PropRules::Unsupported.build(), ".mixed().required()");
}

#[test]
fn it_renders_negative_decimals() {
    let rules = vec![NumberRules::Min(Decimal::new(true, vec![5], vec![]))];
    let prop_rules = PropRules::Number(rules);
    assert_eq!(prop_rules.build(), ".number().min(-5).required()");
}

#[test]
fn it_keeps_fractional_digits_and_drops_integral_ones() {
    let fractional = Decimal::new(false, vec![1, 0], vec![4]);
    assert_eq!(fractional.render(), "10.4");

    let integral = Decimal::new(false, vec![4, 0], vec![0]);
    assert_eq!(integral.render(), "40");

    let trailing = Decimal::new(false, vec![2], vec![5, 0, 0]);
    assert_eq!(trailing.render(), "2.5");

    let zero = Decimal::new(false, vec![0], vec![]);
    assert_eq!(zero.render(), "0");

    let inner_zero = Decimal::new(false, vec![1, 0], vec![0, 4]);
    assert_eq!(inner_zero.render(), "10.04");

    let hundreds = Decimal::new(false, vec![1, 0, 0], vec![]);
    assert_eq!(hundreds.render(), "100");
}

#[test]
fn it_derives_number_rules_from_metadata() {
    let mut data = PropertyMetadata::default();
    data.minimum = Some(Decimal::new(false, vec![1, 0], vec![4]));
    data.maximum = Some(Decimal::new(false, vec![4, 0], vec![0]));
    let prop = ModelProperty {
        name: "age".to_string(),
        data,
        prop_type: PropertyType::Number,
    };

    let mut generator = ValidationGenerator::new("Person");
    generator.register_property(&prop);

    assert_eq!(
        generator.build(),
        "export const PersonValidator = yup.object().shape({ age: yup.number().min(10.4).max(40).required(),\n });\n"
    );
}

#[test]
fn it_derives_string_rules_from_metadata() {
    let mut data = PropertyMetadata::default();
    data.min_length = Some(8);
    data.max_length = Some(128);
    data.pattern = Some("^[a-z]+$".to_string());
    data.enumeration = vec!["on".to_string(), "off".to_string()];
    let prop = ModelProperty {
        name: "mode".to_string(),
        data,
        prop_type: PropertyType::String,
    };

    let mut generator = ValidationGenerator::new("Switch");
    generator.register_property(&prop);

    assert_eq!(
        generator.build(),
        "export const SwitchValidator = yup.object().shape({ mode: yup.string().min(8).max(128).matches(/^[a-z]+$/)`on`,`off`.required(),\n });\n"
    );
}

#[test]
fn it_derives_mixed_for_boolean_properties() {
    let prop = ModelProperty {
        name: "flag".to_string(),
        data: PropertyMetadata::default(),
        prop_type: PropertyType::Boolean,
    };

    let mut generator = ValidationGenerator::new("Toggle");
    generator.register_property(&prop);

    assert_eq!(
        generator.build(),
        "export const ToggleValidator = yup.object().shape({ flag: yup.mixed().required(),\n });\n"
    );
}

#[test]
fn it_builds_the_same_validator_twice() {
    let prop = ModelProperty {
        name: "flag".to_string(),
        data: PropertyMetadata::default(),
        prop_type: PropertyType::Boolean,
    };
    let mut generator = ValidationGenerator::new("Toggle");
    generator.register_property(&prop);

    assert_eq!(generator.build(), generator.build());
}
