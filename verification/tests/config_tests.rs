use plugin_config::component::ComponentConfig;
use plugin_config::conditions::ConditionKind;
use plugin_config::default_registry;
use plugin_config::event::Event;
use plugin_config::registry::{ComponentBuilder, Registry};
use plugin_config::value::ConfValue;

#[test]
fn parse_static_config() {
    let registry = default_registry();

    let config_false = ComponentConfig::from_toml_str(
        r#"
      type = "static"
      value = false
      "#,
        &registry,
    )
    .unwrap();

    assert_eq!(
        Ok(false),
        config_false
            .component
            .check(&Event::from("foo bar baz".to_owned()))
    );

    let config_true = ComponentConfig::from_toml_str(
        r#"
      type = "static"
      value = true
      "#,
        &registry,
    )
    .unwrap();

    assert_eq!(
        Ok(true),
        config_true
            .component
            .check(&Event::from("foo bar baz".to_owned()))
    );
}

#[test]
fn print_static_config() {
    let registry = default_registry();

    let config_false = ComponentConfig::from_toml_str(
        r#"
      type = "static"
      value = false
      "#,
        &registry,
    )
    .unwrap();

    assert_eq!(
        r#"type = "static"
value = false
"#,
        config_false.to_toml_string().unwrap()
    );

    let config_true = ComponentConfig::from_toml_str(
        r#"
      type = "static"
      value = true
      "#,
        &registry,
    )
    .unwrap();

    assert_eq!(
        r#"type = "static"
value = true
"#,
        config_true.to_toml_string().unwrap()
    );
}

#[test]
fn types_lists_registered_kinds() {
    let registry = default_registry();
    assert_eq!(vec!["static".to_owned()], ComponentConfig::types(&registry));
}

#[test]
fn types_stay_sorted_without_duplicates() {
    let mut registry = Registry::new();
    registry
        .register(ComponentBuilder::new("static".to_owned(), ConditionKind::Static))
        .unwrap();
    registry
        .register(ComponentBuilder::new("always".to_owned(), ConditionKind::Static))
        .unwrap();
    registry
        .register(ComponentBuilder::new("never".to_owned(), ConditionKind::Static))
        .unwrap();
    assert_eq!(
        vec!["always".to_owned(), "never".to_owned(), "static".to_owned()],
        ComponentConfig::types(&registry)
    );
}

#[test]
fn duplicate_registration_is_rejected() {
    let mut registry = Registry::new();
    registry
        .register(ComponentBuilder::new("static".to_owned(), ConditionKind::Static))
        .unwrap();
    let err = registry
        .register(ComponentBuilder::new("static".to_owned(), ConditionKind::Static))
        .unwrap_err();
    assert_eq!("duplicate kind name 'static'", err.message());
}

#[test]
fn empty_kind_name_is_rejected() {
    let mut registry = Registry::new();
    let err = registry
        .register(ComponentBuilder::new(String::new(), ConditionKind::Static))
        .unwrap_err();
    assert_eq!("kind name must not be empty", err.message());
}

#[test]
fn example_value_for_static() {
    let registry = default_registry();
    let table = ComponentConfig::example_value_for(&registry, "static").unwrap();
    let expected = vec![
        ("type".to_owned(), ConfValue::Str("static".to_owned())),
        ("value".to_owned(), ConfValue::Bool(false)),
    ];
    assert_eq!(expected, table);
}

#[test]
fn example_value_for_unknown_kind_fails() {
    let registry = default_registry();
    let err = ComponentConfig::example_value_for(&registry, "nonexistent").unwrap_err();
    assert_eq!("unrecognized type 'nonexistent'", err.message());
}

#[test]
fn examples_deserialize_for_every_kind() {
    let registry = default_registry();
    for kind in ComponentConfig::types(&registry) {
        let table = ComponentConfig::example_value_for(&registry, kind.as_str()).unwrap();
        let slot = ComponentConfig::deserialize(&table, &registry).unwrap();
        assert_eq!(
            Ok(false),
            slot.component().check(&Event::from(String::new()))
        );
    }
}

#[test]
fn unknown_kind_is_rejected() {
    let registry = default_registry();
    let err = ComponentConfig::from_toml_str(
        r#"
      type = "nonexistent"
      value = false
      "#,
        &registry,
    )
    .unwrap_err();
    assert_eq!("unrecognized type 'nonexistent'", err);
}

#[test]
fn missing_type_field_is_rejected() {
    let registry = default_registry();
    let err = ComponentConfig::from_toml_str("value = false\n", &registry).unwrap_err();
    assert_eq!("missing type field", err);
}

#[test]
fn empty_type_field_is_rejected() {
    let registry = default_registry();
    let err =
        ComponentConfig::from_toml_str("type = \"\"\nvalue = false\n", &registry).unwrap_err();
    assert_eq!("missing type field", err);
}

#[test]
fn wrongly_typed_value_field_is_rejected() {
    let registry = default_registry();
    let err =
        ComponentConfig::from_toml_str("type = \"static\"\nvalue = 3\n", &registry).unwrap_err();
    assert_eq!(
        "failed to parse type `static`: invalid type for field `value`",
        err
    );
}

#[test]
fn unknown_field_is_rejected() {
    let registry = default_registry();
    let err = ComponentConfig::from_toml_str(
        "extra = 1\ntype = \"static\"\nvalue = false\n",
        &registry,
    )
    .unwrap_err();
    assert_eq!("failed to parse type `static`: unknown field `extra`", err);
}

#[test]
fn missing_value_field_is_rejected() {
    let registry = default_registry();
    let err = ComponentConfig::from_toml_str("type = \"static\"\n", &registry).unwrap_err();
    assert_eq!("failed to parse type `static`: missing field `value`", err);
}

#[test]
fn structural_round_trip_preserves_unrecognized_shape() {
    let registry = default_registry();
    let doc = vec![
        ("type".to_owned(), ConfValue::Str("static".to_owned())),
        ("value".to_owned(), ConfValue::Bool(true)),
    ];
    let slot = ComponentConfig::deserialize(&doc, &registry).unwrap();
    assert_eq!(doc, slot.serialize());
}

#[test]
fn constant_predicate_ignores_event_content() {
    let registry = default_registry();
    let config_false = ComponentConfig::from_toml_str(
        "type = \"static\"\nvalue = false\n",
        &registry,
    )
    .unwrap();
    assert_eq!(
        Ok(false),
        config_false.component.check(&Event::from(String::new()))
    );
    assert_eq!(
        Ok(false),
        config_false
            .component
            .check(&Event::from("foo bar baz".to_owned()))
    );
    let config_true = ComponentConfig::from_toml_str(
        "type = \"static\"\nvalue = true\n",
        &registry,
    )
    .unwrap();
    assert_eq!(
        Ok(true),
        config_true.component.check(&Event::from(String::new()))
    );
    assert_eq!(
        Ok(true),
        config_true
            .component
            .check(&Event::from("foo bar baz".to_owned()))
    );
}

#[test]
fn full_scenario_parse_check_print() {
    let registry = default_registry();
    let slot = ComponentConfig::from_toml_str("type = \"static\"\nvalue = true\n", &registry)
        .unwrap();
    assert_eq!(
        Ok(true),
        slot.component.check(&Event::from("anything at all".to_owned()))
    );
    assert_eq!(
        "type = \"static\"\nvalue = true\n",
        slot.to_toml_string().unwrap()
    );
}

#[test]
fn nested_values_survive_parsing() {
    let registry = default_registry();
    let err = ComponentConfig::from_toml_str(
        "type = \"static\"\nvalue = [1, \"two\", [true]]\n",
        &registry,
    )
    .unwrap_err();
    assert_eq!(
        "failed to parse type `static`: invalid type for field `value`",
        err
    );
}
