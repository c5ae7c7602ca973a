use component_registry::component::ConfigSwapOut;
use component_registry::conditions::{BoxCondition, Condition, ConditionConfig};
use component_registry::event::Event;
use component_registry::toml_io::parse_toml;

#[test]
fn parse_field_equals_config() {
    let config_false: ConditionConfig = ConditionConfig::from_toml(
        r#"
      type = "field_equals"
      value = "foo bar"
      "#,
    )
    .unwrap();

    assert_eq!(
        Ok(false),
        config_false
            .component
            .inner
            .check(&Event::from("baz".to_owned()))
    );

    let config_err: ConditionConfig = ConditionConfig::from_toml(
        r#"
      type = "field_equals"
      field = "doesntexist"
      value = "foo bar"
      "#,
    )
    .unwrap();

    assert_eq!(
        Err("field 'doesntexist' not found".to_owned()),
        config_err
            .component
            .inner
            .check(&Event::from("foo bar".to_owned()))
    );

    let config_true: ConditionConfig = ConditionConfig::from_toml(
        r#"
      type = "field_equals"
      value = "baz"
      "#,
    )
    .unwrap();

    assert_eq!(
        Ok(true),
        config_true
            .component
            .inner
            .check(&Event::from("baz".to_owned()))
    );
}

#[test]
fn print_field_equals_config() {
    let config_full: ConditionConfig = ConditionConfig::from_toml(
        r#"
      type = "field_equals"
      field = "custom"
      value = "foo bar"
      "#,
    )
    .unwrap();

    assert_eq!(
        r#"type = "field_equals"
field = "custom"
value = "foo bar"
"#,
        config_full.to_toml()
    );

    let config_partial: ConditionConfig = ConditionConfig::from_toml(
        r#"
      type = "field_equals"
      value = "foo bar"
      "#,
    )
    .unwrap();

    assert_eq!(
        r#"type = "field_equals"
field = "message"
value = "foo bar"
"#,
        config_partial.to_toml()
    );
}

#[test]
fn list_types() {
    assert_eq!(ConditionConfig::types(), ["field_equals", "static"]);
}

#[test]
fn parse_bad_config_type() {
    assert_eq!(
        ConditionConfig::from_toml(
            r#"
      type = "not a real type"
      value = false
      "#
        )
        .err()
        .map(|e| e.message())
        .unwrap_or("".to_owned()),
        "unrecognized type 'not a real type'".to_owned(),
    );
}

#[test]
fn parse_bad_config_missing_type() {
    assert_eq!(
        ConditionConfig::from_toml(
            r#"
      nottype = "missing a type here"
      value = false
      "#
        )
        .err()
        .map(|e| e.message())
        .unwrap_or("".to_owned()),
        "missing field `type`".to_owned(),
    );
}

#[test]
fn parse_bad_config_extra_field() {
    assert_eq!(
        ConditionConfig::from_toml(
            r#"
      type = "static"
      value = false
      extra_field = "is unexpected"
      "#
        )
        .err()
        .map(|e| e.message())
        .unwrap_or("".to_owned()),
        "failed to parse type `static`: unknown field `extra_field`, expected `value`".to_owned(),
    );
}

#[test]
fn parse_bad_config_missing_field() {
    assert_eq!(
        ConditionConfig::from_toml(
            r#"
      type = "static"
      "#
        )
        .err()
        .map(|e| e.message())
        .unwrap_or("".to_owned()),
        "failed to parse type `static`: missing field `value`".to_owned(),
    );
}

#[test]
fn parse_static_config() {
    assert_eq!(
        Ok(false),
        ConfigSwapOut::from_table(
            &parse_toml(
                r#"
            type = "static"
            value = false
            "#,
            )
            .unwrap()
        )
        .unwrap()
        .try_into::<BoxCondition>()
        .unwrap()
        .inner
        .check(&Event::from("foo bar baz".to_owned()))
    );

    assert_eq!(
        Ok(true),
        ConfigSwapOut::from_table(
            &parse_toml(
                r#"
            type = "static"
            value = true
            "#,
            )
            .unwrap()
        )
        .unwrap()
        .try_into::<BoxCondition>()
        .unwrap()
        .inner
        .check(&Event::from("foo bar baz".to_owned()))
    );
}
