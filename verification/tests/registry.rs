use component_registry::conditions::{Condition, ConditionConfig};
use component_registry::event::Event;
use component_registry::strutil::sort_names;
use component_registry::value::{ConfigTable, ConfigValue};

fn block(fields: &[(&str, ConfigValue)]) -> ConfigTable {
    let mut t = ConfigTable::new();
    for (k, v) in fields.iter() {
        t.push((*k).to_owned(), v.clone());
    }
    t
}

#[test]
fn deserialize_from_table_fills_defaults() {
    let doc = block(&[
        ("type", ConfigValue::Str("field_equals".to_owned())),
        ("value", ConfigValue::Str("foo".to_owned())),
    ]);
    let config = ConditionConfig::deserialize(&doc).unwrap();
    let echoed = config.serialize();
    let expected = block(&[
        ("type", ConfigValue::Str("field_equals".to_owned())),
        ("field", ConfigValue::Str("message".to_owned())),
        ("value", ConfigValue::Str("foo".to_owned())),
    ]);
    assert_eq!(expected, echoed);
}

#[test]
fn serialize_twice_is_identical() {
    let config = ConditionConfig::from_toml(
        r#"
      type = "field_equals"
      value = "foo bar"
      "#,
    )
    .unwrap();
    assert_eq!(config.serialize(), config.serialize());
    assert_eq!(config.to_toml(), config.to_toml());
}

#[test]
fn static_keeps_given_fields_on_echo() {
    let config = ConditionConfig::from_toml(
        r#"
      type = "static"
      value = true
      "#,
    )
    .unwrap();
    assert_eq!(
        config.to_toml(),
        r#"type = "static"
value = true
"#
    );
}

#[test]
fn wrong_discriminator_type_is_rejected() {
    let doc = block(&[
        ("type", ConfigValue::Int(5)),
        ("value", ConfigValue::Bool(true)),
    ]);
    let err = ConditionConfig::deserialize(&doc).err().unwrap();
    assert_eq!(
        err.message(),
        "invalid type for field `type`, expected a string"
    );
}

#[test]
fn unreadable_document_is_rejected() {
    let err = ConditionConfig::from_toml("type = = what").err().unwrap();
    assert_eq!(err.message(), "invalid configuration document");
}

#[test]
fn static_wrong_value_type_is_rejected() {
    let err = ConditionConfig::from_toml(
        r#"
      type = "static"
      value = 1
      "#,
    )
    .err()
    .unwrap();
    assert_eq!(
        err.message(),
        "failed to parse type `static`: invalid type for field `value`, expected a boolean"
    );
}

#[test]
fn field_equals_wrong_value_type_is_rejected() {
    let err = ConditionConfig::from_toml(
        r#"
      type = "field_equals"
      value = true
      "#,
    )
    .err()
    .unwrap();
    assert_eq!(
        err.message(),
        "failed to parse type `field_equals`: invalid type for field `value`, expected a string"
    );
}

#[test]
fn duplicate_field_is_rejected() {
    let doc = block(&[
        ("type", ConfigValue::Str("static".to_owned())),
        ("value", ConfigValue::Bool(true)),
        ("value", ConfigValue::Bool(false)),
    ]);
    let err = ConditionConfig::deserialize(&doc).err().unwrap();
    assert_eq!(
        err.message(),
        "failed to parse type `static`: duplicate field `value`"
    );
}

#[test]
fn field_equals_reads_custom_fields() {
    let doc = block(&[
        ("type", ConfigValue::Str("field_equals".to_owned())),
        ("field", ConfigValue::Str("color".to_owned())),
        ("value", ConfigValue::Str("green".to_owned())),
    ]);
    let config = ConditionConfig::deserialize(&doc).unwrap();

    let mut hit = Event::new();
    hit.insert("color".to_owned(), "green".to_owned());
    assert_eq!(Ok(true), config.component.inner.check(&hit));

    let mut miss = Event::new();
    miss.insert("color".to_owned(), "red".to_owned());
    assert_eq!(Ok(false), config.component.inner.check(&miss));

    let unrelated = Event::from("green".to_owned());
    assert_eq!(
        Err("field 'color' not found".to_owned()),
        config.component.inner.check(&unrelated)
    );
}

#[test]
fn sort_names_orders_alphabetically() {
    let names = vec![
        "static".to_owned(),
        "alpha".to_owned(),
        "field_equals".to_owned(),
    ];
    let sorted = sort_names(&names);
    assert_eq!(sorted, ["alpha", "field_equals", "static"]);
}
