use ex_netcdf::{
    get_variable_attributes, parse_variable_attribute, same_entries, AttrValue, Attribute,
    BackendError, F64Bits, Value,
};

fn text(name: &str, value: &str) -> Attribute {
    Attribute::new(name.to_string(), Ok(AttrValue::Str(value.to_string())))
}

fn broken(name: &str) -> Attribute {
    Attribute::new(name.to_string(), Err(BackendError::Netcdf(-45)))
}

#[test]
fn decoded_attribute_keeps_name_and_value() {
    assert_eq!(
        parse_variable_attribute(text("units", "celsius")),
        ("units".to_string(), Value::Str("celsius".to_string()))
    );
    assert_eq!(
        parse_variable_attribute(Attribute::new(
            "valid_range".to_string(),
            Ok(AttrValue::Doubles(vec![F64Bits(0), F64Bits(1)]))
        )),
        ("valid_range".to_string(), Value::Doubles(vec![F64Bits(0), F64Bits(1)]))
    );
}

#[test]
fn undecodable_attribute_becomes_absent() {
    assert_eq!(parse_variable_attribute(broken("history")), ("history".to_string(), Value::Absent));
    assert_eq!(
        parse_variable_attribute(Attribute::new(
            "x".to_string(),
            Err(BackendError::Other("TypeUnknown(77)".to_string()))
        )),
        ("x".to_string(), Value::Absent)
    );
}

#[test]
fn no_attributes_give_no_entries() {
    assert_eq!(get_variable_attributes(vec![]), vec![]);
}

#[test]
fn one_bad_attribute_does_not_hide_the_rest() {
    let entries = get_variable_attributes(vec![
        text("units", "celsius"),
        broken("history"),
        Attribute::new("scale".to_string(), Ok(AttrValue::Int(3))),
    ]);
    assert_eq!(
        entries,
        vec![
            ("units".to_string(), Value::Str("celsius".to_string())),
            ("history".to_string(), Value::Absent),
            ("scale".to_string(), Value::Int(3)),
        ]
    );
}

#[test]
fn every_attribute_bad_still_succeeds() {
    let entries = get_variable_attributes(vec![broken("a"), broken("b")]);
    assert_eq!(entries, vec![("a".to_string(), Value::Absent), ("b".to_string(), Value::Absent)]);
}

#[test]
fn duplicate_names_are_kept_in_order() {
    let entries = get_variable_attributes(vec![
        text("note", "first"),
        text("note", "second"),
        broken("note"),
    ]);
    assert_eq!(
        entries,
        vec![
            ("note".to_string(), Value::Str("first".to_string())),
            ("note".to_string(), Value::Str("second".to_string())),
            ("note".to_string(), Value::Absent),
        ]
    );
}

#[test]
fn global_attribute_that_cannot_be_decoded_is_absent() {
    // The attributes of the file itself go the same way as those of a variable.
    let globals = vec![
        text("title", "station data"),
        Attribute::new("provenance".to_string(), Err(BackendError::Netcdf(-56))),
        text("institution", "observatory"),
    ];
    let entries = get_variable_attributes(globals);
    assert_eq!(entries.len(), 3);
    assert_eq!(entries[1], ("provenance".to_string(), Value::Absent));
    assert_eq!(entries[0], ("title".to_string(), Value::Str("station data".to_string())));
    assert_eq!(entries[2], ("institution".to_string(), Value::Str("observatory".to_string())));
}

#[test]
fn entries_compare_name_by_name_and_value_by_value() {
    let one = vec![("a".to_string(), Value::Int(1)), ("b".to_string(), Value::Absent)];
    let same = vec![("a".to_string(), Value::Int(1)), ("b".to_string(), Value::Absent)];
    let renamed = vec![("a".to_string(), Value::Int(1)), ("c".to_string(), Value::Absent)];
    let revalued = vec![("a".to_string(), Value::Int(2)), ("b".to_string(), Value::Absent)];
    let swapped = vec![("b".to_string(), Value::Absent), ("a".to_string(), Value::Int(1))];
    let shorter = vec![("a".to_string(), Value::Int(1))];
    assert!(same_entries(&one, &same));
    assert!(!same_entries(&one, &renamed));
    assert!(!same_entries(&one, &revalued));
    assert!(!same_entries(&one, &swapped));
    assert!(!same_entries(&one, &shorter));
    assert!(same_entries(&vec![], &vec![]));
}
