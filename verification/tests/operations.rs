use ex_netcdf::{
    file_open_with_variables, file_variables, get_variable_values, load_numeric_variable_values,
    load_string_variable_values, load_variable_attributes, variable_attributes, variable_load,
    variable_values, AttrValue, Attribute, BackendError, ElementKind, F32Bits, F64Bits,
    NetCDFError, NetCDFVariable, Outcome, Step, TypeTag, Value, Variable, VariableType,
};

/// One variable of a file held in memory: its declaration, what a bulk read
/// at each element kind gives, what the read of each text element gives, and
/// its attributes.
struct Stored {
    variable: Variable,
    buffers: Vec<(ElementKind, Result<Value, BackendError>)>,
    texts: Vec<Result<String, BackendError>>,
    attributes: Vec<(String, Result<AttrValue, BackendError>)>,
}

impl Stored {
    fn numeric(name: &str, vartype: VariableType, kind: ElementKind, value: Value) -> Stored {
        Stored {
            variable: Variable::new(name.to_string(), vartype, value.len()),
            buffers: vec![(kind, Ok(value))],
            texts: vec![],
            attributes: vec![],
        }
    }

    fn text(name: &str, texts: Vec<Result<String, BackendError>>) -> Stored {
        Stored {
            variable: Variable::new(name.to_string(), VariableType::Text, texts.len()),
            buffers: vec![],
            texts,
            attributes: vec![],
        }
    }

    fn with_attribute(mut self, name: &str, value: Result<AttrValue, BackendError>) -> Stored {
        self.attributes.push((name.to_string(), value));
        self
    }
}

/// What was asked of the file, in order.
#[derive(Debug, PartialEq, Eq, Clone)]
enum Asked {
    Buffer(String, ElementKind),
    Text(String, usize),
    Attributes(String),
}

fn enumerate(file: &[Stored]) -> Vec<Variable> {
    file.iter().map(|stored| stored.variable.clone()).collect()
}

fn find<'a>(file: &'a [Stored], name: &str) -> &'a Stored {
    file.iter().find(|stored| stored.variable.name == name).unwrap()
}

/// Answers every read of an operation from the file in memory.
fn drive(file: &[Stored], first: Step, asked: &mut Vec<Asked>) -> Result<Outcome, NetCDFError> {
    let mut step = first;
    loop {
        step = match step {
            Step::Done(result) => return result,
            Step::ReadBuffer(read) => {
                asked.push(Asked::Buffer(read.name.clone(), read.kind));
                let reply = find(file, &read.name)
                    .buffers
                    .iter()
                    .find(|(kind, _)| *kind == read.kind)
                    .map(|(_, reply)| reply.clone())
                    .unwrap_or(Err(BackendError::Netcdf(-60)));
                load_numeric_variable_values(read, reply)
            }
            Step::ReadText(read) => {
                asked.push(Asked::Text(read.name.clone(), read.index()));
                let reply = find(file, &read.name).texts[read.index()].clone();
                load_string_variable_values(read, reply)
            }
            Step::ReadAttributes(read) => {
                asked.push(Asked::Attributes(read.name.clone()));
                let attributes = find(file, &read.name)
                    .attributes
                    .iter()
                    .map(|(name, value)| Attribute::new(name.clone(), value.clone()))
                    .collect();
                load_variable_attributes(read, attributes)
            }
        };
    }
}

fn load_values(file: &[Stored], name: &str) -> Result<Outcome, NetCDFError> {
    drive(file, variable_values(&enumerate(file), name), &mut vec![])
}

fn load_attributes(file: &[Stored], name: &str) -> Result<Outcome, NetCDFError> {
    drive(file, variable_attributes(&enumerate(file), name), &mut vec![])
}

fn load_variable(file: &[Stored], name: &str) -> Result<Outcome, NetCDFError> {
    drive(file, variable_load(&enumerate(file), name), &mut vec![])
}

fn doubles(values: &[f64]) -> Value {
    Value::Doubles(values.iter().map(|x| F64Bits(x.to_bits())).collect())
}

fn temperature_file() -> Vec<Stored> {
    vec![Stored::numeric(
        "temperature",
        VariableType::Double,
        ElementKind::F64,
        doubles(&[12.5, 13.0, 11.75]),
    )
    .with_attribute("units", Ok(AttrValue::Str("celsius".to_string())))]
}

#[test]
fn temperature_values_load_as_doubles() {
    let file = temperature_file();
    assert_eq!(
        load_values(&file, "temperature"),
        Ok(Outcome::Values(doubles(&[12.5, 13.0, 11.75]), TypeTag::F64))
    );
    match load_values(&file, "temperature") {
        Ok(Outcome::Values(Value::Doubles(bits), tag)) => {
            let numbers: Vec<f64> = bits.iter().map(|b| f64::from_bits(b.0)).collect();
            assert_eq!(numbers, vec![12.5, 13.0, 11.75]);
            assert_eq!(tag.name(), "f64");
        }
        other => panic!("unexpected: {:?}", other),
    }
}

#[test]
fn temperature_attributes_load_as_units() {
    let file = temperature_file();
    assert_eq!(
        load_attributes(&file, "temperature"),
        Ok(Outcome::Attributes(vec![("units".to_string(), Value::Str("celsius".to_string()))]))
    );
}

#[test]
fn temperature_loads_as_one_record() {
    let file = temperature_file();
    assert_eq!(
        load_variable(&file, "temperature"),
        Ok(Outcome::Variable(NetCDFVariable::new(
            "temperature".to_string(),
            doubles(&[12.5, 13.0, 11.75]),
            TypeTag::F64,
            vec![("units".to_string(), Value::Str("celsius".to_string()))],
        )))
    );
}

#[test]
fn absent_name_is_not_found() {
    let file = temperature_file();
    assert_eq!(load_values(&file, "does_not_exist"), Err(NetCDFError::NotFound));
    assert_eq!(load_attributes(&file, "does_not_exist"), Err(NetCDFError::NotFound));
    assert_eq!(load_variable(&file, "does_not_exist"), Err(NetCDFError::NotFound));
}

#[test]
fn not_found_comes_before_any_read() {
    let file = temperature_file();
    let variables = enumerate(&file);
    assert_eq!(variable_values(&variables, "pressure"), Step::Done(Err(NetCDFError::NotFound)));
    assert_eq!(variable_attributes(&variables, "pressure"), Step::Done(Err(NetCDFError::NotFound)));
    assert_eq!(variable_load(&variables, "pressure"), Step::Done(Err(NetCDFError::NotFound)));
    assert_eq!(variable_values(&vec![], "temperature"), Step::Done(Err(NetCDFError::NotFound)));
}

#[test]
fn name_outside_the_listing_is_never_loaded() {
    let file = temperature_file();
    let handle = file_open_with_variables("t.nc", Ok(((), enumerate(&file)))).unwrap();
    let listed = file_variables(&handle, &enumerate(&file));
    assert_eq!(listed, vec!["temperature".to_string()]);
    for name in ["", "temp", "temperature2", "units", "TEMPERATURE"] {
        assert!(!listed.contains(&name.to_string()));
        assert_eq!(load_values(&file, name), Err(NetCDFError::NotFound));
    }
    for name in &listed {
        assert!(load_values(&file, name).is_ok());
    }
}

#[test]
fn compound_type_is_unsupported_by_name() {
    let file = vec![Stored {
        variable: Variable::new(
            "observation".to_string(),
            VariableType::Other("obs_record".to_string()),
            10,
        ),
        buffers: vec![],
        texts: vec![],
        attributes: vec![("note".to_string(), Ok(AttrValue::Int(1)))],
    }];
    let mut asked = vec![];
    assert_eq!(
        drive(&file, variable_values(&enumerate(&file), "observation"), &mut asked),
        Err(NetCDFError::UnsupportedType("obs_record".to_string()))
    );
    assert_eq!(asked, vec![]);
    assert_eq!(
        load_variable(&file, "observation"),
        Err(NetCDFError::UnsupportedType("obs_record".to_string()))
    );
    // The attributes of such a variable can still be read.
    assert_eq!(
        load_attributes(&file, "observation"),
        Ok(Outcome::Attributes(vec![("note".to_string(), Value::Int(1))]))
    );
}

#[test]
fn unsupported_variable_does_not_affect_others() {
    let mut file = temperature_file();
    file.push(Stored {
        variable: Variable::new("blob".to_string(), VariableType::Other("opaque16".to_string()), 1),
        buffers: vec![],
        texts: vec![],
        attributes: vec![],
    });
    assert_eq!(load_values(&file, "blob"), Err(NetCDFError::UnsupportedType("opaque16".to_string())));
    assert!(load_values(&file, "temperature").is_ok());
}

#[test]
fn every_numeric_type_loads_with_its_tag_and_length() {
    let cases = vec![
        (VariableType::Byte, ElementKind::U8, Value::Uchars(vec![1, 2, 3]), TypeTag::U8),
        (VariableType::Ubyte, ElementKind::U8, Value::Uchars(vec![250, 251]), TypeTag::U8),
        (VariableType::Char, ElementKind::I8, Value::Schars(vec![-1, 65]), TypeTag::I8),
        (VariableType::Short, ElementKind::I16, Value::Shorts(vec![-300]), TypeTag::I16),
        (VariableType::Ushort, ElementKind::U16, Value::Ushorts(vec![60000, 1, 2, 3]), TypeTag::U16),
        (VariableType::Int, ElementKind::I32, Value::Ints(vec![-70000, 70000]), TypeTag::I32),
        (VariableType::Uint, ElementKind::U32, Value::Uints(vec![4000000000]), TypeTag::U32),
        (VariableType::Int64, ElementKind::I64, Value::Longlongs(vec![i64::MIN, -1]), TypeTag::I64),
        (VariableType::Uint64, ElementKind::U64, Value::Ulonglongs(vec![u64::MAX]), TypeTag::U64),
        (
            VariableType::Float,
            ElementKind::F32,
            Value::Floats(vec![F32Bits(1.5f32.to_bits()), F32Bits(0)]),
            TypeTag::F32,
        ),
        (VariableType::Double, ElementKind::F64, doubles(&[0.25, -8.0, 1e300]), TypeTag::F64),
    ];
    for (vartype, kind, value, tag) in cases {
        let file = vec![Stored::numeric("v", vartype, kind, value.clone())];
        let declared = file[0].variable.len;
        let mut asked = vec![];
        match drive(&file, variable_values(&enumerate(&file), "v"), &mut asked) {
            Ok(Outcome::Values(loaded, reported)) => {
                assert_eq!(reported, tag);
                assert_eq!(loaded.type_tag(), reported);
                assert_eq!(loaded.len(), declared);
                assert!(loaded.is_array());
                assert_eq!(loaded, value);
            }
            other => panic!("unexpected: {:?}", other),
        }
        assert_eq!(asked, vec![Asked::Buffer("v".to_string(), kind)]);
    }
}

#[test]
fn numeric_variable_without_elements_loads_empty() {
    let file = vec![Stored::numeric("v", VariableType::Int, ElementKind::I32, Value::Ints(vec![]))];
    assert_eq!(load_values(&file, "v"), Ok(Outcome::Values(Value::Ints(vec![]), TypeTag::I32)));
}

#[test]
fn failed_bulk_read_is_a_backend_error() {
    let file = vec![Stored {
        variable: Variable::new("v".to_string(), VariableType::Float, 3),
        buffers: vec![(ElementKind::F32, Err(BackendError::Netcdf(-57)))],
        texts: vec![],
        attributes: vec![("units".to_string(), Ok(AttrValue::Int(1)))],
    }];
    let mut asked = vec![];
    assert_eq!(
        drive(&file, variable_load(&enumerate(&file), "v"), &mut asked),
        Err(NetCDFError::NetCDF(BackendError::Netcdf(-57)))
    );
    // The attributes are not read once the values have failed.
    assert_eq!(asked, vec![Asked::Buffer("v".to_string(), ElementKind::F32)]);
    assert_eq!(load_values(&file, "v"), Err(NetCDFError::NetCDF(BackendError::Netcdf(-57))));
}

#[test]
fn backend_text_is_carried_verbatim() {
    let variable = Variable::new("v".to_string(), VariableType::Int, 1);
    let step = match get_variable_values(&variable, false) {
        Step::ReadBuffer(read) => load_numeric_variable_values(
            read,
            Err(BackendError::Other("Str(\"disk on fire\")".to_string())),
        ),
        other => panic!("unexpected: {:?}", other),
    };
    assert_eq!(
        step,
        Step::Done(Err(NetCDFError::NetCDF(BackendError::Other(
            "Str(\"disk on fire\")".to_string()
        ))))
    );
}

#[test]
fn buffer_of_another_kind_is_a_type_mismatch() {
    let variable = Variable::new("v".to_string(), VariableType::Int, 2);
    let replies = vec![
        Value::Uints(vec![1, 2]),
        Value::Longlongs(vec![1, 2]),
        Value::Int(1),
        Value::Absent,
        Value::Strs(vec!["1".to_string(), "2".to_string()]),
    ];
    for reply in replies {
        let step = match get_variable_values(&variable, false) {
            Step::ReadBuffer(read) => load_numeric_variable_values(read, Ok(reply)),
            other => panic!("unexpected: {:?}", other),
        };
        assert_eq!(step, Step::Done(Err(NetCDFError::NetCDF(BackendError::TypeMismatch))));
    }
}

#[test]
fn buffer_of_another_length_is_a_length_error() {
    let variable = Variable::new("v".to_string(), VariableType::Int, 2);
    for (reply, actual) in [(vec![1], 1), (vec![1, 2, 3], 3), (vec![], 0)] {
        let step = match get_variable_values(&variable, true) {
            Step::ReadBuffer(read) => load_numeric_variable_values(read, Ok(Value::Ints(reply))),
            other => panic!("unexpected: {:?}", other),
        };
        assert_eq!(
            step,
            Step::Done(Err(NetCDFError::NetCDF(BackendError::BufferLen { wanted: 2, actual })))
        );
    }
}

#[test]
fn first_step_asks_for_the_dispatched_read() {
    let byte = Variable::new("b".to_string(), VariableType::Byte, 5);
    match get_variable_values(&byte, false) {
        Step::ReadBuffer(read) => {
            assert_eq!(read.name, "b");
            assert_eq!(read.kind, ElementKind::U8);
            assert_eq!(read.len, 5);
            assert!(!read.then_attributes);
        }
        other => panic!("unexpected: {:?}", other),
    }
    let text = Variable::new("t".to_string(), VariableType::Text, 5);
    match get_variable_values(&text, true) {
        Step::ReadText(read) => {
            assert_eq!(read.name, "t");
            assert_eq!(read.len, 5);
            assert_eq!(read.index(), 0);
            assert_eq!(read.values, Vec::<String>::new());
            assert!(read.then_attributes);
        }
        other => panic!("unexpected: {:?}", other),
    }
}

#[test]
fn text_variable_loads_element_by_element() {
    let file = vec![Stored::text(
        "station",
        vec![Ok("oslo".to_string()), Ok("".to_string()), Ok("tromsø".to_string())],
    )];
    let mut asked = vec![];
    assert_eq!(
        drive(&file, variable_values(&enumerate(&file), "station"), &mut asked),
        Ok(Outcome::Values(
            Value::Strs(vec!["oslo".to_string(), "".to_string(), "tromsø".to_string()]),
            TypeTag::Text
        ))
    );
    assert_eq!(
        asked,
        vec![
            Asked::Text("station".to_string(), 0),
            Asked::Text("station".to_string(), 1),
            Asked::Text("station".to_string(), 2),
        ]
    );
}

#[test]
fn text_variable_of_one_element() {
    let file = vec![Stored::text("station", vec![Ok("bergen".to_string())])];
    assert_eq!(
        load_values(&file, "station"),
        Ok(Outcome::Values(Value::Strs(vec!["bergen".to_string()]), TypeTag::Text))
    );
}

#[test]
fn text_variable_without_elements_asks_for_nothing() {
    let file = vec![Stored::text("station", vec![])];
    let variables = enumerate(&file);
    assert_eq!(
        variable_values(&variables, "station"),
        Step::Done(Ok(Outcome::Values(Value::Strs(vec![]), TypeTag::Text)))
    );
    let mut asked = vec![];
    assert_eq!(
        drive(&file, variable_load(&variables, "station"), &mut asked),
        Ok(Outcome::Variable(NetCDFVariable::new(
            "station".to_string(),
            Value::Strs(vec![]),
            TypeTag::Text,
            vec![]
        )))
    );
    assert_eq!(asked, vec![Asked::Attributes("station".to_string())]);
}

#[test]
fn failed_text_element_fails_the_whole_load() {
    let file = vec![Stored::text(
        "station",
        vec![
            Ok("oslo".to_string()),
            Err(BackendError::Netcdf(-101)),
            Ok("never read".to_string()),
        ],
    )];
    let mut asked = vec![];
    assert_eq!(
        drive(&file, variable_values(&enumerate(&file), "station"), &mut asked),
        Err(NetCDFError::NetCDF(BackendError::Netcdf(-101)))
    );
    assert_eq!(
        asked,
        vec![Asked::Text("station".to_string(), 0), Asked::Text("station".to_string(), 1)]
    );
    assert_eq!(
        load_variable(&file, "station"),
        Err(NetCDFError::NetCDF(BackendError::Netcdf(-101)))
    );
}

#[test]
fn text_step_appends_in_order() {
    let variable = Variable::new("t".to_string(), VariableType::Text, 2);
    let first = match get_variable_values(&variable, false) {
        Step::ReadText(read) => load_string_variable_values(read, Ok("a".to_string())),
        other => panic!("unexpected: {:?}", other),
    };
    let second = match first {
        Step::ReadText(read) => {
            assert_eq!(read.index(), 1);
            assert_eq!(read.values, vec!["a".to_string()]);
            load_string_variable_values(read, Ok("b".to_string()))
        }
        other => panic!("unexpected: {:?}", other),
    };
    assert_eq!(
        second,
        Step::Done(Ok(Outcome::Values(
            Value::Strs(vec!["a".to_string(), "b".to_string()]),
            TypeTag::Text
        )))
    );
}

#[test]
fn malformed_attributes_keep_their_place() {
    let file = vec![Stored::numeric("v", VariableType::Short, ElementKind::I16, Value::Shorts(vec![1]))
        .with_attribute("a", Ok(AttrValue::Ints(vec![1, 2])))
        .with_attribute("b", Err(BackendError::Netcdf(-45)))
        .with_attribute("a", Err(BackendError::Other("TypeUnknown(99)".to_string())))
        .with_attribute("c", Ok(AttrValue::Double(F64Bits(0.5f64.to_bits()))))];
    match load_attributes(&file, "v") {
        Ok(Outcome::Attributes(entries)) => {
            assert_eq!(entries.len(), file[0].attributes.len());
            assert_eq!(
                entries,
                vec![
                    ("a".to_string(), Value::Ints(vec![1, 2])),
                    ("b".to_string(), Value::Absent),
                    ("a".to_string(), Value::Absent),
                    ("c".to_string(), Value::Double(F64Bits(0x3fe0_0000_0000_0000))),
                ]
            );
        }
        other => panic!("unexpected: {:?}", other),
    }
}

#[test]
fn variable_without_attributes_has_an_empty_list() {
    let file = vec![Stored::numeric("v", VariableType::Short, ElementKind::I16, Value::Shorts(vec![1]))];
    assert_eq!(load_attributes(&file, "v"), Ok(Outcome::Attributes(vec![])));
}

#[test]
fn load_reads_values_then_attributes() {
    let file = vec![
        Stored::numeric("a", VariableType::Uint, ElementKind::U32, Value::Uints(vec![9, 8]))
            .with_attribute("long_name", Ok(AttrValue::Str("first".to_string()))),
        Stored::text("b", vec![Ok("x".to_string()), Ok("y".to_string())])
            .with_attribute("bad", Err(BackendError::Netcdf(-1)))
            .with_attribute("count", Ok(AttrValue::Ulonglong(2))),
    ];
    let variables = enumerate(&file);
    let mut asked = vec![];
    let first = drive(&file, variable_load(&variables, "a"), &mut asked);
    assert_eq!(
        asked,
        vec![Asked::Buffer("a".to_string(), ElementKind::U32), Asked::Attributes("a".to_string())]
    );
    assert_eq!(
        first,
        Ok(Outcome::Variable(NetCDFVariable {
            name: "a".to_string(),
            value: Value::Uints(vec![9, 8]),
            type_tag: TypeTag::U32,
            attributes: vec![("long_name".to_string(), Value::Str("first".to_string()))],
        }))
    );
    let mut asked = vec![];
    let second = drive(&file, variable_load(&variables, "b"), &mut asked);
    assert_eq!(
        asked,
        vec![
            Asked::Text("b".to_string(), 0),
            Asked::Text("b".to_string(), 1),
            Asked::Attributes("b".to_string()),
        ]
    );
    assert_eq!(
        second,
        Ok(Outcome::Variable(NetCDFVariable {
            name: "b".to_string(),
            value: Value::Strs(vec!["x".to_string(), "y".to_string()]),
            type_tag: TypeTag::Text,
            attributes: vec![
                ("bad".to_string(), Value::Absent),
                ("count".to_string(), Value::Ulonglong(2)),
            ],
        }))
    );
}

#[test]
fn loading_twice_gives_equal_results() {
    let mut file = temperature_file();
    file.push(
        Stored::text("station", vec![Ok("oslo".to_string()), Err(BackendError::Netcdf(-3))])
            .with_attribute("x", Err(BackendError::Netcdf(-4))),
    );
    file.push(Stored {
        variable: Variable::new("blob".to_string(), VariableType::Other("opaque".to_string()), 1),
        buffers: vec![],
        texts: vec![],
        attributes: vec![],
    });
    for name in ["temperature", "station", "blob", "nothing"] {
        assert_eq!(load_variable(&file, name), load_variable(&file, name));
        assert_eq!(load_values(&file, name), load_values(&file, name));
        assert_eq!(load_attributes(&file, name), load_attributes(&file, name));
    }
    assert!(load_variable(&file, "temperature").is_ok());
}

#[test]
fn loaded_record_is_detached_from_the_enumeration() {
    let file = temperature_file();
    let variables = enumerate(&file);
    let step = variable_load(&variables, "temperature");
    drop(variables);
    assert!(drive(&file, step, &mut vec![]).is_ok());
}

#[test]
fn other_variables_do_not_enter_into_a_load() {
    let alone = temperature_file();
    let mut crowded = temperature_file();
    crowded.push(Stored::text("station", vec![Err(BackendError::Netcdf(-3))]));
    crowded.push(Stored::numeric(
        "pressure",
        VariableType::Float,
        ElementKind::F32,
        Value::Floats(vec![F32Bits(0)]),
    ));
    assert_eq!(load_variable(&alone, "temperature"), load_variable(&crowded, "temperature"));
    assert_eq!(load_values(&alone, "temperature"), load_values(&crowded, "temperature"));
    assert_eq!(load_attributes(&alone, "temperature"), load_attributes(&crowded, "temperature"));
}

#[test]
fn an_operation_ends_within_its_bound_of_reads() {
    let file = vec![Stored::text(
        "station",
        vec![Ok("a".to_string()), Ok("b".to_string()), Ok("c".to_string())],
    )
    .with_attribute("n", Ok(AttrValue::Int(3)))];
    let variables = enumerate(&file);
    let declared = variables[0].len;
    for first in [
        variable_values(&variables, "station"),
        variable_load(&variables, "station"),
        variable_attributes(&variables, "station"),
    ] {
        let mut asked = vec![];
        assert!(drive(&file, first, &mut asked).is_ok());
        assert!(asked.len() <= declared + 2);
    }
    let mut asked = vec![];
    assert!(drive(&file, variable_load(&variables, "station"), &mut asked).is_ok());
    assert_eq!(asked.len(), 4);
}

#[test]
fn records_compare_structurally() {
    let record = |name: &str, value: Value, tag: TypeTag, unit: &str| {
        NetCDFVariable::new(
            name.to_string(),
            value,
            tag,
            vec![("units".to_string(), Value::Str(unit.to_string()))],
        )
    };
    let one = record("t", Value::Ints(vec![1]), TypeTag::I32, "K");
    assert_eq!(one, record("t", Value::Ints(vec![1]), TypeTag::I32, "K"));
    assert_ne!(one, record("u", Value::Ints(vec![1]), TypeTag::I32, "K"));
    assert_ne!(one, record("t", Value::Ints(vec![2]), TypeTag::I32, "K"));
    assert_ne!(one, record("t", Value::Ints(vec![1]), TypeTag::I64, "K"));
    assert_ne!(one, record("t", Value::Ints(vec![1]), TypeTag::I32, "C"));
    assert_ne!(
        Outcome::Values(Value::Ints(vec![1]), TypeTag::I32),
        Outcome::Values(Value::Ints(vec![1]), TypeTag::U32)
    );
    assert_ne!(
        Outcome::Attributes(vec![]),
        Outcome::Values(Value::Ints(vec![]), TypeTag::I32)
    );
    assert_eq!(Outcome::Attributes(vec![]), Outcome::Attributes(vec![]));
}
