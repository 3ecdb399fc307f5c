use musicbot::error::CommandError;
use musicbot::options::{
    bool_from_value, decode, int_from_value, optional_str_from_value, search_type_from_value,
    str_from_value, values_from_options, RawOption,
};
use musicbot::schema::{OptionSchema, OptionType, OptionValue};
use musicbot::service::SearchType;

fn search_schema() -> Vec<OptionSchema> {
    vec![
        OptionSchema::new("term", "what to look for", OptionType::String).required(true),
        OptionSchema::new("category", "where to look", OptionType::String)
            .with_default(OptionValue::text("track")),
    ]
}

fn volume_schema() -> Vec<OptionSchema> {
    vec![OptionSchema::new("level", "0 to 100", OptionType::Integer)
        .required(true)
        .with_range(0, 100)]
}

#[test]
fn search_term_alone_takes_default_category() {
    let raw = vec![RawOption::new("term", OptionValue::text("lofi"))];
    let decoded = decode(&raw, &search_schema());
    assert_eq!(
        decoded,
        Ok(vec![
            Some(OptionValue::String("lofi".to_string())),
            Some(OptionValue::String("track".to_string())),
        ])
    );
}

#[test]
fn search_without_term_is_missing_argument_zero() {
    let raw: Vec<RawOption> = vec![];
    assert_eq!(decode(&raw, &search_schema()), Err(CommandError::MissingArgument(0)));
}

#[test]
fn volume_above_range_is_rejected() {
    let raw = vec![RawOption::new("level", OptionValue::Integer(150))];
    assert_eq!(
        decode(&raw, &volume_schema()),
        Err(CommandError::InvalidArgument("value out of range".to_string()))
    );
}

#[test]
fn volume_at_the_ends_of_the_range_is_accepted() {
    for level in [0i64, 100] {
        let raw = vec![RawOption::new("level", OptionValue::Integer(level))];
        assert_eq!(decode(&raw, &volume_schema()), Ok(vec![Some(OptionValue::Integer(level))]));
    }
    let raw = vec![RawOption::new("level", OptionValue::Integer(-1))];
    assert_eq!(
        decode(&raw, &volume_schema()),
        Err(CommandError::InvalidArgument("value out of range".to_string()))
    );
}

#[test]
fn wrong_type_names_its_position() {
    let raw = vec![
        RawOption::new("term", OptionValue::text("lofi")),
        RawOption::new("category", OptionValue::Integer(3)),
    ];
    assert_eq!(
        decode(&raw, &search_schema()),
        Err(CommandError::InvalidArgument("type mismatch at position 1".to_string()))
    );
}

#[test]
fn lowest_failing_position_decides() {
    let raw = vec![
        RawOption::new("term", OptionValue::Boolean(true)),
        RawOption::new("category", OptionValue::Integer(3)),
    ];
    assert_eq!(
        decode(&raw, &search_schema()),
        Err(CommandError::InvalidArgument("type mismatch at position 0".to_string()))
    );
}

#[test]
fn value_outside_allowed_set_is_rejected() {
    let schema = vec![OptionSchema::new("category", "where to look", OptionType::String)
        .with_choices(vec!["track".to_string(), "album".to_string()])];
    let raw = vec![RawOption::new("category", OptionValue::text("artist"))];
    assert_eq!(
        decode(&raw, &schema),
        Err(CommandError::InvalidArgument("value not in allowed set".to_string()))
    );
    let raw = vec![RawOption::new("category", OptionValue::text("album"))];
    assert_eq!(decode(&raw, &schema), Ok(vec![Some(OptionValue::String("album".to_string()))]));
}

#[test]
fn optional_without_default_stays_absent() {
    let schema = vec![OptionSchema::new("count", "how many", OptionType::Integer)];
    let raw: Vec<RawOption> = vec![];
    assert_eq!(decode(&raw, &schema), Ok(vec![None]));
}

#[test]
fn more_values_than_options_is_rejected() {
    let raw = vec![
        RawOption::new("level", OptionValue::Integer(1)),
        RawOption::new("extra", OptionValue::Integer(2)),
    ];
    assert_eq!(
        decode(&raw, &volume_schema()),
        Err(CommandError::InvalidArgument("too many arguments".to_string()))
    );
}

#[test]
fn unresolved_value_is_rejected() {
    let raw = vec![RawOption::new("term", OptionValue::text("lofi")), RawOption::unresolved("category")];
    assert_eq!(
        values_from_options(&raw),
        Err(CommandError::InvalidArgument("Failed to resolve value".to_string()))
    );
    assert_eq!(
        decode(&raw, &search_schema()),
        Err(CommandError::InvalidArgument("Failed to resolve value".to_string()))
    );
}

#[test]
fn values_come_out_in_order() {
    let raw = vec![
        RawOption::new("a", OptionValue::Integer(7)),
        RawOption::new("b", OptionValue::text("x")),
        RawOption::new("c", OptionValue::Boolean(false)),
    ];
    assert_eq!(
        values_from_options(&raw),
        Ok(vec![
            Some(OptionValue::Integer(7)),
            Some(OptionValue::String("x".to_string())),
            Some(OptionValue::Boolean(false)),
        ])
    );
    let none: Vec<RawOption> = vec![];
    assert_eq!(values_from_options(&none), Ok(vec![]));
}

#[test]
fn values_are_read_by_position_and_type() {
    let raw = vec![
        RawOption::new("term", OptionValue::text("lofi")),
        RawOption::new("category", OptionValue::text("album")),
    ];
    let values = values_from_options(&raw).unwrap();
    assert_eq!(str_from_value(&values, 0, Some("track")), Ok("lofi"));
    assert_eq!(search_type_from_value(&values, 1), Ok(SearchType::Album));
    assert_eq!(search_type_from_value(&values, 2), Ok(SearchType::Track));
    assert_eq!(int_from_value(&values, 2, Some(1)), Ok(1));
    assert_eq!(bool_from_value(&values, 2, Some(false)), Ok(false));
    assert_eq!(
        search_type_from_value(&vec![Some(OptionValue::Integer(1))], 0),
        Err(CommandError::InvalidArgument("type mismatch at position 0".to_string()))
    );
}

#[test]
fn decode_is_repeatable() {
    let raw = vec![RawOption::new("term", OptionValue::text("lofi"))];
    assert_eq!(decode(&raw, &search_schema()), decode(&raw, &search_schema()));
    let bad: Vec<RawOption> = vec![];
    assert_eq!(decode(&bad, &search_schema()), decode(&bad, &search_schema()));
}

#[test]
fn typed_reads_follow_slot_and_default() {
    let values = vec![
        Some(OptionValue::String("lofi".to_string())),
        None,
        Some(OptionValue::Integer(-12)),
        Some(OptionValue::Boolean(true)),
    ];
    assert_eq!(str_from_value(&values, 0, None), Ok("lofi"));
    assert_eq!(str_from_value(&values, 1, Some("track")), Ok("track"));
    assert_eq!(str_from_value(&values, 1, None), Err(CommandError::MissingArgument(1)));
    assert_eq!(str_from_value(&values, 9, Some("far")), Ok("far"));
    assert_eq!(
        str_from_value(&values, 2, Some("x")),
        Err(CommandError::InvalidArgument("type mismatch at position 2".to_string()))
    );
    assert_eq!(int_from_value(&values, 2, None), Ok(-12));
    assert_eq!(int_from_value(&values, 1, Some(1)), Ok(1));
    assert_eq!(int_from_value(&values, 12, None), Err(CommandError::MissingArgument(12)));
    assert_eq!(
        int_from_value(&values, 0, Some(1)),
        Err(CommandError::InvalidArgument("type mismatch at position 0".to_string()))
    );
    assert_eq!(bool_from_value(&values, 3, None), Ok(true));
    assert_eq!(bool_from_value(&values, 1, Some(false)), Ok(false));
    assert_eq!(
        bool_from_value(&values, 0, Some(false)),
        Err(CommandError::InvalidArgument("type mismatch at position 0".to_string()))
    );
}

#[test]
fn optional_string_is_never_coerced() {
    let values = vec![
        Some(OptionValue::String("Den".to_string())),
        None,
        Some(OptionValue::Integer(5)),
        Some(OptionValue::Boolean(false)),
    ];
    assert_eq!(optional_str_from_value(&values, 0), Ok(Some("Den")));
    assert_eq!(optional_str_from_value(&values, 1), Ok(None));
    assert_eq!(optional_str_from_value(&values, 9), Ok(None));
    assert_eq!(
        optional_str_from_value(&values, 2),
        Err(CommandError::InvalidArgument("type mismatch at position 2".to_string()))
    );
    assert_eq!(
        optional_str_from_value(&values, 3),
        Err(CommandError::InvalidArgument("type mismatch at position 3".to_string()))
    );
}

#[test]
fn search_type_defaults_to_track() {
    let values = vec![
        Some(OptionValue::String("lofi".to_string())),
        Some(OptionValue::String("playlist".to_string())),
        Some(OptionValue::String("podcast".to_string())),
    ];
    assert_eq!(search_type_from_value(&values, 1), Ok(SearchType::Playlist));
    assert_eq!(search_type_from_value(&values, 3), Ok(SearchType::Track));
    assert_eq!(
        search_type_from_value(&values, 2),
        Err(CommandError::InvalidArgument("value not in allowed set".to_string()))
    );
    for outside in ["episode", "show", "", "Track", "tracks"] {
        assert_eq!(
            SearchType::parse(outside),
            Err(CommandError::InvalidArgument("value not in allowed set".to_string()))
        );
        assert_eq!(
            search_type_from_value(&vec![Some(OptionValue::text(outside))], 0),
            Err(CommandError::InvalidArgument("value not in allowed set".to_string()))
        );
    }
    assert_eq!(SearchType::parse("playlist"), Ok(SearchType::Playlist));
    assert_eq!(SearchType::parse("track"), Ok(SearchType::Track));
    assert_eq!(SearchType::parse("album"), Ok(SearchType::Album));
    assert_eq!(SearchType::parse("artist"), Ok(SearchType::Artist));
    assert_eq!(
        SearchType::parse("Track"),
        Err(CommandError::InvalidArgument("value not in allowed set".to_string()))
    );
}

fn small_values() -> Vec<Option<OptionValue>> {
    vec![
        None,
        Some(OptionValue::text("track")),
        Some(OptionValue::text("other")),
        Some(OptionValue::Integer(5)),
        Some(OptionValue::Integer(50)),
        Some(OptionValue::Boolean(true)),
    ]
}

fn small_options() -> Vec<OptionSchema> {
    vec![
        OptionSchema::new("a", "", OptionType::String).required(true),
        OptionSchema::new("b", "", OptionType::String)
            .with_default(OptionValue::text("track"))
            .with_choices(vec!["track".to_string(), "album".to_string()]),
        OptionSchema::new("c", "", OptionType::Integer).required(true).with_range(0, 10),
        OptionSchema::new("d", "", OptionType::Integer).with_default(OptionValue::Integer(1)),
        OptionSchema::new("e", "", OptionType::Boolean),
    ]
}

fn copy_of(option: &OptionSchema) -> OptionSchema {
    OptionSchema {
        name: option.name.clone(),
        description: option.description.clone(),
        kind: option.kind,
        required: option.required,
        default: option.default.as_ref().map(|d| d.duplicate()),
        allowed_values: option.allowed_values.clone(),
        allowed_range: option.allowed_range,
    }
}

fn raw_of(values: &[&Option<OptionValue>]) -> Vec<RawOption> {
    values
        .iter()
        .map(|v| RawOption { name: "x".to_string(), value: v.as_ref().map(|v| v.duplicate()) })
        .collect()
}

fn check_laws(raw: &Vec<RawOption>, schema: &Vec<OptionSchema>) {
    let outcome = decode(raw, schema);
    assert_eq!(decode(raw, schema), outcome);
    let resolved = raw.iter().all(|o| o.value.is_some());
    let fits = raw.len() <= schema.len();
    for i in 0..schema.len() {
        let supplied = raw.get(i).and_then(|o| o.value.as_ref());
        if let Some(value) = supplied {
            if value.kind() != schema[i].kind {
                match &outcome {
                    Err(CommandError::InvalidArgument(_)) => {}
                    other => panic!("wrong type at {} gave {:?}", i, other),
                }
            }
        }
        if i >= raw.len() && schema[i].required && schema[i].default.is_none() {
            assert!(outcome.is_err());
            let lower_pass = (0..i).all(|j| {
                musicbot::options::decode_slot(
                    raw.get(j).and_then(|o| o.value.as_ref()),
                    &schema[j],
                    j,
                )
                .is_ok()
            });
            if resolved && lower_pass {
                assert_eq!(outcome, Err(CommandError::MissingArgument(i)));
            }
        }
        if i >= raw.len() && schema[i].default.is_some() {
            if let Ok(slots) = &outcome {
                assert_eq!(slots[i], schema[i].default);
            }
        }
    }
    if let Ok(slots) = &outcome {
        assert!(resolved && fits);
        assert_eq!(slots.len(), schema.len());
        for i in 0..slots.len() {
            match &slots[i] {
                Some(value) => {
                    assert_eq!(value.kind(), schema[i].kind);
                    assert!(schema[i].in_allowed_set(value));
                    assert!(schema[i].in_allowed_range(value));
                    if i < raw.len() {
                        assert_eq!(Some(value), raw[i].value.as_ref());
                    }
                }
                None => assert!(!schema[i].required && i >= raw.len()),
            }
        }
    }
    if !resolved {
        assert_eq!(
            outcome,
            Err(CommandError::InvalidArgument("Failed to resolve value".to_string()))
        );
    } else if !fits {
        assert_eq!(
            outcome,
            Err(CommandError::InvalidArgument("too many arguments".to_string()))
        );
    }
}

#[test]
fn laws_of_decoding_hold_on_all_small_inputs() {
    let values = small_values();
    let options = small_options();
    let mut schemas: Vec<Vec<OptionSchema>> = vec![vec![]];
    for a in &options {
        schemas.push(vec![copy_of(a)]);
        for b in &options {
            schemas.push(vec![copy_of(a), copy_of(b)]);
        }
    }
    let mut raws: Vec<Vec<RawOption>> = vec![vec![]];
    for a in &values {
        raws.push(raw_of(&[a]));
        for b in &values {
            raws.push(raw_of(&[a, b]));
            raws.push(raw_of(&[a, b, a]));
        }
    }
    let mut checked = 0;
    for schema in &schemas {
        for raw in &raws {
            check_laws(raw, schema);
            checked += 1;
        }
    }
    assert_eq!(checked, 31 * 79);
}
