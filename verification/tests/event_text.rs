use qubit_progress::ConfigurationError;
use qubit_progress::Event;
use qubit_progress::EventRecordError;
use qubit_progress::MetricSnapshot;
use qubit_progress::OperationAttributes;
use qubit_progress::Phase;
use qubit_progress::elapsed_text;
use qubit_progress::format_duration;
use qubit_progress::parse_duration;
use qubit_progress::read_event_record;

fn files(completed: u64) -> MetricSnapshot {
    MetricSnapshot::from_parts("files", "Files", Some(10), completed, 0, completed, 0, 0)
}

#[test]
fn durations_use_their_largest_exact_unit() {
    assert_eq!(format_duration(0), "0s");
    assert_eq!(format_duration(7_200_000_000_000), "2h");
    assert_eq!(format_duration(90_000_000_000), "90s");
    assert_eq!(format_duration(120_000_000_000), "2m");
    assert_eq!(format_duration(1_500_000_000), "1500ms");
    assert_eq!(format_duration(2_000), "2us");
    assert_eq!(format_duration(1_001), "1001ns");
}

#[test]
fn duration_text_parses_every_unit() {
    assert_eq!(parse_duration("2h"), Ok(7_200_000_000_000));
    assert_eq!(parse_duration("3m"), Ok(180_000_000_000));
    assert_eq!(parse_duration("4s"), Ok(4_000_000_000));
    assert_eq!(parse_duration("5ms"), Ok(5_000_000));
    assert_eq!(parse_duration("6us"), Ok(6_000));
    assert_eq!(parse_duration("7ns"), Ok(7));
    assert_eq!(parse_duration("0s"), Ok(0));
    assert_eq!(parse_duration("007s"), Ok(7_000_000_000));
}

#[test]
fn duration_text_rejections_explain_themselves() {
    assert_eq!(
        parse_duration("12").unwrap_err(),
        "elapsed must end in h, m, s, ms, us, or ns"
    );
    assert_eq!(
        parse_duration("ms").unwrap_err(),
        "elapsed amount must be an unsigned integer"
    );
    assert_eq!(
        parse_duration("-1s").unwrap_err(),
        "elapsed amount must be an unsigned integer"
    );
    assert_eq!(
        parse_duration("1.5s").unwrap_err(),
        "elapsed amount must be an unsigned integer"
    );
    assert_eq!(
        parse_duration("999999999999999999999999999999999999999999ns").unwrap_err(),
        "elapsed amount is outside the supported range"
    );
    assert_eq!(
        parse_duration("340282366920938463463374607431768211455h").unwrap_err(),
        "elapsed duration overflows"
    );
    assert_eq!(
        parse_duration("18446744073709551616s").unwrap_err(),
        "elapsed duration overflows"
    );
}

#[test]
fn duration_text_round_trips() {
    for n in [
        0u128,
        1,
        999,
        1_000,
        1_000_000,
        1_000_000_000,
        60_000_000_000,
        3_600_000_000_000,
        86_400_123_000_000,
        18_446_744_073_709_551_615_999_999_999,
    ] {
        assert_eq!(parse_duration(&format_duration(n)), Ok(n));
    }
}

#[test]
fn event_record_round_trips() {
    let mut attributes = OperationAttributes::new();
    attributes.insert("job", "import");
    let event = Event::new(9, 3, Phase::Running, attributes.clone(), vec![files(4)], 1_500_000);
    let text = elapsed_text(&event);
    assert_eq!(text, "1500us");
    let read = read_event_record(
        event.operation_id(),
        event.sequence(),
        event.phase(),
        attributes,
        vec![files(4)],
        &text,
    )
    .unwrap();
    assert_eq!(read, event);
}

#[test]
fn event_record_rejections() {
    let attrs = OperationAttributes::new();
    assert_eq!(
        read_event_record(1, 1, Phase::Running, attrs.clone(), vec![files(0)], "soon"),
        Err(EventRecordError::Elapsed(
            "elapsed must end in h, m, s, ms, us, or ns".to_owned()
        ))
    );
    assert_eq!(
        read_event_record(0, 1, Phase::Running, attrs.clone(), vec![files(0)], "1s"),
        Err(EventRecordError::ZeroOperationId)
    );
    assert_eq!(
        read_event_record(1, 1, Phase::Running, attrs.clone(), vec![], "1s"),
        Err(EventRecordError::InvalidConfiguration(
            ConfigurationError::NoMetrics
        ))
    );
    assert_eq!(
        read_event_record(1, 0, Phase::Started, attrs.clone(), vec![files(1)], "0s"),
        Err(EventRecordError::StartedNotInitial)
    );
    assert_eq!(
        read_event_record(1, 0, Phase::Started, attrs.clone(), vec![files(0)], "1ns"),
        Err(EventRecordError::StartedNotInitial)
    );
    assert_eq!(
        read_event_record(1, 0, Phase::Running, attrs.clone(), vec![files(0)], "1s"),
        Err(EventRecordError::NonStartedAtZero)
    );
    let mut blank = OperationAttributes::new();
    blank.insert(" ", "x");
    assert_eq!(
        read_event_record(1, 1, Phase::Running, blank, vec![files(0)], "1s"),
        Err(EventRecordError::InvalidConfiguration(
            ConfigurationError::EmptyAttributeKey { key: " ".to_owned() }
        ))
    );
    assert!(read_event_record(1, 0, Phase::Started, attrs, vec![files(0)], "0s").is_ok());
}

#[test]
fn attributes_read_back_what_was_written() {
    let mut attributes = OperationAttributes::new();
    assert!(attributes.is_empty());
    attributes.insert("zone", "eu");
    attributes.insert("job", "import");
    attributes.insert("zone", "us");
    assert_eq!(attributes.get("zone"), Some("us"));
    assert_eq!(attributes.get("job"), Some("import"));
    assert_eq!(attributes.get("missing"), None);
    let keys: Vec<&str> = attributes.iter().iter().map(|(k, _)| k.as_str()).collect();
    assert_eq!(keys, vec!["job", "zone"]);
    assert!(!attributes.is_empty());
}

#[test]
fn event_lookups() {
    let event = Event::new(
        2,
        1,
        Phase::Succeeded,
        OperationAttributes::new(),
        vec![files(10)],
        5,
    );
    assert_eq!(event.metric("files").unwrap().completed(), 10);
    assert!(event.metric("bytes").is_none());
    assert_eq!(event.attribute("x"), None);
    assert!(event.phase().is_terminal());
    assert!(!Phase::Running.is_terminal());
    assert_eq!(Phase::Cancelled.as_str(), "cancelled");
    assert_eq!(Phase::Succeeded.as_str(), "succeeded");
}

#[test]
fn event_record_errors_explain_themselves() {
    assert_eq!(
        EventRecordError::ZeroOperationId.message(),
        "operation_id must be nonzero"
    );
    assert_eq!(
        EventRecordError::StartedNotInitial.message(),
        "started event must have sequence 0, zero elapsed, and zero counts"
    );
    assert_eq!(
        EventRecordError::NonStartedAtZero.message(),
        "non-started event must have a positive sequence"
    );
    assert_eq!(
        EventRecordError::Elapsed("bad".to_owned()).message(),
        "bad"
    );
    assert_eq!(
        EventRecordError::InvalidConfiguration(ConfigurationError::EmptyAttributeKey {
            key: "".to_owned()
        })
        .message(),
        "operation attribute key \"\" is empty"
    );
}
