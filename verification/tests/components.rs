use tracing_replay::fields::MAX_DISPATCH_FIELDS;
use tracing_replay::fields::adapt_fields;
use tracing_replay::recording::CallsiteMeta;
use tracing_replay::recording::Field;
use tracing_replay::recording::FieldValue;
use tracing_replay::recording::Kind;
use tracing_replay::recording::Level;
use tracing_replay::recording::SpanId;
use tracing_replay::registry::MetadataRegistry;
use tracing_replay::replay::Replay;
use tracing_replay::replay::ReplayCloseError;
use tracing_replay::replay::ReplayFileError;
use tracing_replay::span_map::SpanIdMap;
use tracing_replay::span_map::SpanLookup;
use tracing_replay::timing::Timestamp;
use tracing_replay::timing::compute_delta;
use tracing_replay::timing::target_time;

fn meta(id: u64, name: &str) -> CallsiteMeta {
    CallsiteMeta {
        id,
        name: String::from(name),
        target: String::from("test"),
        level: Level::Debug,
        module: Some(String::from("m")),
        file: Some(String::from("f.rs")),
        line: Some(3),
        fields: vec![],
        kind: Kind::Event,
    }
}

#[test]
fn undeclared_field_names_are_dropped() {
    let declared = vec![String::from("x"), String::from("z")];
    let fs = vec![
        Field::new(String::from("x"), FieldValue::I64(1)),
        Field::new(String::from("y"), FieldValue::Bool(true)),
        Field::new(String::from("z"), FieldValue::Str(String::from("s"))),
    ];
    let kept = adapt_fields(&declared, &fs);
    assert_eq!(kept.len(), 2);
    assert_eq!(kept[0].name, String::from("x"));
    assert_eq!(kept[1].name, String::from("z"));
}

#[test]
fn field_lists_are_truncated_at_the_arity_bound() {
    let declared: Vec<String> = (0..40).map(|i| format!("f{}", i)).collect();
    let fs: Vec<Field> = (0..40)
        .map(|i| Field::new(format!("f{}", i), FieldValue::U64(i as u64)))
        .collect();
    let kept = adapt_fields(&declared, &fs);
    assert_eq!(kept.len(), MAX_DISPATCH_FIELDS);
    assert_eq!(kept[0].name, String::from("f0"));
    assert_eq!(kept[31].name, String::from("f31"));
}

#[test]
fn duplicate_recorded_names_pass_through() {
    let declared = vec![String::from("x")];
    let fs = vec![
        Field::new(String::from("x"), FieldValue::I64(1)),
        Field::new(String::from("x"), FieldValue::I64(2)),
    ];
    let kept = adapt_fields(&declared, &fs);
    assert_eq!(kept.len(), 2);
    assert_eq!(kept[1].value, FieldValue::I64(2));
}

#[test]
fn delta_saturates_when_the_recording_is_in_the_future() {
    let now = Timestamp { secs: 100, micros: 0 };
    let capture = Timestamp { secs: 200, micros: 0 };
    let d = compute_delta(now, capture);
    assert_eq!(d, Timestamp { secs: 0, micros: 0 });
}

#[test]
fn delta_borrows_across_the_second_boundary() {
    let now = Timestamp { secs: 100, micros: 250 };
    let capture = Timestamp { secs: 40, micros: 750 };
    let d = compute_delta(now, capture);
    assert_eq!(d, Timestamp { secs: 59, micros: 999_500 });
}

#[test]
fn target_time_carries_and_falls_back() {
    let now = Timestamp { secs: 77, micros: 5 };
    let capture = Timestamp { secs: 10, micros: 600_000 };
    let delta = Timestamp { secs: 1, micros: 600_000 };
    assert_eq!(target_time(capture, delta, now), Timestamp { secs: 12, micros: 200_000 });
    let far = Timestamp { secs: u64::MAX, micros: 999_999 };
    assert_eq!(target_time(far, delta, now), now);
}

#[test]
fn from_parts_normalizes_surplus_micros() {
    let t = Timestamp::from_parts(10, 2_500_000);
    assert_eq!(t, Timestamp { secs: 12, micros: 500_000 });
}

#[test]
fn registry_interns_each_capture_id_once() {
    let mut reg = MetadataRegistry::new();
    let (h0, fresh0) = reg.get_or_register(meta(7, "first"));
    assert_eq!((h0, fresh0), (0, true));
    let (h1, fresh1) = reg.get_or_register(meta(7, "second"));
    assert_eq!((h1, fresh1), (0, false));
    let (h2, fresh2) = reg.get_or_register(meta(9, "other"));
    assert_eq!((h2, fresh2), (1, true));
    // The first descriptor is the durable one.
    assert_eq!(reg.get(0).name, String::from("first"));
    assert_eq!(reg.find(9), Some(1));
    assert_eq!(reg.find(8), None);
}

#[test]
fn span_identity_resolves_exactly_once() {
    let mut map = SpanIdMap::new();
    assert_eq!(map.lookup(SpanId(1)), SpanLookup::Unknown);
    map.reserve(SpanId(1));
    assert_eq!(map.lookup(SpanId(1)), SpanLookup::Pending);
    map.resolve(SpanId(1), 100);
    assert_eq!(map.lookup(SpanId(1)), SpanLookup::Mapped(100));
    // A second resolution or reservation cannot move the binding.
    map.resolve(SpanId(1), 200);
    assert_eq!(map.lookup(SpanId(1)), SpanLookup::Mapped(100));
    map.reserve(SpanId(1));
    assert_eq!(map.lookup(SpanId(1)), SpanLookup::Mapped(100));
    // Resolving an identifier that was never reserved changes nothing.
    map.resolve(SpanId(2), 300);
    assert_eq!(map.lookup(SpanId(2)), SpanLookup::Unknown);
}

#[test]
fn close_with_no_failures_succeeds() {
    let mut replay = Replay::new();
    assert!(replay.close(vec![]).is_ok());
}

#[test]
fn close_surfaces_worker_failures() {
    let mut replay = Replay::new();
    let failures = vec![
        (String::from("ThreadId(1)"), String::from("panicked")),
        (String::from("ThreadId(3)"), String::from("lost")),
    ];
    let err = replay.close(failures).unwrap_err();
    assert_eq!(err.threads.len(), 2);
    assert_eq!(
        err.describe(),
        String::from("ReplayCloseError: - ThreadId(1): panicked - ThreadId(3): lost")
    );
}

#[test]
fn file_error_variants_carry_their_diagnostics() {
    let e = ReplayFileError::CannotDeserializeRecord {
        message: String::from("expected value"),
        line_index: 4,
        line: String::from("not json"),
    };
    match e {
        ReplayFileError::CannotDeserializeRecord { line_index, line, .. } => {
            assert_eq!(line_index, 4);
            assert_eq!(line, String::from("not json"));
        }
        _ => panic!("wrong variant"),
    }
    let o = ReplayFileError::CannotOpenFile { message: String::from("no such file") };
    assert!(matches!(o, ReplayFileError::CannotOpenFile { .. }));
    let r = ReplayFileError::CannotReadLine { message: String::from("broken pipe"), line_index: 1 };
    assert!(matches!(r, ReplayFileError::CannotReadLine { line_index: 1, .. }));
    let _ = ReplayCloseError { threads: vec![] };
}
