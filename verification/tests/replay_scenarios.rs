use tracing_replay::recording::CallsiteMeta;
use tracing_replay::recording::Field;
use tracing_replay::recording::FieldValue;
use tracing_replay::recording::FollowsFrom;
use tracing_replay::recording::Kind;
use tracing_replay::recording::Level;
use tracing_replay::recording::NewSpan;
use tracing_replay::recording::Parent;
use tracing_replay::recording::RecordMeta;
use tracing_replay::recording::RecordValues;
use tracing_replay::recording::SpanId;
use tracing_replay::recording::Trace;
use tracing_replay::recording::TraceRecord;
use tracing_replay::replay::DispatchPlan;
use tracing_replay::replay::Dispatchable;
use tracing_replay::replay::Replay;
use tracing_replay::replay::ResolvedParent;
use tracing_replay::timing::Timestamp;

fn meta(id: u64, name: &str, field_names: &[&str], kind: Kind) -> CallsiteMeta {
    CallsiteMeta {
        id,
        name: String::from(name),
        target: String::from("test"),
        level: Level::Info,
        module: None,
        file: None,
        line: None,
        fields: field_names.iter().map(|f| String::from(*f)).collect(),
        kind,
    }
}

fn envelope(secs: u64, thread: &str) -> RecordMeta {
    RecordMeta {
        timestamp_s: secs,
        timestamp_subsec_us: 0,
        thread_id: String::from(thread),
        thread_name: Some(String::from("main")),
    }
}

fn now() -> Timestamp {
    Timestamp { secs: 5_000, micros: 0 }
}

#[test]
fn scenario_single_span_lifecycle() {
    let mut replay = Replay::new();

    let r0 = TraceRecord {
        meta: envelope(10, "ThreadId(1)"),
        trace: Trace::RegisterCallsite(meta(7, "root", &["x"], Kind::Span)),
    };
    let routed0 = replay.process_record(r0, now(), 0);
    assert_eq!(routed0.len(), 1);
    assert!(matches!(routed0[0].trace, Dispatchable::RegisterCallsite { handle: 0 }));
    let plan0 = replay.plan_dispatch(&routed0[0].trace, true);
    assert!(matches!(plan0, DispatchPlan::Register { handle: 0 }));

    let r1 = TraceRecord {
        meta: envelope(10, "ThreadId(1)"),
        trace: Trace::NewSpan(NewSpan {
            id: SpanId(1),
            fields: vec![Field::new(String::from("x"), FieldValue::I64(5))],
            metadata: meta(7, "root", &["x"], Kind::Span),
            parent: Parent::Root,
        }),
    };
    let routed1 = replay.process_record(r1, now(), 1);
    // The callsite is already interned: exactly one item, no second
    // registration.
    assert_eq!(routed1.len(), 1);
    let plan1 = replay.plan_dispatch(&routed1[0].trace, true);
    match &plan1 {
        DispatchPlan::CreateSpan { id, handle, fields, parent } => {
            assert_eq!(*id, SpanId(1));
            assert_eq!(*handle, 0);
            assert_eq!(fields.len(), 1);
            assert_eq!(fields[0].name, String::from("x"));
            assert_eq!(fields[0].value, FieldValue::I64(5));
            assert_eq!(*parent, ResolvedParent::Root);
        }
        other => panic!("expected a span creation plan, got {:?}", other),
    }
    // The backend assigns the live identity.
    replay.note_span_created(SpanId(1), 100);

    let r2 = TraceRecord { meta: envelope(11, "ThreadId(1)"), trace: Trace::Enter(SpanId(1)) };
    let routed2 = replay.process_record(r2, now(), 2);
    assert_eq!(routed2.len(), 1);
    let plan2 = replay.plan_dispatch(&routed2[0].trace, true);
    assert_eq!(plan2, DispatchPlan::Enter { live: 100 });

    let r3 = TraceRecord {
        meta: envelope(11, "ThreadId(1)"),
        trace: Trace::Event(tracing_replay::recording::Event {
            fields: vec![],
            metadata: meta(7, "root", &["x"], Kind::Span),
            parent: Parent::Current,
        }),
    };
    let routed3 = replay.process_record(r3, now(), 3);
    assert_eq!(routed3.len(), 1);
    let plan3 = replay.plan_dispatch(&routed3[0].trace, true);
    match &plan3 {
        DispatchPlan::EmitEvent { handle, fields, parent } => {
            assert_eq!(*handle, 0);
            assert!(fields.is_empty());
            // Contextual parent: the live backend resolves it to the span
            // entered on this thread, which holds live identity 100.
            assert_eq!(*parent, ResolvedParent::Current);
        }
        other => panic!("expected an event plan, got {:?}", other),
    }

    let r4 = TraceRecord { meta: envelope(12, "ThreadId(1)"), trace: Trace::Exit(SpanId(1)) };
    let routed4 = replay.process_record(r4, now(), 4);
    let plan4 = replay.plan_dispatch(&routed4[0].trace, true);
    assert_eq!(plan4, DispatchPlan::Exit { live: 100 });

    let r5 = TraceRecord { meta: envelope(12, "ThreadId(1)"), trace: Trace::Close(SpanId(1)) };
    let routed5 = replay.process_record(r5, now(), 5);
    let plan5 = replay.plan_dispatch(&routed5[0].trace, true);
    assert_eq!(plan5, DispatchPlan::TryClose { live: 100 });
}

#[test]
fn scenario_record_without_new_span() {
    let mut replay = Replay::new();
    let records = vec![
        TraceRecord {
            meta: envelope(10, "ThreadId(1)"),
            trace: Trace::RegisterCallsite(meta(7, "root", &["x"], Kind::Span)),
        },
        TraceRecord {
            meta: envelope(11, "ThreadId(1)"),
            trace: Trace::Record(RecordValues {
                id: SpanId(99),
                fields: vec![Field::new(String::from("x"), FieldValue::I64(1))],
            }),
        },
    ];
    let (summary, routed) = replay.replay_records(records, now());
    // The dangling record still counts as replayed input but routes no
    // backend work.
    assert_eq!(summary.record_count, 2);
    assert_eq!(routed.len(), 1);
    assert!(matches!(routed[0].trace, Dispatchable::RegisterCallsite { .. }));
}

#[test]
fn registration_happens_once_per_capture_id() {
    let mut replay = Replay::new();
    let records = vec![
        TraceRecord {
            meta: envelope(10, "ThreadId(1)"),
            trace: Trace::RegisterCallsite(meta(7, "root", &[], Kind::Event)),
        },
        TraceRecord {
            meta: envelope(10, "ThreadId(1)"),
            trace: Trace::RegisterCallsite(meta(7, "root", &[], Kind::Event)),
        },
        TraceRecord {
            meta: envelope(10, "ThreadId(2)"),
            trace: Trace::RegisterCallsite(meta(7, "root", &[], Kind::Event)),
        },
        TraceRecord {
            meta: envelope(11, "ThreadId(1)"),
            trace: Trace::Event(tracing_replay::recording::Event {
                fields: vec![],
                metadata: meta(7, "root", &[], Kind::Event),
                parent: Parent::Current,
            }),
        },
    ];
    let (summary, routed) = replay.replay_records(records, now());
    assert_eq!(summary.record_count, 4);
    let registrations = routed
        .iter()
        .filter(|r| matches!(r.trace, Dispatchable::RegisterCallsite { .. }))
        .count();
    assert_eq!(registrations, 1);
}

#[test]
fn per_thread_order_is_preserved() {
    let mut replay = Replay::new();
    let records = vec![
        TraceRecord { meta: envelope(10, "ThreadId(1)"), trace: Trace::Enter(SpanId(1)) },
        TraceRecord { meta: envelope(10, "ThreadId(2)"), trace: Trace::Enter(SpanId(2)) },
        TraceRecord { meta: envelope(11, "ThreadId(1)"), trace: Trace::Exit(SpanId(1)) },
        TraceRecord { meta: envelope(11, "ThreadId(2)"), trace: Trace::Exit(SpanId(2)) },
    ];
    let (_, routed) = replay.replay_records(records, now());
    assert_eq!(routed.len(), 4);
    // Same recorded thread, same worker index; distinct threads,
    // distinct workers, spawned on first sight.
    assert_eq!(routed[0].thread_index, 0);
    assert!(routed[0].spawn_worker);
    assert_eq!(routed[1].thread_index, 1);
    assert!(routed[1].spawn_worker);
    assert_eq!(routed[2].thread_index, 0);
    assert!(!routed[2].spawn_worker);
    assert_eq!(routed[3].thread_index, 1);
    assert!(!routed[3].spawn_worker);
    let t1: Vec<_> = routed.iter().filter(|r| r.thread_index == 0).collect();
    assert!(matches!(t1[0].trace, Dispatchable::Enter(_)));
    assert!(matches!(t1[1].trace, Dispatchable::Exit(_)));
}

#[test]
fn dropped_references_never_block() {
    let mut replay = Replay::new();
    // A causal edge whose spans were never created plans to a silent
    // drop, not to a wait.
    let item = Dispatchable::FollowsFrom { cause_id: SpanId(40), effect_id: SpanId(41) };
    assert_eq!(replay.plan_dispatch(&item, true), DispatchPlan::Skip);

    // One endpoint created but unresolved: the edge waits instead.
    let r = TraceRecord {
        meta: envelope(10, "ThreadId(1)"),
        trace: Trace::NewSpan(NewSpan {
            id: SpanId(40),
            fields: vec![],
            metadata: meta(8, "a", &[], Kind::Span),
            parent: Parent::Root,
        }),
    };
    replay.process_record(r, now(), 0);
    assert_eq!(replay.plan_dispatch(&item, true), DispatchPlan::Skip);

    let r2 = TraceRecord {
        meta: envelope(10, "ThreadId(1)"),
        trace: Trace::NewSpan(NewSpan {
            id: SpanId(41),
            fields: vec![],
            metadata: meta(8, "a", &[], Kind::Span),
            parent: Parent::Root,
        }),
    };
    replay.process_record(r2, now(), 1);
    assert_eq!(replay.plan_dispatch(&item, true), DispatchPlan::Wait { id: SpanId(40) });

    replay.note_span_created(SpanId(40), 7);
    assert_eq!(replay.plan_dispatch(&item, true), DispatchPlan::Wait { id: SpanId(41) });
    replay.note_span_created(SpanId(41), 8);
    assert_eq!(
        replay.plan_dispatch(&item, true),
        DispatchPlan::FollowsFrom { cause_live: 7, effect_live: 8 }
    );
}

#[test]
fn disabled_callsites_are_skipped() {
    let mut replay = Replay::new();
    let r = TraceRecord {
        meta: envelope(10, "ThreadId(1)"),
        trace: Trace::NewSpan(NewSpan {
            id: SpanId(1),
            fields: vec![],
            metadata: meta(9, "quiet", &[], Kind::Span),
            parent: Parent::Root,
        }),
    };
    let routed = replay.process_record(r, now(), 0);
    let span_item = &routed[routed.len() - 1];
    assert_eq!(replay.plan_dispatch(&span_item.trace, false), DispatchPlan::Skip);
    // The identity entry stays pending: a later reference waits.
    let enter = Dispatchable::Enter(tracing_replay::replay::DispatchableSpanId(SpanId(1)));
    assert_eq!(replay.plan_dispatch(&enter, true), DispatchPlan::Wait { id: SpanId(1) });
}

#[test]
fn explicit_parents_resolve_through_the_identity_map() {
    let mut replay = Replay::new();
    let r = TraceRecord {
        meta: envelope(10, "ThreadId(1)"),
        trace: Trace::NewSpan(NewSpan {
            id: SpanId(1),
            fields: vec![],
            metadata: meta(9, "parent", &[], Kind::Span),
            parent: Parent::Root,
        }),
    };
    replay.process_record(r, now(), 0);
    replay.note_span_created(SpanId(1), 55);

    let r2 = TraceRecord {
        meta: envelope(11, "ThreadId(1)"),
        trace: Trace::NewSpan(NewSpan {
            id: SpanId(2),
            fields: vec![],
            metadata: meta(9, "parent", &[], Kind::Span),
            parent: Parent::Explicit(1),
        }),
    };
    let routed = replay.process_record(r2, now(), 1);
    match replay.plan_dispatch(&routed[0].trace, true) {
        DispatchPlan::CreateSpan { parent, .. } => {
            assert_eq!(parent, ResolvedParent::Explicit(55));
        }
        other => panic!("expected a span creation plan, got {:?}", other),
    }
}

#[test]
fn records_are_paced_by_the_first_record_delta() {
    let mut replay = Replay::new();
    // First record at 10s, replay starting at 5000s: the delta is
    // 4990s, and every later record is shifted by exactly that much.
    let r0 = TraceRecord { meta: envelope(10, "ThreadId(1)"), trace: Trace::Enter(SpanId(1)) };
    let routed0 = replay.process_record(r0, now(), 0);
    assert_eq!(routed0[0].target, Timestamp { secs: 5_000, micros: 0 });
    let r1 = TraceRecord { meta: envelope(12, "ThreadId(1)"), trace: Trace::Exit(SpanId(1)) };
    let routed1 = replay.process_record(r1, now(), 1);
    assert_eq!(routed1[0].target, Timestamp { secs: 5_002, micros: 0 });
}

#[test]
fn follows_from_new_keeps_its_edge() {
    let ff = FollowsFrom::new(SpanId(3), SpanId(4));
    assert_eq!(ff.cause_id, SpanId(3));
    assert_eq!(ff.effect_id, SpanId(4));
}
