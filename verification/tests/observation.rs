use mpv::data::{Data, Format, MpvFormat};
use mpv::errors::Error;
use mpv::events::{events_to_disable, EndFileReason, Event, LogLevel, Property};
use mpv::instance::{InstanceState, IterCycle, LoadFilesBatch, LocaleOnce, WakeFlag};
use mpv::protocol::ProtocolContextState;
use mpv::registry::{PendingEvent, Registry};
use mpv::MPV_CLIENT_API_VERSION;

fn volume_change() -> Event {
    Event::PropertyChange(Property::new("volume", Data::new(0i64)))
}

#[test]
fn data_formats() {
    assert_eq!(Data::new("x").format(), MpvFormat::String);
    assert_eq!(Data::String(String::from("x")).format(), MpvFormat::String);
    assert_eq!(Data::OsdString(String::from("x")).format(), MpvFormat::OsdString);
    assert_eq!(Data::new(true).format(), MpvFormat::Flag);
    assert_eq!(Data::new(7i64).format(), MpvFormat::Int64);
    assert_eq!(Data::new(7i32).format(), MpvFormat::Int64);
    assert_eq!(Data::new(7u32).format(), MpvFormat::Int64);
    assert_eq!(Data::DoubleBits(2.5f64.to_bits()).format(), MpvFormat::Double);
}

#[test]
fn data_from_raw_values() {
    assert_eq!(Data::from_raw_flag(0), Data::Flag(false));
    assert_eq!(Data::from_raw_flag(3), Data::Flag(true));
    assert_eq!(Data::from_raw_int(-9), Data::Int64(-9));
    let bits = 1.5f64.to_bits();
    assert_eq!(Data::from_raw_double_bits(bits), Data::DoubleBits(bits));
}

#[test]
fn format_mapping() {
    assert_eq!(Format::String.as_mpv_format().as_val(), 1);
    assert_eq!(Format::OsdString.as_mpv_format().as_val(), 2);
    assert_eq!(Format::Flag.as_mpv_format().as_val(), 3);
    assert_eq!(Format::Int64.as_mpv_format().as_val(), 4);
    assert_eq!(Format::Double.as_mpv_format().as_val(), 5);
    assert_eq!(MpvFormat::NoValue.as_val(), 0);
}

#[test]
fn event_ids() {
    assert_eq!(Event::LogMessage(LogLevel::Info).as_id(), 2);
    assert_eq!(Event::StartFile.as_id(), 6);
    assert_eq!(Event::EndFile(Some(EndFileReason::Eof)).as_id(), 7);
    assert_eq!(Event::FileLoaded.as_id(), 8);
    assert_eq!(Event::Idle.as_id(), 11);
    assert_eq!(Event::ClientMessage.as_id(), 16);
    assert_eq!(Event::VideoReconfig.as_id(), 17);
    assert_eq!(Event::AudioReconfig.as_id(), 18);
    assert_eq!(Event::Seek.as_id(), 20);
    assert_eq!(Event::PlaybackRestart.as_id(), 21);
    assert_eq!(volume_change().as_id(), 22);
}

#[test]
fn log_level_keywords() {
    assert_eq!(LogLevel::NoLog.as_str(), "no");
    assert_eq!(LogLevel::Fatal.as_str(), "fatal");
    assert_eq!(LogLevel::Error.as_str(), "error");
    assert_eq!(LogLevel::Warn.as_str(), "warn");
    assert_eq!(LogLevel::Info.as_str(), "info");
    assert_eq!(LogLevel::V.as_str(), "v");
    assert_eq!(LogLevel::Debug.as_str(), "debug");
    assert_eq!(LogLevel::Trace.as_str(), "trace");
}

#[test]
fn disable_list_covers_event_api() {
    let ids = events_to_disable();
    assert_eq!(
        ids,
        vec![2, 3, 4, 5, 6, 7, 8, 11, 16, 17, 18, 20, 21, 22, 24]
    );
}

#[test]
fn native_error_codes() {
    assert!(mpv::errors::mpv_err(0).is_ok());
    assert!(matches!(mpv::errors::mpv_err(-10), Err(Error::Native(-10))));
}

#[test]
fn double_kind_subscription_rejected() {
    let mut reg = Registry::new();
    let req = vec![Event::Seek, Event::FileLoaded];
    let plan = reg.subscribe_begin(&req).unwrap();
    let _local = reg.subscribe_commit(&plan);
    assert_eq!(reg.kinds_count(), 2);

    let again = vec![Event::Seek];
    match reg.subscribe_begin(&again) {
        Err(Error::AlreadyObserved(ev)) => assert_eq!(*ev, Event::Seek),
        other => panic!("expected AlreadyObserved, got {:?}", other.map(|_| ())),
    }
    // The rejected attempt left the registry as it was.
    assert_eq!(reg.kinds_count(), 2);
    assert_eq!(reg.props_count(), 0);
}

#[test]
fn duplicate_within_one_batch_rejected() {
    let reg = Registry::new();
    let req = vec![Event::Seek, Event::Seek];
    assert!(matches!(
        reg.subscribe_begin(&req),
        Err(Error::AlreadyObserved(_))
    ));
}

#[test]
fn double_property_subscription_rejected_until_teardown() {
    let mut reg = Registry::new();
    let first = vec![volume_change()];
    let plan = reg.subscribe_begin(&first).unwrap();
    let local_a = reg.subscribe_commit(&plan);
    assert_eq!(reg.props_count(), 1);

    // A second live subscription for the same name fails.
    let second = vec![volume_change()];
    assert!(matches!(
        reg.subscribe_begin(&second),
        Err(Error::AlreadyObserved(_))
    ));

    // After the first subscription is torn down, the same name succeeds.
    let removed = reg.unsubscribe(&local_a);
    assert_eq!(removed, vec![0]);
    assert_eq!(reg.props_count(), 0);
    let plan2 = reg.subscribe_begin(&second).unwrap();
    let _local_b = reg.subscribe_commit(&plan2);
    assert_eq!(reg.props_count(), 1);
    // Observation ids are never reused while the instance lives.
    assert_eq!(reg.next_observation_id(), 2);
}

#[test]
fn teardown_of_one_iterator_spares_the_sibling() {
    let mut reg = Registry::new();
    let plan_a = reg.subscribe_begin(&vec![Event::Seek]).unwrap();
    let local_a = reg.subscribe_commit(&plan_a);
    let plan_b = reg.subscribe_begin(&vec![Event::FileLoaded]).unwrap();
    let local_b = reg.subscribe_commit(&plan_b);

    reg.push_pending(PendingEvent { event: Event::FileLoaded, prop_id: None });
    let removed = reg.unsubscribe(&local_a);
    assert!(removed.is_empty());
    assert_eq!(reg.kinds_count(), 1);

    // B still drains events of its kinds.
    let drained = reg.drain(&local_b).unwrap();
    assert_eq!(drained, vec![Event::FileLoaded]);
}

#[test]
fn version_mismatch_refuses_construction() {
    let loaded = MPV_CLIENT_API_VERSION + 1;
    match InstanceState::create(true, MPV_CLIENT_API_VERSION, loaded) {
        Err(Error::VersionMismatch(compiled, found)) => {
            assert_eq!(compiled, MPV_CLIENT_API_VERSION);
            assert_eq!(found, loaded);
        },
        _ => panic!("expected VersionMismatch"),
    }
    assert!(InstanceState::create(true, MPV_CLIENT_API_VERSION, MPV_CLIENT_API_VERSION).is_ok());
}

#[test]
fn events_disabled_instance_refuses_subscription() {
    let state = InstanceState::create(false, 1, 1).unwrap();
    assert!(!state.events());
    assert!(matches!(
        state.observe_begin(&vec![Event::Seek]),
        Err(Error::EventsDisabled)
    ));
}

#[test]
fn client_state_and_name_check() {
    let parent = InstanceState::create(true, 1, 1).unwrap();
    assert!(parent.new_client("observer", true).is_ok());
    assert!(matches!(
        parent.new_client("ob\0server", true),
        Err(Error::InvalidStringArgument)
    ));
}

#[test]
fn batched_load_reports_index_of_first_failure() {
    // Three files; the engine accepts f0, rejects f1: the batch reports
    // index 1 and never attempts f2.
    let files = ["f0.mkv", "f1.mkv", "f2.mkv"];
    let mut issued: Vec<String> = Vec::new();
    let mut batch = LoadFilesBatch::new(files.len());
    let mut outcome: Result<(), Error> = Ok(());
    while let Some(i) = batch.current() {
        let cmd = mpv::commands::loadfile_command(
            files[i],
            mpv::data::FileState::AppendPlay,
            None,
        )
        .unwrap();
        issued.push(cmd);
        // Simulated native outcomes: f1 fails with an engine error.
        if i == 1 {
            outcome = Err(batch.fail(Error::Native(-5)));
        } else {
            batch.advance_ok();
        }
    }
    match outcome {
        Err(Error::Loadfiles(index, inner)) => {
            assert_eq!(index, 1);
            assert!(matches!(*inner, Error::Native(-5)));
        },
        _ => panic!("expected Loadfiles"),
    }
    // f0 and f1 were issued, f2 never was.
    assert_eq!(issued.len(), 2);
    assert!(issued[0].contains("f0.mkv"));
    assert!(issued[1].contains("f1.mkv"));
    assert!(batch.current().is_none());
}

#[test]
fn batched_load_completes_without_failure() {
    let mut batch = LoadFilesBatch::new(2);
    assert_eq!(batch.current(), Some(0));
    batch.advance_ok();
    assert_eq!(batch.current(), Some(1));
    batch.advance_ok();
    assert_eq!(batch.current(), None);
    batch.finish();
    assert_eq!(batch.current(), None);
}

#[test]
fn second_protocol_context_refused_until_release() {
    let mut state = InstanceState::create(false, 1, 1).unwrap();
    assert!(state.acquire_protocol_guard().is_ok());
    assert!(matches!(
        state.acquire_protocol_guard(),
        Err(Error::ContextExists)
    ));
    state.release_protocol_guard();
    assert!(state.acquire_protocol_guard().is_ok());
}

#[test]
fn opengl_guard_is_independent() {
    let mut state = InstanceState::create(false, 1, 1).unwrap();
    assert!(state.acquire_protocol_guard().is_ok());
    assert!(state.acquire_opengl_guard().is_ok());
    assert!(matches!(
        state.acquire_opengl_guard(),
        Err(Error::ContextExists)
    ));
    state.release_opengl_guard();
    assert!(state.acquire_opengl_guard().is_ok());
}

#[test]
fn locale_adjustment_runs_exactly_once() {
    let mut latch = LocaleOnce::new();
    let runs = [
        latch.begin_construction(),
        latch.begin_construction(),
        latch.begin_construction(),
    ];
    assert_eq!(runs, [true, false, false]);
}

#[test]
fn wake_without_matching_events_says_try_again() {
    let mut reg = Registry::new();
    let plan = reg.subscribe_begin(&vec![Event::Seek]).unwrap();
    let local = reg.subscribe_commit(&plan);

    // A wake delivered an event nobody here subscribed to.
    reg.push_pending(PendingEvent { event: Event::Idle, prop_id: None });
    assert!(matches!(reg.drain(&local), Err(Error::NoAssociatedEvent)));
    // The buffer was not consumed and the iterator stays usable.
    assert_eq!(reg.pending_count(), 1);

    reg.push_pending(PendingEvent { event: Event::Seek, prop_id: None });
    let drained = reg.drain(&local).unwrap();
    assert_eq!(drained, vec![Event::Seek]);
    assert_eq!(reg.pending_count(), 1);
}

#[test]
fn drain_keeps_emission_order_and_consumes_disjointly() {
    let mut reg = Registry::new();
    let plan_a = reg.subscribe_begin(&vec![Event::Seek, Event::PlaybackRestart]).unwrap();
    let local_a = reg.subscribe_commit(&plan_a);
    let plan_b = reg.subscribe_begin(&vec![Event::FileLoaded]).unwrap();
    let local_b = reg.subscribe_commit(&plan_b);

    reg.push_pending(PendingEvent { event: Event::Seek, prop_id: None });
    reg.push_pending(PendingEvent { event: Event::FileLoaded, prop_id: None });
    reg.push_pending(PendingEvent { event: Event::PlaybackRestart, prop_id: None });

    let for_a = reg.drain(&local_a).unwrap();
    assert_eq!(for_a, vec![Event::Seek, Event::PlaybackRestart]);
    let for_b = reg.drain(&local_b).unwrap();
    assert_eq!(for_b, vec![Event::FileLoaded]);
    assert_eq!(reg.pending_count(), 0);
}

#[test]
fn property_events_match_by_observation_id() {
    let mut reg = Registry::new();
    let plan = reg.subscribe_begin(&vec![volume_change()]).unwrap();
    let local = reg.subscribe_commit(&plan);

    let delivered = Event::PropertyChange(Property::new("volume", Data::new(42i64)));
    reg.push_pending(PendingEvent { event: delivered.clone(), prop_id: Some(0) });
    // A property change under a foreign observation id is not ours.
    let foreign = Event::PropertyChange(Property::new("pause", Data::new(false)));
    reg.push_pending(PendingEvent { event: foreign, prop_id: Some(9) });

    let drained = reg.drain(&local).unwrap();
    assert_eq!(drained, vec![delivered]);
    assert_eq!(reg.pending_count(), 1);
}

#[test]
fn batch_rollback_ids_come_newest_first() {
    let reg = Registry::new();
    let req = vec![
        Event::PropertyChange(Property::new("volume", Data::new(0i64))),
        Event::PropertyChange(Property::new("pause", Data::new(false))),
        Event::PropertyChange(Property::new("speed", Data::new(1i64))),
    ];
    let plan = reg.subscribe_begin(&req).unwrap();
    // The registration at index 2 failed: undo 1 and 0, newest first.
    assert_eq!(plan.rollback_ids(2), vec![1, 0]);
    assert_eq!(plan.rollback_ids(0), Vec::<u64>::new());
}

#[test]
fn log_subscription_batches_with_properties() {
    let mut state = InstanceState::create(true, 1, 1).unwrap();
    let req = vec![Event::LogMessage(LogLevel::Warn), volume_change()];
    let plan = state.observe_begin(&req).unwrap();
    let local = state.observe_commit(&plan);
    assert_eq!(local.kind_ids, vec![2]);
    assert_eq!(local.prop_ids, vec![0]);
}

#[test]
fn iterator_first_cycle_never_waits() {
    let mut cycle = IterCycle::new();
    assert!(!cycle.begin_cycle());
    assert!(cycle.begin_cycle());
    assert!(cycle.begin_cycle());
}

#[test]
fn wake_flag_set_and_consumed() {
    let mut flag = WakeFlag::new();
    assert!(!flag.consume());
    flag.signal();
    flag.signal();
    assert!(flag.consume());
    assert!(!flag.consume());
}

#[test]
fn protocol_context_records_schemes() {
    let mut ctx = ProtocolContextState::new(4);
    assert_eq!(ctx.capacity(), 4);
    assert_eq!(ctx.registered(), 0);
    assert!(ctx.register_scheme("filereader").is_ok());
    assert_eq!(ctx.registered(), 1);
    assert!(matches!(
        ctx.register_scheme("bad\0scheme"),
        Err(Error::InvalidStringArgument)
    ));
    assert_eq!(ctx.registered(), 1);
}
