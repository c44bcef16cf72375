use safepaw::runtime::{
    runtime_init, runtime_outcome, runtime_start, runtime_step, ListenerKind, ListenerPhase,
    RuntimeEvent,
};

#[test]
fn both_listeners_start_serve_and_shut_down_together() {
    let s = runtime_start(runtime_init());
    assert_eq!(s.ui, ListenerPhase::Binding);
    assert_eq!(s.api, ListenerPhase::Binding);

    let s = runtime_step(s, RuntimeEvent::BindOk(ListenerKind::Ui));
    let s = runtime_step(s, RuntimeEvent::BindOk(ListenerKind::Api));
    assert_eq!(s.ui, ListenerPhase::Running);
    assert_eq!(s.api, ListenerPhase::Running);
    assert_eq!(runtime_outcome(s), None);

    let s = runtime_step(s, RuntimeEvent::SignalReceived);
    assert_eq!(s.ui, ListenerPhase::ShuttingDown);
    assert_eq!(s.api, ListenerPhase::ShuttingDown);

    let s = runtime_step(s, RuntimeEvent::Drained(ListenerKind::Api));
    let s = runtime_step(s, RuntimeEvent::Drained(ListenerKind::Ui));
    assert_eq!(s.ui, ListenerPhase::Stopped);
    assert_eq!(s.api, ListenerPhase::Stopped);
    assert_eq!(runtime_outcome(s), Some(Ok(())));
}

#[test]
fn api_bind_failure_fails_the_runtime_and_stops_the_asset_listener() {
    let s = runtime_start(runtime_init());
    let s = runtime_step(s, RuntimeEvent::BindOk(ListenerKind::Ui));
    assert_eq!(s.ui, ListenerPhase::Running);

    let s = runtime_step(s, RuntimeEvent::BindFailed(ListenerKind::Api));
    assert!(s.failed);
    assert_eq!(s.api, ListenerPhase::Stopped);
    assert_eq!(s.ui, ListenerPhase::ShuttingDown);

    // A late bind acknowledgement cannot revive the asset listener.
    let s = runtime_step(s, RuntimeEvent::BindOk(ListenerKind::Ui));
    assert_eq!(s.ui, ListenerPhase::ShuttingDown);

    let s = runtime_step(s, RuntimeEvent::Drained(ListenerKind::Ui));
    assert_eq!(s.ui, ListenerPhase::Stopped);
    assert_eq!(runtime_outcome(s), Some(Err(())));
}

#[test]
fn bind_failure_before_the_sibling_bound_stops_it_outright() {
    let s = runtime_start(runtime_init());
    let s = runtime_step(s, RuntimeEvent::BindFailed(ListenerKind::Api));
    assert!(s.failed);
    assert_eq!(s.api, ListenerPhase::Stopped);
    assert_eq!(s.ui, ListenerPhase::Stopped);
    assert_eq!(runtime_outcome(s), Some(Err(())));
}

#[test]
fn serve_failure_propagates_and_drains_the_sibling() {
    let s = runtime_start(runtime_init());
    let s = runtime_step(s, RuntimeEvent::BindOk(ListenerKind::Ui));
    let s = runtime_step(s, RuntimeEvent::BindOk(ListenerKind::Api));

    let s = runtime_step(s, RuntimeEvent::ServeFailed(ListenerKind::Ui));
    assert!(s.failed);
    assert_eq!(s.ui, ListenerPhase::Stopped);
    assert_eq!(s.api, ListenerPhase::ShuttingDown);

    let s = runtime_step(s, RuntimeEvent::Drained(ListenerKind::Api));
    assert_eq!(runtime_outcome(s), Some(Err(())));
}
