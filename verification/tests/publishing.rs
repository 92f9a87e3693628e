use deployer::errors::{PipelineError, RegistryFault};
use deployer::publish::{
    build_params, check_push_event, push_outcome, pushed_image_name, push_tag, PushEvent,
};
use deployer::registry::{interpret_create, interpret_lifecycle, registry_request, EngineReport};

fn ev(error: Option<&str>, status: Option<&str>, progress: Option<&str>) -> PushEvent {
    PushEvent {
        error: error.map(|s| s.to_string()),
        status: status.map(|s| s.to_string()),
        progress: progress.map(|s| s.to_string()),
    }
}

#[test]
fn registry_request_is_fixed() {
    let r = registry_request();
    assert_eq!(r.name, "registry");
    assert_eq!(r.image, "registry:2");
    assert_eq!(r.container_port, "5000/tcp");
    assert_eq!(r.host_ip, "localhost");
    assert_eq!(r.host_port, "6000");
    assert_eq!(r.restart_kind, "on-failure");
    assert_eq!(r.max_retries, 3);
    assert_eq!(r.platform, "linux/arm64");
}

#[test]
fn taken_name_is_a_lifecycle_error() {
    match interpret_create(EngineReport::NameInUse) {
        Err(PipelineError::RegistryLifecycle(RegistryFault::NameConflict)) => {}
        _ => panic!("a taken container name must be a registry lifecycle error"),
    }
}

#[test]
fn created_container_yields_handle() {
    let h = interpret_create(EngineReport::Done).expect("a created container yields a handle");
    assert_eq!(h.name, "registry");
}

#[test]
fn engine_failure_message_is_kept() {
    match interpret_lifecycle(EngineReport::Failed("boom".to_string())) {
        Err(PipelineError::RegistryLifecycle(RegistryFault::Engine(m))) => assert_eq!(m, "boom"),
        _ => panic!("an engine failure must surface its message"),
    }
}

#[test]
fn build_request_is_fixed() {
    let p = build_params(&"myproj".to_string());
    assert_eq!(p.dockerfile, "Dockerfile");
    assert_eq!(p.target, "export-stage");
    assert_eq!(p.image_name, "myproj");
    assert_eq!(p.session, "myproj");
    assert!(p.pull);
    assert_eq!(p.output_local_path, ".");
}

#[test]
fn push_destination_is_registry_qualified() {
    assert_eq!(pushed_image_name(&"myproj".to_string()), "localhost:6000/myproj");
    assert_eq!(push_tag(), "latest");
}

#[test]
fn error_event_aborts_even_after_progress() {
    let events = vec![
        ev(None, Some("Preparing"), None),
        ev(None, None, Some("12%")),
        ev(Some("blob upload invalid"), None, None),
        ev(None, Some("never read"), None),
    ];
    match push_outcome(&events) {
        Err(PipelineError::Push(m)) => assert_eq!(m, "blob upload invalid"),
        _ => panic!("an error event must abort the push with its message"),
    }
}

#[test]
fn clean_stream_counts_events() {
    let events = vec![
        ev(None, Some("Preparing"), None),
        ev(None, Some("Pushed"), Some("100%")),
        ev(None, None, None),
    ];
    let report = push_outcome(&events).expect("a clean stream must succeed");
    assert_eq!(report.status_events, 2);
    assert_eq!(report.progress_events, 1);
}

#[test]
fn single_event_decision() {
    assert!(check_push_event(&ev(None, Some("ok"), None)).is_ok());
    match check_push_event(&ev(Some("denied"), None, None)) {
        Err(PipelineError::Push(m)) => assert_eq!(m, "denied"),
        _ => panic!("an error field must abort"),
    }
}
