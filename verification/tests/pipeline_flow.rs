use deployer::engine::{
    get_daemon_json_path, engine_endpoint, restart_commands, EngineAccess, HostOs,
    ENGINE_READY_DELAY_SECS,
};
use deployer::errors::PipelineError;
use deployer::pipeline::{Pipeline, Stage};

fn ok() -> Result<(), PipelineError> {
    Ok(())
}

fn fail(m: &str) -> Result<(), PipelineError> {
    Err(PipelineError::Build(m.to_string()))
}

#[test]
fn success_path_visits_stages_in_order() {
    let mut p = Pipeline::new();
    let expected = [
        Stage::ApplyConfig,
        Stage::RestartEngineOn,
        Stage::StartRegistry,
        Stage::BuildPush,
        Stage::StopRegistry,
        Stage::RevertConfig,
        Stage::RestartEngineOff,
        Stage::Connect,
        Stage::Exec,
        Stage::Close,
        Stage::Done,
    ];
    for (i, stage) in expected.iter().enumerate() {
        assert_eq!(p.stage, *stage);
        if i + 1 < expected.len() {
            assert!(!p.is_terminal());
            p.step(ok());
        }
    }
    assert!(p.is_terminal());
    assert!(p.failure.is_none());
    assert!(!p.config_owed);
    assert!(!p.registry_owed);
}

#[test]
fn failed_push_still_tears_down_and_reverts() {
    let mut p = Pipeline::new();
    p.step(ok()); // trust entry applied
    p.step(ok()); // engine restarted
    p.step(ok()); // registry started
    assert_eq!(p.stage, Stage::BuildPush);
    p.step(fail("push refused"));
    assert_eq!(p.stage, Stage::StopRegistry);
    p.step(ok());
    assert_eq!(p.stage, Stage::RevertConfig);
    p.step(ok());
    assert_eq!(p.stage, Stage::RestartEngineOff);
    p.step(ok());
    assert_eq!(p.stage, Stage::Failed);
    assert!(!p.config_owed);
    assert!(!p.registry_owed);
    match p.failure {
        Some(PipelineError::Build(ref m)) => assert_eq!(m, "push refused"),
        _ => panic!("the push failure must be kept"),
    }
}

#[test]
fn registry_conflict_still_reverts_config() {
    let mut p = Pipeline::new();
    p.step(ok());
    p.step(ok());
    assert_eq!(p.stage, Stage::StartRegistry);
    p.step(Err(PipelineError::RegistryLifecycle(
        deployer::errors::RegistryFault::NameConflict,
    )));
    assert_eq!(p.stage, Stage::RevertConfig);
    p.step(ok());
    p.step(ok());
    assert_eq!(p.stage, Stage::Failed);
    assert!(matches!(
        p.failure,
        Some(PipelineError::RegistryLifecycle(_))
    ));
}

#[test]
fn failed_start_still_tears_down_and_reverts() {
    let mut p = Pipeline::new();
    p.step(ok());
    p.step(ok());
    assert_eq!(p.stage, Stage::StartRegistry);
    p.step(Err(PipelineError::RegistryLifecycle(
        deployer::errors::RegistryFault::Engine("start failed".to_string()),
    )));
    assert_eq!(p.stage, Stage::StopRegistry);
    p.step(ok());
    assert_eq!(p.stage, Stage::RevertConfig);
    p.step(ok());
    p.step(ok());
    assert_eq!(p.stage, Stage::Failed);
    assert!(!p.registry_owed);
    assert!(!p.config_owed);
}

#[test]
fn first_failure_is_kept_over_cleanup_failures() {
    let mut p = Pipeline::new();
    p.step(ok());
    p.step(ok());
    p.step(ok());
    p.step(fail("original"));
    p.step(Err(PipelineError::RegistryLifecycle(
        deployer::errors::RegistryFault::Engine("stop failed too".to_string()),
    )));
    p.step(ok());
    p.step(ok());
    assert_eq!(p.stage, Stage::Failed);
    match p.failure {
        Some(PipelineError::Build(ref m)) => assert_eq!(m, "original"),
        _ => panic!("the first failure must not be displaced"),
    }
}

#[test]
fn apply_failure_fails_without_cleanup_owed() {
    let mut p = Pipeline::new();
    p.step(Err(PipelineError::ConfigIo("permission denied".to_string())));
    assert_eq!(p.stage, Stage::Failed);
    assert!(!p.config_owed);
    assert!(!p.registry_owed);
}

#[test]
fn remote_failure_after_cleanup_fails_directly() {
    let mut p = Pipeline::new();
    for _ in 0..7 {
        p.step(ok());
    }
    assert_eq!(p.stage, Stage::Connect);
    p.step(Err(PipelineError::Authentication));
    assert_eq!(p.stage, Stage::Failed);
    assert!(matches!(p.failure, Some(PipelineError::Authentication)));
}

#[test]
fn endpoint_words_are_mapped() {
    let e = engine_endpoint(&"unix".to_string()).unwrap();
    assert_eq!(e.mode, EngineAccess::Unix);
    assert_eq!(e.docker_host, Some("unix:///var/run/docker.sock".to_string()));
    let e = engine_endpoint(&"local".to_string()).unwrap();
    assert_eq!(e.mode, EngineAccess::Local);
    assert_eq!(e.docker_host, None);
    let e = engine_endpoint(&"http".to_string()).unwrap();
    assert_eq!(e.mode, EngineAccess::Http);
    assert_eq!(e.docker_host, Some("tcp://localhost:2375".to_string()));
    match engine_endpoint(&"carrier-pigeon".to_string()) {
        Err(PipelineError::EngineConnection(m)) => {
            assert_eq!(m, "Invalid access method to the Docker Daemon")
        }
        _ => panic!("an unrecognized access word must be rejected"),
    }
}

#[test]
fn config_paths_per_platform() {
    assert_eq!(
        get_daemon_json_path(&HostOs::Linux, &String::new()),
        "/etc/docker/daemon.json"
    );
    assert_eq!(
        get_daemon_json_path(&HostOs::MacOs, &"/Users/me".to_string()),
        "/Users/me/.docker/daemon.json"
    );
    assert_eq!(
        get_daemon_json_path(&HostOs::Windows, &"C:\\ProgramData".to_string()),
        "C:\\ProgramData\\Docker\\config\\daemon.json"
    );
}

#[test]
fn restart_commands_per_platform() {
    let linux = restart_commands(&HostOs::Linux);
    assert_eq!(linux.len(), 1);
    assert_eq!(linux[0].program, "sudo");
    assert_eq!(linux[0].args, vec!["systemctl", "restart", "docker"]);
    let mac = restart_commands(&HostOs::MacOs);
    assert_eq!(mac.len(), 2);
    assert_eq!(mac[0].program, "osascript");
    assert_eq!(mac[0].args, vec!["-e", "quit app \"Docker\""]);
    assert_eq!(mac[1].program, "open");
    let win = restart_commands(&HostOs::Windows);
    assert_eq!(win.len(), 2);
    assert_eq!(win[0].args, vec!["stop", "docker"]);
    assert_eq!(win[1].args, vec!["start", "docker"]);
    assert_eq!(ENGINE_READY_DELAY_SECS, 10);
}

#[test]
fn remote_stage_errors_are_marked() {
    assert!(PipelineError::Authentication.is_remote_stage());
    assert!(PipelineError::RemoteExecution.is_remote_stage());
    assert!(PipelineError::Transport(String::new()).is_remote_stage());
    assert!(!PipelineError::Build(String::new()).is_remote_stage());
    assert!(!PipelineError::ConfigIo(String::new()).is_remote_stage());
}
