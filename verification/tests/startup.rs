use sedna_rs::config::generate_sedna_config;
use sedna_rs::server::{
    config_file_in, invocation, subdir_name, Phase, ScratchDir, Startup, StartupAction, StartupEvent, Subdir, Tool,
    CONFIG_ENV_VAR, CONFIG_FILE_NAME, DATABASE_NAME, INSTALL_ENV_VAR,
    PROBE_ATTEMPTS, PROBE_INTERVAL_MS, SERVER_HOST, SETTLE_ATTEMPTS, SETTLE_INTERVAL_MS,
};
use sedna_rs::SednaError;

fn exited(success: bool) -> StartupEvent {
    StartupEvent::ToolExited { success, stdout: b"out".to_vec(), stderr: b"err".to_vec() }
}

/// Drives a startup through every stage up to the first try of the port.
fn up_to_probe(port: u16) -> Startup {
    let mut s = Startup::new(port);
    assert!(matches!(s.next_action(), StartupAction::PrepareBinaries));
    s.advance(StartupEvent::BinariesReady("/tmp/inst/bin".into()));
    assert!(matches!(s.next_action(), StartupAction::CreateScratchDir(ScratchDir::Data)));
    s.advance(StartupEvent::DirCreated("/tmp/data-x".into()));
    assert!(matches!(s.next_action(), StartupAction::CreateScratchDir(ScratchDir::Config)));
    s.advance(StartupEvent::DirCreated("/tmp/cfg-y".into()));
    assert!(matches!(s.next_action(), StartupAction::CreateSubdir(Subdir::Data)));
    s.advance(StartupEvent::Done);
    assert!(matches!(s.next_action(), StartupAction::CreateSubdir(Subdir::Cfg)));
    s.advance(StartupEvent::Done);
    match s.next_action() {
        StartupAction::WriteConfig(text) => {
            assert_eq!(text, generate_sedna_config("/tmp/data-x", port).unwrap())
        }
        _ => panic!("expected the configuration to be written"),
    }
    s.advance(StartupEvent::Done);
    assert!(matches!(s.next_action(), StartupAction::RunTool(Tool::Governor)));
    s.advance(exited(true));
    match s.next_action() {
        StartupAction::ProbePort(address) => assert_eq!(address, format!("localhost:{}", port)),
        _ => panic!("expected the governor's port to be tried"),
    }
    s.advance(StartupEvent::PortReachable(true));
    assert!(matches!(s.next_action(), StartupAction::RunTool(Tool::CreateDatabase)));
    s.advance(exited(true));
    assert!(matches!(s.next_action(), StartupAction::RunTool(Tool::StartDatabase)));
    s.advance(exited(true));
    assert_eq!(s.phase(), Phase::Probe);
    s
}

fn failure_of(s: Startup) -> SednaError {
    assert!(s.is_finished());
    assert!(matches!(s.next_action(), StartupAction::Finish));
    s.finish().unwrap_err()
}

#[test]
fn startup_succeeds_when_port_answers() {
    let mut s = up_to_probe(5060);
    match s.next_action() {
        StartupAction::ProbePort(address) => assert_eq!(address, "localhost:5060"),
        _ => panic!("expected a port probe"),
    }
    s.advance(StartupEvent::PortReachable(true));
    assert_eq!(s.phase(), Phase::Ready);
    assert!(s.is_finished());
    assert_eq!(s.port(), 5060);
    assert!(s.finish().is_ok());
}

#[test]
fn startup_retries_port_then_succeeds() {
    let mut s = up_to_probe(5050);
    for _ in 0..10 {
        s.advance(StartupEvent::PortReachable(false));
        assert!(matches!(s.next_action(), StartupAction::Sleep(100)));
        s.advance(StartupEvent::Done);
        assert!(matches!(s.next_action(), StartupAction::ProbePort(_)));
    }
    s.advance(StartupEvent::PortReachable(true));
    assert!(s.finish().is_ok());
}

#[test]
fn startup_gives_up_after_fifty_tries() {
    let mut s = up_to_probe(5050);
    let mut probes = 0;
    loop {
        match s.next_action() {
            StartupAction::ProbePort(_) => {
                probes += 1;
                s.advance(StartupEvent::PortReachable(false));
            }
            StartupAction::Sleep(ms) => {
                assert_eq!(ms, PROBE_INTERVAL_MS);
                s.advance(StartupEvent::Done);
            }
            StartupAction::Finish => break,
            _ => panic!("unexpected action"),
        }
    }
    assert_eq!(probes, PROBE_ATTEMPTS);
    assert_eq!(
        failure_of(s),
        SednaError::ServerStartupFailed(
            "Server did not start listening on port within timeout".into()
        )
    );
}

#[test]
fn startup_binaries_failure_is_passed_on() {
    let mut s = Startup::new(5050);
    let err = SednaError::BinaryExtractionFailed("Failed to create temp dir: no space".into());
    s.advance(StartupEvent::BinariesFailed(err.clone()));
    assert_eq!(failure_of(s), err);
}

#[test]
fn startup_directory_failures() {
    let mut s = Startup::new(5050);
    s.advance(StartupEvent::BinariesReady("/b".into()));
    s.advance(StartupEvent::Failed("denied".into()));
    assert_eq!(failure_of(s), SednaError::ServerStartupFailed("Failed to create data dir: denied".into()));

    let mut s = Startup::new(5050);
    s.advance(StartupEvent::BinariesReady("/b".into()));
    s.advance(StartupEvent::DirCreated("/d".into()));
    s.advance(StartupEvent::Failed("denied".into()));
    assert_eq!(failure_of(s), SednaError::ServerStartupFailed("Failed to create cfg dir: denied".into()));

    let mut s = Startup::new(5050);
    s.advance(StartupEvent::BinariesReady("/b".into()));
    s.advance(StartupEvent::DirCreated("/d".into()));
    s.advance(StartupEvent::DirCreated("/c".into()));
    s.advance(StartupEvent::Failed("exists".into()));
    assert_eq!(failure_of(s), SednaError::ServerStartupFailed("Failed to create data/data: exists".into()));

    let mut s = Startup::new(5050);
    s.advance(StartupEvent::BinariesReady("/b".into()));
    s.advance(StartupEvent::DirCreated("/d".into()));
    s.advance(StartupEvent::DirCreated("/c".into()));
    s.advance(StartupEvent::Done);
    s.advance(StartupEvent::Failed("exists".into()));
    assert_eq!(failure_of(s), SednaError::ServerStartupFailed("Failed to create data/cfg: exists".into()));

    let mut s = Startup::new(5050);
    s.advance(StartupEvent::BinariesReady("/b".into()));
    s.advance(StartupEvent::DirCreated("/d".into()));
    s.advance(StartupEvent::DirCreated("/c".into()));
    s.advance(StartupEvent::Done);
    s.advance(StartupEvent::Done);
    s.advance(StartupEvent::Failed("disk full".into()));
    assert_eq!(failure_of(s), SednaError::ServerStartupFailed("Failed to write config: disk full".into()));
}

fn up_to_governor() -> Startup {
    let mut s = Startup::new(5050);
    s.advance(StartupEvent::BinariesReady("/b".into()));
    s.advance(StartupEvent::DirCreated("/d".into()));
    s.advance(StartupEvent::DirCreated("/c".into()));
    s.advance(StartupEvent::Done);
    s.advance(StartupEvent::Done);
    s.advance(StartupEvent::Done);
    assert_eq!(s.phase(), Phase::Governor);
    s
}

#[test]
fn startup_program_failures() {
    let mut s = up_to_governor();
    s.advance(StartupEvent::Failed("not found".into()));
    assert_eq!(failure_of(s), SednaError::ServerStartupFailed("Failed to start se_gov: not found".into()));

    let mut s = up_to_governor();
    s.advance(exited(false));
    assert_eq!(
        failure_of(s),
        SednaError::ServerStartupFailed("se_gov failed to start:\nstdout: out\nstderr: err".into())
    );

    let mut s = up_to_governor();
    s.advance(exited(true));
    s.advance(StartupEvent::PortReachable(true));
    s.advance(StartupEvent::Failed("gone".into()));
    assert_eq!(failure_of(s), SednaError::DatabaseCreationFailed("Failed to run se_cdb: gone".into()));

    let mut s = up_to_governor();
    s.advance(exited(true));
    s.advance(StartupEvent::PortReachable(true));
    s.advance(StartupEvent::ToolExited { success: false, stdout: vec![0xff], stderr: vec![] });
    assert_eq!(
        failure_of(s),
        SednaError::DatabaseCreationFailed("se_cdb failed:\nstdout: \u{FFFD}\nstderr: ".into())
    );

    let mut s = up_to_governor();
    s.advance(exited(true));
    s.advance(StartupEvent::PortReachable(true));
    s.advance(exited(true));
    s.advance(StartupEvent::Failed("gone".into()));
    assert_eq!(failure_of(s), SednaError::DatabaseCreationFailed("Failed to run se_sm: gone".into()));

    let mut s = up_to_governor();
    s.advance(exited(true));
    s.advance(StartupEvent::PortReachable(true));
    s.advance(exited(true));
    s.advance(exited(false));
    assert_eq!(
        failure_of(s),
        SednaError::DatabaseCreationFailed(
            "se_sm failed to start database:\nstdout: out\nstderr: err".into()
        )
    );
}

#[test]
fn startup_ignores_reports_out_of_turn() {
    let mut s = Startup::new(5050);
    s.advance(StartupEvent::PortReachable(true));
    assert_eq!(s.phase(), Phase::Binaries);
    s.advance(StartupEvent::Done);
    assert_eq!(s.phase(), Phase::Binaries);
    s.advance(StartupEvent::BinariesReady("/b".into()));
    s.advance(StartupEvent::Done);
    assert_eq!(s.phase(), Phase::DataDir);
    let mut s = up_to_probe(5050);
    s.advance(StartupEvent::PortReachable(true));
    s.advance(StartupEvent::Failed("late".into()));
    assert_eq!(s.phase(), Phase::Ready);
}

#[test]
fn tool_invocations() {
    let gov = invocation(Tool::Governor);
    assert_eq!(gov.program, "./se_gov");
    assert_eq!(gov.args, vec!["-background-mode", "on", "-el-level", "4"]);
    let cdb = invocation(Tool::CreateDatabase);
    assert_eq!(cdb.program, "./se_cdb");
    assert_eq!(cdb.args, vec!["testdb"]);
    let sm = invocation(Tool::StartDatabase);
    assert_eq!(sm.program, "./se_sm");
    assert_eq!(sm.args, vec!["testdb"]);
    let stop = invocation(Tool::Stop);
    assert_eq!(stop.program, "./se_stop");
    assert!(stop.args.is_empty());
}

#[test]
fn server_constants() {
    assert_eq!(SERVER_HOST, "localhost");
    assert_eq!(DATABASE_NAME, "testdb");
    assert_eq!(CONFIG_FILE_NAME, "sednaconf.xml");
    assert_eq!(INSTALL_ENV_VAR, "SEDNA_INSTALL");
    assert_eq!(CONFIG_ENV_VAR, "CONFIG_FILE");
    assert_eq!(SETTLE_ATTEMPTS, 20);
    assert_eq!(SETTLE_INTERVAL_MS, 100);
    assert_eq!(subdir_name(Subdir::Data), "data");
    assert_eq!(subdir_name(Subdir::Cfg), "cfg");
}

#[test]
fn startup_binaries_failure_on_any_port() {
    for port in [0u16, 5050, 65434, 65435, 65535] {
        let mut s = Startup::new(port);
        let err = SednaError::BinaryExtractionFailed("Failed to get embedded file: bin/se_gov".into());
        s.advance(StartupEvent::BinariesFailed(err.clone()));
        assert_eq!(failure_of(s), err);
    }
}

#[test]
fn tool_environment_names_the_server_directories() {
    let s = up_to_probe(5060);
    let env = s.tool_environment();
    assert_eq!(env.working_dir, "/tmp/inst/bin");
    assert_eq!(
        env.variables,
        vec![
            ("SEDNA_INSTALL".to_string(), "/tmp/data-x".to_string()),
            ("CONFIG_FILE".to_string(), "/tmp/cfg-y/sednaconf.xml".to_string()),
        ]
    );
}

#[test]
fn config_file_paths() {
    assert_eq!(config_file_in("/tmp/cfg"), "/tmp/cfg/sednaconf.xml");
    assert_eq!(config_file_in("/tmp/cfg/"), "/tmp/cfg/sednaconf.xml");
    assert_eq!(config_file_in(""), "sednaconf.xml");
    assert_eq!(config_file_in("/"), "/sednaconf.xml");
}

#[test]
fn startup_without_unanswered_tries_never_pauses() {
    let mut s = Startup::new(5050);
    let events = vec![
        StartupEvent::BinariesReady("/b".into()),
        StartupEvent::DirCreated("/d".into()),
        StartupEvent::DirCreated("/c".into()),
        StartupEvent::Done,
        StartupEvent::Done,
        StartupEvent::Done,
        exited(true),
        StartupEvent::PortReachable(true),
        exited(true),
        exited(true),
        StartupEvent::PortReachable(true),
    ];
    for event in events {
        assert!(!matches!(s.next_action(), StartupAction::Sleep(_)));
        s.advance(event);
    }
    assert_eq!(s.phase(), Phase::Ready);
    assert!(s.finish().is_ok());
}

#[test]
fn governor_settling_waits_at_most_twenty_tries() {
    let mut s = up_to_governor();
    s.advance(exited(true));
    let mut pauses = 0;
    while s.phase() != Phase::CreateDatabase {
        match s.next_action() {
            StartupAction::ProbePort(_) => s.advance(StartupEvent::PortReachable(false)),
            StartupAction::Sleep(ms) => {
                assert_eq!(ms, 100);
                pauses += 1;
                s.advance(StartupEvent::Done);
            }
            _ => panic!("unexpected action while the governor settles"),
        }
    }
    assert_eq!(pauses, 20);
    assert!(matches!(s.next_action(), StartupAction::RunTool(Tool::CreateDatabase)));
}

#[test]
fn governor_settling_stops_when_the_port_answers() {
    let mut s = up_to_governor();
    s.advance(exited(true));
    s.advance(StartupEvent::PortReachable(false));
    assert!(matches!(s.next_action(), StartupAction::Sleep(100)));
    s.advance(StartupEvent::Done);
    assert!(matches!(s.next_action(), StartupAction::ProbePort(_)));
    s.advance(StartupEvent::PortReachable(true));
    assert_eq!(s.phase(), Phase::CreateDatabase);
}
