use ollama_supervisor::command::{CommandOutput, Completion};
use ollama_supervisor::errors::SupervisorError;
use ollama_supervisor::health::ProbeStep;
use ollama_supervisor::launch::LaunchAction;
use ollama_supervisor::platform::{HostProfile, PlatformId};
use ollama_supervisor::port::PortConfig;
use ollama_supervisor::supervisor::{make_stop_command, read_start, read_stop, ServiceSupervisor};

fn finished(success: bool, code: Option<i32>, stderr: &str) -> Completion {
    Completion::Finished(CommandOutput {
        success,
        code,
        stdout: String::new(),
        stderr: stderr.to_string(),
    })
}

fn supervisor(platform: PlatformId) -> ServiceSupervisor {
    ServiceSupervisor::new(
        platform,
        HostProfile {
            user: "ada".to_string(),
            home: "/home/ada".to_string(),
            user_profile: "C:\\Users\\Ada".to_string(),
        },
        "/usr/sbin".to_string(),
        PortConfig::new(),
    )
}

#[test]
fn stopping_what_does_not_run_succeeds() {
    assert_eq!(
        read_stop(PlatformId::Linux, &finished(false, Some(1), "")).ok(),
        Some("Ollama service was not running".to_string())
    );
    assert_eq!(
        read_stop(PlatformId::MacOs, &finished(false, Some(1), "")).ok(),
        Some("Ollama service was not running".to_string())
    );
    assert_eq!(
        read_stop(
            PlatformId::Windows,
            &finished(false, Some(128), "ERROR: The process \"ollama.exe\" not found.")
        )
        .ok(),
        Some("Ollama service was not running".to_string())
    );
}

#[test]
fn stop_verdicts() {
    assert_eq!(
        read_stop(PlatformId::Linux, &finished(true, Some(0), "")).ok(),
        Some("Ollama service stopped successfully".to_string())
    );
    match read_stop(PlatformId::Linux, &finished(false, Some(3), "pkill: fatal")) {
        Err(SupervisorError::SubcommandFailed { message, stderr }) => {
            assert_eq!(stderr, "pkill: fatal");
            assert_eq!(message, "Failed to stop Ollama service: pkill: fatal");
        }
        _ => panic!("a failure of the command is an error"),
    }
    match read_stop(PlatformId::Windows, &finished(false, Some(1), "Access is denied.")) {
        Err(SupervisorError::SubcommandFailed { stderr, .. }) => assert_eq!(stderr, "Access is denied."),
        _ => panic!("exit code 1 is no missing process on Windows"),
    }
    match read_stop(PlatformId::Linux, &finished(false, None, "killed")) {
        Err(SupervisorError::SubcommandFailed { stderr, .. }) => assert_eq!(stderr, "killed"),
        _ => panic!("no exit code is a failure"),
    }
    match read_stop(PlatformId::Linux, &Completion::NotStarted("pkill: not found".to_string())) {
        Err(e @ SupervisorError::Indeterminate { .. }) => {
            assert_eq!(e.describe(), "Failed to stop Ollama service: pkill: not found")
        }
        _ => panic!("a command that cannot be started is indeterminate"),
    }
}

#[test]
fn stop_commands() {
    let c = make_stop_command(PlatformId::Windows, "/p");
    assert_eq!((c.program.as_str(), c.args.clone()), ("taskkill", vec!["/F".to_string(), "/IM".to_string(), "ollama.exe".to_string()]));
    let c = supervisor(PlatformId::Linux).stop();
    assert_eq!(c.program, "pkill");
    assert_eq!(c.args, vec!["-f", "ollama"]);
    assert_eq!(c.env[0].name, "PATH");
    assert_eq!(c.env[0].value, "/usr/sbin:/usr/local/bin:/usr/bin:/home/ada/.local/bin");
}

#[test]
fn the_port_is_read_anew_by_every_component() {
    let mut s = supervisor(PlatformId::Linux);
    assert_eq!(s.port(), 11434);
    assert_eq!(s.base_url(), "http://localhost:11434");
    assert!(s.set_port(80).is_err());
    assert_eq!(s.base_url(), "http://localhost:11434");
    assert_eq!(s.set_port(11500), Ok("Ollama port set to 11500".to_string()));
    assert_eq!(s.port(), 11500);
    assert_eq!(s.port_config().port(), 11500);
    assert_eq!(s.base_url(), "http://localhost:11500");
    match s.status().pending() {
        ProbeStep::Connect { address, .. } => assert_eq!(address, "127.0.0.1:11500"),
        _ => panic!("a probe begins with the socket"),
    }
    match s.start(vec![true, false, false, false]).pending() {
        LaunchAction::Spawn(c) => {
            assert_eq!(c.env[1].name, "OLLAMA_PORT");
            assert_eq!(c.env[1].value, "11500");
        }
        _ => panic!("the chain begins with a spawn"),
    }
    assert_eq!(s.platform(), PlatformId::Linux);
}

#[test]
fn start_reports_the_spawn_and_not_the_health() {
    let s = supervisor(PlatformId::MacOs);
    let mut chain = s.start(vec![false, false, true, false]);
    assert!(read_start(chain.pending()).is_none());
    chain.record(Ok(()));
    assert_eq!(
        read_start(chain.pending()).unwrap().ok(),
        Some("Ollama service started successfully using: ollama".to_string())
    );
    let mut chain = s.start(vec![false, false, false, false]);
    for _ in 0..3 {
        chain.record(Err("no such file".to_string()));
    }
    match read_start(chain.pending()) {
        Some(Err(SupervisorError::LaunchFailed(e))) => assert_eq!(e.attempts.len(), 12),
        _ => panic!("the chain has failed"),
    }
    assert_eq!(
        s.search_path(),
        "/usr/sbin:/opt/homebrew/bin:/usr/local/bin:/usr/bin"
    );
    assert_eq!(s.candidates().len(), 4);
}
