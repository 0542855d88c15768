use ollama_supervisor::command::{CommandOutput, Completion};
use ollama_supervisor::diagnosis::{
    DiagnosisAction, DiagnosisEvent, DiagnosisSession, CONNECT_TIMEOUT_MS, START_GRACE_MS,
};
use ollama_supervisor::paths::resolve_candidates;
use ollama_supervisor::platform::{HostProfile, PlatformId};
use ollama_supervisor::port::PortConfig;
use ollama_supervisor::report::StepMark;

fn host() -> HostProfile {
    HostProfile {
        user: "ada".to_string(),
        home: "/home/ada".to_string(),
        user_profile: "C:\\Users\\Ada".to_string(),
    }
}

fn finished(success: bool, stdout: &str, stderr: &str) -> Completion {
    Completion::Finished(CommandOutput {
        success,
        code: Some(if success { 0 } else { 1 }),
        stdout: stdout.to_string(),
        stderr: stderr.to_string(),
    })
}

fn session(platform: PlatformId, exists: Vec<bool>, port: u16) -> DiagnosisSession {
    let mut config = PortConfig::new();
    config.set_port(port).unwrap();
    DiagnosisSession::new(
        platform,
        resolve_candidates(platform, &host()),
        exists,
        "/p".to_string(),
        &config,
    )
}

/// Runs a diagnosis; `answer` gives the result of each command by its program.
fn run(
    platform: PlatformId,
    exists: Vec<bool>,
    connects: Vec<bool>,
    spawn: Result<(), String>,
    answer: impl Fn(&str, &[String]) -> Completion,
) -> (Vec<(StepMark, String)>, bool, u32, Vec<String>) {
    let mut s = session(platform, exists, 11500);
    let mut connects = connects.into_iter();
    let mut spawn = Some(spawn);
    let mut did = Vec::new();
    for _ in 0..20 {
        match s.pending() {
            DiagnosisAction::Run(c) => {
                did.push(format!("{} {}", c.program, c.args.join(" ")));
                s.record(DiagnosisEvent::Completed(answer(&c.program, &c.args)));
            }
            DiagnosisAction::Connect { address, timeout_ms } => {
                assert_eq!(address, "127.0.0.1:11500");
                assert_eq!(timeout_ms, CONNECT_TIMEOUT_MS);
                did.push("connect".to_string());
                s.record(DiagnosisEvent::Connected(connects.next().unwrap()));
            }
            DiagnosisAction::Spawn(c) => {
                did.push(format!("spawn {} {}", c.program, c.args.join(" ")));
                s.record(DiagnosisEvent::Spawned(spawn.take().unwrap()));
            }
            DiagnosisAction::Sleep(ms) => {
                assert_eq!(ms, START_GRACE_MS);
                did.push("sleep".to_string());
                s.record(DiagnosisEvent::Slept);
            }
            DiagnosisAction::Finish(report) => {
                assert!(s.is_finished());
                let lines = report.lines.iter().map(|l| (l.mark, l.text.clone())).collect();
                return (lines, report.success, report.polls, did);
            }
        }
    }
    panic!("the diagnosis did not end");
}

#[test]
fn diagnosis_of_an_engine_that_answers() {
    let (lines, success, polls, did) = run(
        PlatformId::Windows,
        vec![true, false, true, false],
        vec![true],
        Ok(()),
        |program, _| match program {
            "where" => finished(true, "C:\\bin\\ollama.exe\r\n", ""),
            "curl" => finished(true, " {\"models\":[]} ", ""),
            "tasklist" => finished(true, "ollama.exe 42", ""),
            _ => finished(true, "ollama version is 0.3.1\n", ""),
        },
    );
    assert!(success);
    assert_eq!(polls, 1);
    assert_eq!(
        did,
        vec![
            "where ollama.exe",
            "C:\\Program Files\\Ollama\\ollama.exe --version",
            "connect",
            "curl -s --connect-timeout 5 http://localhost:11500/api/tags",
            "tasklist /FI IMAGENAME eq ollama.exe",
        ]
    );
    let expected: Vec<(StepMark, &str)> = vec![
        (StepMark::Heading, "=== Ollama Diagnosis ==="),
        (StepMark::Heading, "1. Checking Ollama installation paths:"),
        (StepMark::Failed, "Not found: C:\\Users\\Ada\\AppData\\Local\\Programs\\Ollama\\ollama.exe"),
        (StepMark::Passed, "Found: C:\\Program Files\\Ollama\\ollama.exe"),
        (StepMark::Failed, "Not found: C:\\Program Files (x86)\\Ollama\\ollama.exe"),
        (StepMark::Heading, "2. Checking if Ollama is accessible via PATH:"),
        (StepMark::Passed, "Ollama found in PATH: C:\\bin\\ollama.exe"),
        (StepMark::Heading, "3. Checking Ollama version:"),
        (StepMark::Passed, "Version: ollama version is 0.3.1"),
        (StepMark::Heading, "4. Checking if Ollama service is running:"),
        (StepMark::Passed, "Ollama service is responding on port 11500"),
        (StepMark::Heading, "5. Checking if models can be listed via API:"),
        (StepMark::Passed, "API is working, models endpoint accessible"),
        (StepMark::Note, "API Response: {\"models\":[]}"),
        (StepMark::Heading, "6. Checking for the Ollama process:"),
        (StepMark::Passed, "Ollama process is running"),
        (StepMark::Heading, "=== End Diagnosis ==="),
    ];
    let got: Vec<(StepMark, &str)> = lines.iter().map(|(m, t)| (*m, t.as_str())).collect();
    assert_eq!(got, expected);
}

#[test]
fn diagnosis_starts_an_engine_that_does_not_answer() {
    let (lines, success, polls, did) = run(
        PlatformId::Linux,
        vec![true, true, true, true],
        vec![false, true],
        Ok(()),
        |program, _| match program {
            "which" => finished(false, "", ""),
            "pgrep" => finished(true, "77\n", ""),
            _ => finished(false, "", " cannot run \n"),
        },
    );
    assert!(success);
    assert_eq!(polls, 2);
    assert_eq!(
        did,
        vec![
            "which ollama",
            "/home/ada/.local/bin/ollama --version",
            "connect",
            "spawn /home/ada/.local/bin/ollama serve",
            "sleep",
            "connect",
            "pgrep -f ollama",
        ]
    );
    let got: Vec<(StepMark, &str)> = lines.iter().map(|(m, t)| (*m, t.as_str())).collect();
    assert_eq!(
        got[5..],
        [
            (StepMark::Heading, "2. Checking if Ollama is accessible via PATH:"),
            (StepMark::Failed, "Ollama not found in PATH"),
            (StepMark::Heading, "3. Checking Ollama version:"),
            (StepMark::Failed, "Version check failed: cannot run"),
            (StepMark::Heading, "4. Checking if Ollama service is running:"),
            (StepMark::Failed, "Ollama service is NOT running on port 11500"),
            (StepMark::Heading, "5. Attempting to start Ollama service:"),
            (StepMark::Note, "Trying to start: /home/ada/.local/bin/ollama serve"),
            (StepMark::Passed, "Service start command executed"),
            (StepMark::Passed, "Service is now running!"),
            (StepMark::Heading, "6. Checking for the Ollama process:"),
            (StepMark::Passed, "Ollama process is running"),
            (StepMark::Heading, "=== End Diagnosis ==="),
        ]
    );
}

#[test]
fn diagnosis_without_an_executable_starts_nothing() {
    let (lines, success, polls, did) = run(
        PlatformId::MacOs,
        vec![false, false, false, false],
        vec![false],
        Ok(()),
        |program, _| match program {
            "pgrep" => Completion::NotStarted("pgrep: permission denied".to_string()),
            _ => Completion::NotStarted("which: missing".to_string()),
        },
    );
    assert!(!success);
    assert_eq!(polls, 1);
    assert_eq!(did, vec!["which ollama", "connect", "pgrep -f ollama"]);
    let got: Vec<(StepMark, &str)> = lines.iter().map(|(m, t)| (*m, t.as_str())).collect();
    assert_eq!(
        got[5..],
        [
            (StepMark::Heading, "2. Checking if Ollama is accessible via PATH:"),
            (StepMark::Failed, "Ollama not found in PATH"),
            (StepMark::Note, "which: missing"),
            (StepMark::Heading, "3. Checking Ollama version:"),
            (StepMark::Heading, "4. Checking if Ollama service is running:"),
            (StepMark::Failed, "Ollama service is NOT running on port 11500"),
            (StepMark::Heading, "5. Attempting to start Ollama service:"),
            (StepMark::Heading, "6. Checking for the Ollama process:"),
            (StepMark::Failed, "Could not check process list"),
            (StepMark::Note, "pgrep: permission denied"),
            (StepMark::Heading, "=== End Diagnosis ==="),
        ]
    );
}

#[test]
fn diagnosis_tells_a_failed_start_and_a_silent_engine() {
    let (lines, success, _, did) = run(
        PlatformId::Linux,
        vec![false, false, true, false],
        vec![false],
        Err("Permission denied".to_string()),
        |program, _| match program {
            "pgrep" => finished(false, "", ""),
            _ => Completion::NotStarted("exec format error".to_string()),
        },
    );
    assert!(!success);
    assert!(did.contains(&"spawn /usr/local/bin/ollama serve".to_string()));
    assert!(lines.contains(&(StepMark::Failed, "Failed to run version check: exec format error".to_string())));
    assert!(lines.contains(&(StepMark::Failed, "Failed to start service: Permission denied".to_string())));
    assert!(lines.contains(&(StepMark::Failed, "Ollama process not found".to_string())));

    let (lines, success, polls, _) = run(
        PlatformId::Linux,
        vec![false, false, true, false],
        vec![false, false],
        Ok(()),
        |_, _| finished(true, "x", ""),
    );
    assert!(!success);
    assert_eq!(polls, 2);
    assert!(lines.contains(&(StepMark::Warning, "Service started but not responding yet".to_string())));

    let (lines, _, _, _) = run(
        PlatformId::Linux,
        vec![false, false, false, false],
        vec![true],
        Ok(()),
        |program, _| match program {
            "curl" => finished(true, " {} ", ""),
            _ => finished(false, "", ""),
        },
    );
    assert!(lines.contains(&(StepMark::Warning, "API responded but no models found".to_string())));
    assert!(lines.contains(&(StepMark::Note, "Response: {}".to_string())));

    let (lines, _, _, _) = run(
        PlatformId::Linux,
        vec![false, false, false, false],
        vec![true],
        Ok(()),
        |_, _| finished(false, "models", ""),
    );
    assert!(lines.contains(&(StepMark::Failed, "API not accessible or curl not available".to_string())));
}

#[test]
fn diagnosis_ignores_reports_of_the_wrong_kind() {
    let mut s = session(PlatformId::Linux, vec![true; 4], 11434);
    s.record(DiagnosisEvent::Connected(true));
    s.record(DiagnosisEvent::Slept);
    s.record(DiagnosisEvent::Spawned(Ok(())));
    match s.pending() {
        DiagnosisAction::Run(c) => assert_eq!(c.program, "which"),
        _ => panic!("the search path is asked first"),
    }
}

#[test]
fn diagnosis_keeps_what_the_system_said_of_the_api() {
    let (lines, _, _, _) = run(
        PlatformId::Linux,
        vec![false, false, false, false],
        vec![true],
        Ok(()),
        |program, _| match program {
            "curl" => Completion::NotStarted("curl: command not found".to_string()),
            _ => finished(true, "x", ""),
        },
    );
    let at = lines
        .iter()
        .position(|l| l == &(StepMark::Failed, "API not accessible or curl not available".to_string()))
        .unwrap();
    assert_eq!(lines[at + 1], (StepMark::Note, "curl: command not found".to_string()));
}
