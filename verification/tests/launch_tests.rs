use ollama_supervisor::command::CommandLine;
use ollama_supervisor::errors::SupervisorError;
use ollama_supervisor::launch::{
    make_launch_command, strategies_of, AttemptOutcome, LaunchAction, LaunchChain, LaunchStrategy,
};
use ollama_supervisor::paths::resolve_candidates;
use ollama_supervisor::platform::{HostProfile, PlatformId};

fn host() -> HostProfile {
    HostProfile {
        user: "ada".to_string(),
        home: "/home/ada".to_string(),
        user_profile: "C:\\Users\\Ada".to_string(),
    }
}

fn chain(platform: PlatformId, exists: Vec<bool>) -> LaunchChain {
    LaunchChain::new(
        platform,
        resolve_candidates(platform, &host()),
        exists,
        "/usr/bin:/opt/x".to_string(),
        11500,
    )
}

fn env_of(c: &CommandLine) -> Vec<(String, String)> {
    c.env.iter().map(|v| (v.name.clone(), v.value.clone())).collect()
}

fn spawn(action: LaunchAction) -> CommandLine {
    match action {
        LaunchAction::Spawn(c) => c,
        other => panic!("expected a spawn, got {}", describe(&other)),
    }
}

fn describe(action: &LaunchAction) -> String {
    match action {
        LaunchAction::Spawn(c) => format!("spawn {} {:?}", c.program, c.args),
        LaunchAction::Succeeded(a) => format!("succeeded {}", a.candidate),
        LaunchAction::Failed(e) => format!("failed after {}", e.attempts.len()),
    }
}

#[test]
fn strategies_in_their_order() {
    let three = vec![
        LaunchStrategy::DaemonWrapper,
        LaunchStrategy::DetachedSpawn,
        LaunchStrategy::ShellSpawn,
    ];
    assert_eq!(strategies_of(PlatformId::Linux), three);
    assert_eq!(strategies_of(PlatformId::MacOs), three);
    assert_eq!(strategies_of(PlatformId::Unknown), three);
    assert_eq!(
        strategies_of(PlatformId::Windows),
        vec![
            LaunchStrategy::DaemonWrapper,
            LaunchStrategy::DetachedSpawn,
            LaunchStrategy::ShellSpawn,
            LaunchStrategy::ConsoleLauncher,
        ]
    );
}

#[test]
fn commands_of_the_strategies() {
    let both = vec![
        ("PATH".to_string(), "/p".to_string()),
        ("OLLAMA_PORT".to_string(), "11434".to_string()),
    ];
    let c = make_launch_command(PlatformId::Linux, LaunchStrategy::DaemonWrapper, "ollama", "/p", 11434);
    assert_eq!(c.program, "nohup");
    assert_eq!(c.args, vec!["ollama", "serve"]);
    assert_eq!(env_of(&c), both);
    assert!(c.quiet && !c.no_window);

    let c = make_launch_command(PlatformId::Linux, LaunchStrategy::DetachedSpawn, "/usr/bin/ollama", "/p", 11434);
    assert_eq!(c.program, "/usr/bin/ollama");
    assert_eq!(c.args, vec!["serve"]);
    assert_eq!(env_of(&c), both);
    assert!(c.quiet && !c.no_window);

    let c = make_launch_command(PlatformId::MacOs, LaunchStrategy::ShellSpawn, "ollama", "/a:/b", 11434);
    assert_eq!(c.program, "bash");
    assert_eq!(c.args, vec!["-c", "export PATH=\"/a:/b\" && \"ollama\" serve &"]);
    assert_eq!(env_of(&c), vec![("OLLAMA_PORT".to_string(), "11434".to_string())]);
    assert!(!c.quiet && !c.no_window);

    let c = make_launch_command(PlatformId::Windows, LaunchStrategy::ShellSpawn, "ollama.exe", "/p", 11434);
    assert_eq!(c.program, "cmd");
    assert_eq!(c.args, vec!["/C", "start", "/B", "ollama.exe", "serve"]);
    assert_eq!(env_of(&c), both);

    let c = make_launch_command(PlatformId::Windows, LaunchStrategy::ConsoleLauncher, "ollama.exe", "/p", 11434);
    assert_eq!(c.program, "ollama.exe");
    assert_eq!(c.args, vec!["serve"]);
    assert!(!c.quiet && c.no_window);
}

#[test]
fn chain_ends_at_the_first_spawn() {
    let mut chain = chain(PlatformId::Linux, vec![false, false, true, false]);
    assert!(!chain.is_finished());
    let c = spawn(chain.pending());
    assert_eq!((c.program.as_str(), c.args.clone()), ("nohup", vec!["ollama".to_string(), "serve".to_string()]));
    assert_eq!(
        env_of(&c),
        vec![
            ("PATH".to_string(), "/usr/bin:/opt/x".to_string()),
            ("OLLAMA_PORT".to_string(), "11500".to_string()),
        ]
    );
    chain.record(Err("nohup: not found".to_string()));
    let c = spawn(chain.pending());
    assert_eq!(c.program, "ollama");
    chain.record(Err("ollama: not found".to_string()));
    let c = spawn(chain.pending());
    assert_eq!(c.program, "bash");
    chain.record(Err("bash: denied".to_string()));
    // the user's own path is missing and is passed over; the next that exists is tried
    let c = spawn(chain.pending());
    assert_eq!(c.program, "nohup");
    assert_eq!(c.args, vec!["/usr/local/bin/ollama", "serve"]);
    chain.record(Ok(()));
    assert!(chain.is_finished());
    match chain.pending() {
        LaunchAction::Succeeded(attempt) => {
            assert_eq!(attempt.candidate, "/usr/local/bin/ollama");
            assert_eq!(attempt.strategy, LaunchStrategy::DaemonWrapper);
            assert!(matches!(attempt.outcome, AttemptOutcome::Started));
        }
        other => panic!("{}", describe(&other)),
    }
    // a chain that has ended takes no further report
    chain.record(Err("late".to_string()));
    assert!(matches!(chain.pending(), LaunchAction::Succeeded(_)));
}

#[test]
fn chain_that_fails_throughout_keeps_every_attempt() {
    let mut chain = chain(PlatformId::Windows, vec![true, true, false, true]);
    let mut spawned = Vec::new();
    let mut n = 0;
    loop {
        match chain.pending() {
            LaunchAction::Spawn(c) => {
                spawned.push((c.program.clone(), c.args.clone()));
                chain.record(Err(format!("error {}", n)));
                n += 1;
                assert!(n <= 16);
            }
            LaunchAction::Succeeded(_) => panic!("nothing was spawned"),
            LaunchAction::Failed(error) => {
                assert_eq!(n, 12);
                assert_eq!(error.attempts.len(), 16);
                let candidates = resolve_candidates(PlatformId::Windows, &host());
                let order = strategies_of(PlatformId::Windows);
                let mut failures = 0;
                for (k, attempt) in error.attempts.iter().enumerate() {
                    assert_eq!(attempt.candidate, candidates[k / 4].path);
                    assert_eq!(attempt.strategy, order[k % 4]);
                    match &attempt.outcome {
                        AttemptOutcome::SkippedMissing => assert_eq!(k / 4, 2),
                        AttemptOutcome::SpawnFailed(e) => {
                            assert_ne!(k / 4, 2);
                            assert_eq!(e, &format!("error {}", failures));
                            failures += 1;
                        }
                        AttemptOutcome::Started => panic!("nothing was spawned"),
                    }
                }
                assert_eq!(failures, 12);
                let text = SupervisorError::LaunchFailed(error).describe();
                assert!(text.starts_with("Failed to start Ollama service. [nohup ollama.exe: error 0] [direct spawn ollama.exe: error 1] "));
                assert!(text.contains("[shell C:\\Program Files\\Ollama\\ollama.exe: not found at this path] "));
                assert!(text.contains("[console launcher C:\\Program Files (x86)\\Ollama\\ollama.exe: error 11] "));
                assert!(text.ends_with("Try running 'ollama serve' manually."));
                break;
            }
        }
    }
    assert_eq!(spawned[0], ("nohup".to_string(), vec!["ollama.exe".to_string(), "serve".to_string()]));
    assert_eq!(spawned[3].0, "ollama.exe");
    assert_eq!(spawned[4].1[0], "C:\\Users\\Ada\\AppData\\Local\\Programs\\Ollama\\ollama.exe");
    assert_eq!(spawned[8].1[0], "C:\\Program Files (x86)\\Ollama\\ollama.exe");
}

#[test]
fn chain_without_candidates_fails_at_once() {
    let chain = LaunchChain::new(PlatformId::Linux, Vec::new(), Vec::new(), String::new(), 11434);
    assert!(chain.is_finished());
    match chain.pending() {
        LaunchAction::Failed(error) => assert!(error.attempts.is_empty()),
        other => panic!("{}", describe(&other)),
    }
}

#[test]
fn missing_answers_count_as_missing_paths() {
    let mut chain = chain(PlatformId::MacOs, vec![]);
    for _ in 0..3 {
        let c = spawn(chain.pending());
        assert!(c.program == "ollama" || c.args.contains(&"ollama".to_string()) || c.program == "bash");
        chain.record(Err("no".to_string()));
    }
    match chain.pending() {
        LaunchAction::Failed(error) => {
            assert_eq!(error.attempts.len(), 12);
            assert_eq!(
                error.attempts.iter().filter(|a| matches!(a.outcome, AttemptOutcome::SkippedMissing)).count(),
                9
            );
        }
        other => panic!("{}", describe(&other)),
    }
}
