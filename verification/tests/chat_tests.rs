use ollama_supervisor::chat::{
    format_verbose_answer, make_load_command, read_load, verbose_args, ChatStep, VerboseChat,
};
use ollama_supervisor::command::{CommandOutput, Completion};
use ollama_supervisor::errors::SupervisorError;
use ollama_supervisor::paths::resolve_candidates;
use ollama_supervisor::platform::{HostProfile, PlatformId};
use ollama_supervisor::port::PortConfig;

fn host() -> HostProfile {
    HostProfile { user: "ada".to_string(), home: "/home/ada".to_string(), user_profile: String::new() }
}

fn finished(success: bool, stdout: &str, stderr: &str) -> Completion {
    Completion::Finished(CommandOutput {
        success,
        code: Some(if success { 0 } else { 1 }),
        stdout: stdout.to_string(),
        stderr: stderr.to_string(),
    })
}

#[test]
fn answer_and_timings_are_parted() {
    let stdout = "  The sky is blue.\nIt scatters light.\n";
    let stderr = "total duration:       1.5s\nload duration:        20ms\nprompt eval count:    12 token(s)\neval rate:            40 tokens/s\n";
    assert_eq!(
        format_verbose_answer(stdout, stderr),
        "The sky is blue.\nIt scatters light.\n\n=== VERBOSE STATS ===\ntotal duration:       1.5s\nload duration:        20ms\nprompt eval count:    12 token(s)\neval rate:            40 tokens/s"
    );
}

#[test]
fn a_run_of_timings_takes_lines_until_one_ends_it() {
    let out = "answer\neval count: 3\nstill timings\n\nafter the gap\nSuggested search: x\neval duration: 1s\nmore\nalso web search here\nlast";
    assert_eq!(
        format_verbose_answer(out, ""),
        "answer\n\nafter the gap\nSuggested search: x\nalso web search here\nlast\n\n=== VERBOSE STATS ===\neval count: 3\nstill timings\neval duration: 1s\nmore"
    );
}

#[test]
fn output_without_timings_is_the_trimmed_answer() {
    assert_eq!(format_verbose_answer("\n hello \n", ""), "hello");
    assert_eq!(format_verbose_answer("", ""), "");
    assert_eq!(format_verbose_answer("a", "b\n"), "ab");
    assert_eq!(format_verbose_answer("", "eval rate: 1\n"), "\n\n=== VERBOSE STATS ===\neval rate: 1");
}

fn chat() -> VerboseChat {
    VerboseChat::new(
        "llama2",
        "why is the sky blue?",
        resolve_candidates(PlatformId::Linux, &host()),
        vec![false, false, true, false],
        "/p",
        11434,
    )
}

#[test]
fn a_chat_runs_verbose_first() {
    assert_eq!(verbose_args("m", "p"), vec!["run", "m", "--verbose", "p"]);
    let mut c = chat();
    match c.pending() {
        ChatStep::Run(command) => {
            assert_eq!(command.program, "ollama");
            assert_eq!(command.args, vec!["run", "llama2", "--verbose", "why is the sky blue?"]);
        }
        _ => panic!(),
    }
    c.record(finished(true, "Rayleigh.\n", "eval rate: 9\n"));
    match c.pending() {
        ChatStep::Done(Ok(text)) => assert_eq!(text, "Rayleigh.\n\n=== VERBOSE STATS ===\neval rate: 9"),
        _ => panic!(),
    }
}

#[test]
fn a_chat_retries_without_verbose() {
    let mut c = chat();
    c.record(Completion::NotStarted("not found".to_string()));
    match c.pending() {
        ChatStep::Run(command) => assert_eq!(command.program, "/usr/local/bin/ollama"),
        _ => panic!(),
    }
    c.record(finished(false, "", "unknown flag: --verbose"));
    match c.pending() {
        ChatStep::Run(command) => {
            assert_eq!(command.program, "/usr/local/bin/ollama");
            assert_eq!(command.args, vec!["run", "llama2", "why is the sky blue?"]);
            assert_eq!(command.env.len(), 2);
        }
        _ => panic!("the question is put again"),
    }
    c.record(finished(true, "Rayleigh.\n", ""));
    match c.pending() {
        ChatStep::Done(Ok(text)) => assert_eq!(
            text,
            "Rayleigh.\n\n\n[Verbose mode not available: unknown flag: --verbose]"
        ),
        _ => panic!(),
    }
    c.record(finished(true, "again", ""));
    assert!(matches!(c.pending(), ChatStep::Done(Ok(_))));

    let mut c = chat();
    c.record(finished(false, "", "model not found"));
    c.record(finished(false, "", "still not found"));
    match c.pending() {
        ChatStep::Done(Err(SupervisorError::SubcommandFailed { message, stderr })) => {
            assert_eq!(stderr, "model not found");
            assert_eq!(message, "Failed to run ollama with verbose: model not found");
        }
        _ => panic!(),
    }
    let mut c = chat();
    c.record(Completion::NotStarted("a".to_string()));
    c.record(Completion::NotStarted("b".to_string()));
    match c.pending() {
        ChatStep::Done(Err(SupervisorError::NotInstalled { message, detail })) => {
            assert_eq!(detail, "a");
            assert_eq!(message, "Failed to run ollama verbose command: a");
        }
        _ => panic!(),
    }
}

#[test]
fn loading_a_model() {
    let mut config = PortConfig::new();
    config.set_port(11500).unwrap();
    let c = make_load_command("/p", &config, "llama2");
    assert_eq!(c.program, "curl");
    assert_eq!(
        c.args,
        vec![
            "-X",
            "POST",
            "http://localhost:11500/api/generate",
            "-H",
            "Content-Type: application/json",
            "-d",
            "{\"model\": \"llama2\", \"prompt\": \"hello\", \"stream\": false}",
        ]
    );
    assert_eq!(
        read_load("llama2", &config, &finished(true, "{\"response\":\"hi\"}", "")).ok(),
        Some("Model 'llama2' loaded successfully. API Response received. Command: curl -X POST http://localhost:11500/api/generate".to_string())
    );
    match read_load("llama2", &config, &finished(true, "{\"error\":\"model not found\"}", "")) {
        Err(SupervisorError::SubcommandFailed { message, stderr }) => {
            assert_eq!(stderr, "{\"error\":\"model not found\"}");
            assert_eq!(message, "Failed to load model 'llama2': {\"error\":\"model not found\"}");
        }
        _ => panic!(),
    }
    match read_load("llama2", &config, &finished(false, "", "curl: (7) refused")) {
        Err(e @ SupervisorError::SubcommandFailed { .. }) => {
            assert_eq!(e.describe(), "Failed to load model 'llama2': curl: (7) refused")
        }
        _ => panic!(),
    }
    match read_load("llama2", &config, &Completion::NotStarted("no curl".to_string())) {
        Err(SupervisorError::Indeterminate { message, detail }) => {
            assert_eq!(detail, "no curl");
            assert_eq!(message, "Failed to load model: no curl");
        }
        _ => panic!(),
    }
}
