use ollama_supervisor::command::{CommandOutput, Completion};
use ollama_supervisor::engine::{EngineCall, EngineReply, EngineStep};
use ollama_supervisor::errors::SupervisorError;
use ollama_supervisor::inventory::{names_of, ModelRecord};
use ollama_supervisor::models::{
    get_model_directories, list_args, make_scan_command, make_tags_command, pull_args, read_pull,
    read_remove, read_scan, read_version, remove_args, version_args, ListingStep, ModelListing,
    ScanStep,
};
use ollama_supervisor::paths::resolve_candidates;
use ollama_supervisor::platform::{HostProfile, PlatformId};
use ollama_supervisor::port::PortConfig;

fn host() -> HostProfile {
    HostProfile {
        user: "ada".to_string(),
        home: "/Users/ada".to_string(),
        user_profile: "C:\\Users\\Ada".to_string(),
    }
}

fn finished(success: bool, stdout: &str, stderr: &str) -> Completion {
    Completion::Finished(CommandOutput {
        success,
        code: Some(if success { 0 } else { 1 }),
        stdout: stdout.to_string(),
        stderr: stderr.to_string(),
    })
}

fn ran(candidate: &str, absolute: bool, success: bool, stdout: &str, stderr: &str) -> EngineReply {
    EngineReply::Ran {
        candidate: candidate.to_string(),
        absolute,
        output: CommandOutput {
            success,
            code: Some(0),
            stdout: stdout.to_string(),
            stderr: stderr.to_string(),
        },
    }
}

fn call(platform: PlatformId, exists: Vec<bool>, args: Vec<String>) -> EngineCall {
    EngineCall::new(resolve_candidates(platform, &host()), exists, args, "/p".to_string(), 11434)
}

fn program(step: EngineStep) -> String {
    match step {
        EngineStep::Run(c) => c.program,
        EngineStep::Done(_) => panic!("the call has ended"),
    }
}

#[test]
fn subcommand_arguments() {
    assert_eq!(version_args(), vec!["--version"]);
    assert_eq!(list_args(), vec!["list"]);
    assert_eq!(pull_args("llama2"), vec!["pull", "llama2"]);
    assert_eq!(remove_args("llama2:7b"), vec!["rm", "llama2:7b"]);
}

#[test]
fn a_call_runs_the_bare_command_first() {
    let mut c = call(PlatformId::Linux, vec![false, true, true, true], pull_args("phi3"));
    assert!(!c.is_finished());
    match c.pending() {
        EngineStep::Run(command) => {
            assert_eq!(command.program, "ollama");
            assert_eq!(command.args, vec!["pull", "phi3"]);
            assert_eq!(command.env.len(), 2);
            assert_eq!(command.env[0].value, "/p");
            assert_eq!(command.env[1].value, "11434");
            assert!(!command.quiet && !command.no_window);
        }
        EngineStep::Done(_) => panic!(),
    }
    c.record(finished(false, "", "pull failed"));
    assert!(c.is_finished());
    match c.pending() {
        EngineStep::Done(EngineReply::Ran { candidate, absolute, output }) => {
            assert_eq!(candidate, "ollama");
            assert!(!absolute);
            assert!(!output.success);
            assert_eq!(output.stderr, "pull failed");
        }
        _ => panic!("the engine ran"),
    }
    c.record(finished(true, "late", ""));
    match c.pending() {
        EngineStep::Done(EngineReply::Ran { output, .. }) => assert_eq!(output.stderr, "pull failed"),
        _ => panic!(),
    }
}

#[test]
fn a_call_falls_back_to_the_paths_that_exist() {
    let mut c = call(PlatformId::Windows, vec![false, false, true, true], version_args());
    assert_eq!(program(c.pending()), "ollama.exe");
    c.record(Completion::NotStarted("program not found".to_string()));
    assert_eq!(program(c.pending()), "C:\\Program Files\\Ollama\\ollama.exe");
    c.record(Completion::NotStarted("access denied".to_string()));
    assert_eq!(program(c.pending()), "C:\\Program Files (x86)\\Ollama\\ollama.exe");
    c.record(finished(true, "ollama version is 0.3.1\n", ""));
    match c.pending() {
        EngineStep::Done(reply) => {
            assert_eq!(
                read_version(&reply).ok(),
                Some(
                    "ollama version is 0.3.1 (found at C:\\Program Files (x86)\\Ollama\\ollama.exe)"
                        .to_string()
                )
            );
        }
        _ => panic!(),
    }
}

#[test]
fn a_call_that_cannot_start_anything_says_not_installed() {
    let mut c = call(PlatformId::MacOs, vec![], version_args());
    c.record(Completion::NotStarted("No such file or directory (os error 2)".to_string()));
    assert!(c.is_finished());
    match c.pending() {
        EngineStep::Done(reply) => match read_version(&reply) {
            Err(e @ SupervisorError::NotInstalled { .. }) => assert_eq!(
                e.describe(),
                "Ollama not found or not accessible: No such file or directory (os error 2)"
            ),
            _ => panic!(),
        },
        _ => panic!(),
    }
    let c = EngineCall::new(Vec::new(), Vec::new(), version_args(), String::new(), 1);
    match c.pending() {
        EngineStep::Done(EngineReply::NotInstalled(detail)) => assert_eq!(detail, ""),
        _ => panic!(),
    }
}

#[test]
fn version_pull_and_remove_verdicts() {
    assert_eq!(
        read_version(&ran("ollama", false, true, "  ollama version is 0.3.1 \n", "")).ok(),
        Some("ollama version is 0.3.1".to_string())
    );
    match read_version(&ran("ollama", false, false, "", "boom")) {
        Err(e @ SupervisorError::SubcommandFailed { .. }) => {
            assert_eq!(e.describe(), "Ollama command failed: boom")
        }
        _ => panic!(),
    }
    assert_eq!(
        read_pull("llama2", &ran("ollama", false, true, "\nsuccess\n", "")).ok(),
        Some("Model 'llama2' downloaded successfully. Output: success".to_string())
    );
    assert_eq!(
        read_pull("llama2", &ran("/usr/bin/ollama", true, true, "ok", "")).ok(),
        Some("Model 'llama2' downloaded successfully using /usr/bin/ollama. Output: ok".to_string())
    );
    match read_pull("nope", &ran("ollama", false, false, "", "Error: pull failed: file does not exist\n")) {
        Err(SupervisorError::SubcommandFailed { message, stderr }) => {
            assert_eq!(stderr, "Error: pull failed: file does not exist\n");
            assert_eq!(
                message,
                "Failed to download model 'nope': Error: pull failed: file does not exist\n"
            );
        }
        _ => panic!(),
    }
    match read_pull("llama2", &ran("ollama", false, false, "", "")) {
        Err(e) => assert_eq!(e.describe(), "Failed to download model 'llama2': "),
        _ => panic!(),
    }
    match read_pull("llama2", &ran("C:\\x\\ollama.exe", true, false, "", "denied")) {
        Err(e) => assert_eq!(
            e.describe(),
            "Failed to download model 'llama2' using C:\\x\\ollama.exe: denied"
        ),
        _ => panic!(),
    }
    match read_pull("x", &EngineReply::NotInstalled("e".to_string())) {
        Err(SupervisorError::NotInstalled { message, detail }) => {
            assert_eq!(detail, "e");
            assert_eq!(
                message,
                "Failed to run ollama pull: e. Make sure Ollama is installed and accessible."
            );
        }
        _ => panic!(),
    }
    assert_eq!(
        read_remove("llama2", &ran("ollama", false, true, "deleted 'llama2'", "")).ok(),
        Some("Model 'llama2' uninstalled successfully".to_string())
    );
    match read_remove("llama2", &ran("ollama", false, false, "", "Error: model not found")) {
        Err(SupervisorError::SubcommandFailed { message, stderr }) => {
            assert_eq!(stderr, "Error: model not found");
            assert_eq!(message, "Failed to uninstall model 'llama2': Error: model not found");
        }
        _ => panic!(),
    }
    match read_remove("llama2", &EngineReply::NotInstalled("no such file".to_string())) {
        Err(e) => assert_eq!(e.describe(), "Failed to run ollama rm: no such file"),
        _ => panic!(),
    }
}

fn names(step: ListingStep) -> Vec<String> {
    match step {
        ListingStep::Done(Ok(records)) => names_of(&records),
        _ => panic!("the listing has given no models"),
    }
}

fn listing(platform: PlatformId) -> ModelListing {
    let mut config = PortConfig::new();
    config.set_port(11500).unwrap();
    ModelListing::new(
        platform,
        resolve_candidates(platform, &host()),
        vec![false, false, false, false],
        "/p",
        &config,
    )
}

#[test]
fn listing_reads_the_table() {
    let mut l = listing(PlatformId::Linux);
    match l.pending() {
        ListingStep::Run(c) => assert_eq!((c.program.as_str(), c.args.clone()), ("ollama", vec!["list".to_string()])),
        _ => panic!(),
    }
    l.record(finished(true, "NAME SIZE\nllama2 3.8GB\nmistral 4.1GB\n", ""));
    assert_eq!(names(l.pending()), vec!["llama2", "mistral"]);
    match l.pending() {
        ListingStep::Done(Ok(records)) => {
            let sizes: Vec<Option<String>> = records.iter().map(|r: &ModelRecord| r.size.clone()).collect();
            assert_eq!(sizes, vec![Some("3.8GB".to_string()), Some("4.1GB".to_string())]);
        }
        _ => panic!(),
    }
    let mut l = listing(PlatformId::Windows);
    l.record(finished(true, "NAME SIZE\n", ""));
    assert!(names(l.pending()).is_empty());
}

#[test]
fn listing_asks_the_api_on_windows_only() {
    let mut l = listing(PlatformId::Linux);
    l.record(finished(false, "", "Error: could not connect"));
    match l.pending() {
        ListingStep::Done(Err(SupervisorError::SubcommandFailed { message, stderr })) => {
            assert_eq!(stderr, "Error: could not connect");
            assert_eq!(
                message,
                "Failed to list models using 'ollama list': Error: could not connect. Make sure Ollama is installed and running."
            );
        }
        _ => panic!(),
    }
    let mut l = listing(PlatformId::Windows);
    l.record(finished(false, "", "Error: could not connect"));
    match l.pending() {
        ListingStep::Run(c) => {
            assert_eq!(c.program, "curl");
            assert_eq!(
                c.args,
                vec!["-s", "--connect-timeout", "2", "--max-time", "3", "http://localhost:11500/api/tags"]
            );
        }
        _ => panic!("the API is asked"),
    }
    l.record(finished(true, "{\"models\":[{\"name\":\"llama2:latest\"}]}", ""));
    assert_eq!(names(l.pending()), vec!["llama2:latest"]);
    match l.pending() {
        ListingStep::Done(Ok(records)) => {
            assert_eq!(records[0].tag, Some("latest".to_string()));
            assert_eq!(records[0].size, None);
        }
        _ => panic!(),
    }
    l.record(finished(true, "{\"models\":[{\"name\":\"other\"}]}", ""));
    assert_eq!(names(l.pending()), vec!["llama2:latest"]);
    for api in [
        finished(true, "{\"models\":[]}", ""),
        finished(true, "", ""),
        finished(false, "{\"models\":[{\"name\":\"llama2\"}]}", ""),
        Completion::NotStarted("curl missing".to_string()),
    ] {
        let mut l = listing(PlatformId::Windows);
        l.record(finished(false, "", "list failed"));
        l.record(api);
        match l.pending() {
            ListingStep::Done(Err(SupervisorError::SubcommandFailed { stderr, .. })) => {
                assert_eq!(stderr, "list failed")
            }
            _ => panic!("the failure of the listing is kept"),
        }
    }
    let mut l = listing(PlatformId::Windows);
    l.record(Completion::NotStarted("not found".to_string()));
    match l.pending() {
        ListingStep::Done(Err(e @ SupervisorError::NotInstalled { .. })) => assert_eq!(
            e.describe(),
            "Failed to run 'ollama list': not found. Make sure Ollama is installed and accessible."
        ),
        _ => panic!(),
    }
}

#[test]
fn tags_command_reads_the_port() {
    let c = make_tags_command("/p", &PortConfig::new());
    assert_eq!(
        c.args,
        vec!["-s", "--connect-timeout", "2", "--max-time", "3", "http://localhost:11434/api/tags"]
    );
    assert_eq!(c.env.len(), 1);
}

#[test]
fn scan_for_models() {
    let c = make_scan_command(PlatformId::Windows, "/p", 11434);
    assert_eq!((c.program.as_str(), c.args.clone()), ("ollama.exe", vec!["list".to_string()]));
    match read_scan(PlatformId::MacOs, &host(), &finished(true, "NAME\nphi3 2GB\n", "")) {
        ScanStep::Names(names) => assert_eq!(names, vec!["phi3"]),
        _ => panic!(),
    }
    match read_scan(PlatformId::MacOs, &host(), &finished(false, "", "e")) {
        ScanStep::ReadDirectories(dirs) => assert_eq!(
            dirs,
            vec![
                "/Users/ada/.ollama/models",
                "/usr/local/share/ollama/models",
                "/opt/homebrew/share/ollama/models"
            ]
        ),
        _ => panic!(),
    }
    match read_scan(PlatformId::Linux, &host(), &finished(false, "", "e")) {
        ScanStep::ReadDirectories(dirs) => assert!(dirs.is_empty()),
        _ => panic!(),
    }
    match read_scan(PlatformId::Windows, &host(), &Completion::NotStarted("e".to_string())) {
        ScanStep::Names(names) => assert!(names.is_empty()),
        _ => panic!(),
    }
    assert_eq!(
        get_model_directories(PlatformId::Windows, &host()),
        vec![
            "C:\\Users\\Ada\\AppData\\Local\\Ollama\\models",
            "C:\\Program Files\\Ollama\\models",
            "C:\\Program Files (x86)\\Ollama\\models"
        ]
    );
}
