use ollama_supervisor::errors::{
    make_indeterminate, make_not_installed, make_subcommand_failed, SupervisorError,
};
use ollama_supervisor::launch::AggregateLaunchError;
use ollama_supervisor::report::{DiagnosticReport, ReportLine, StepMark};

#[test]
fn every_error_has_its_message() {
    assert_eq!(
        make_not_installed("Failed to run 'ollama list': ", "os error 2", ". Make sure.").describe(),
        "Failed to run 'ollama list': os error 2. Make sure."
    );
    assert_eq!(
        SupervisorError::LaunchFailed(AggregateLaunchError { attempts: Vec::new() }).describe(),
        "Failed to start Ollama service. Try running 'ollama serve' manually."
    );
    assert_eq!(
        SupervisorError::Unreachable { port: 11500, polls: 10 }.describe(),
        "Service was started but is not responding on port 11500 after 10 checks"
    );
    assert_eq!(
        make_subcommand_failed("Ollama command failed: ", "Error: x\n", "").describe(),
        "Ollama command failed: Error: x\n"
    );
    assert_eq!(
        SupervisorError::ParseFailure("<html>".to_string()).describe(),
        "Unexpected output: <html>"
    );
    assert_eq!(
        make_indeterminate("Failed to stop Ollama service: ", "taskkill missing").describe(),
        "Failed to stop Ollama service: taskkill missing"
    );
}

#[test]
fn errors_keep_the_words_they_were_given() {
    match make_subcommand_failed("Failed to download model 'x': ", "Error: no such model\n", "") {
        SupervisorError::SubcommandFailed { message, stderr } => {
            assert_eq!(stderr, "Error: no such model\n");
            assert_eq!(message, "Failed to download model 'x': Error: no such model\n");
        }
        _ => panic!(),
    }
    match make_not_installed("a ", "b", " c") {
        SupervisorError::NotInstalled { message, detail } => {
            assert_eq!((message.as_str(), detail.as_str()), ("a b c", "b"));
        }
        _ => panic!(),
    }
    match make_indeterminate("a ", "b") {
        SupervisorError::Indeterminate { message, detail } => {
            assert_eq!((message.as_str(), detail.as_str()), ("a b", "b"));
        }
        _ => panic!(),
    }
}

#[test]
fn reports_render_marks_and_headings() {
    let line = |mark, text: &str| ReportLine { mark, text: text.to_string() };
    let report = DiagnosticReport {
        lines: vec![
            line(StepMark::Heading, "1. First"),
            line(StepMark::Passed, "fine"),
            line(StepMark::Failed, "broken"),
            line(StepMark::Warning, "odd"),
            line(StepMark::Note, "more"),
        ],
        success: false,
        polls: 0,
    };
    assert_eq!(report.render(), "\n1. First\n   ✓ fine\n   ✗ broken\n   ⚠ odd\n   more\n");
    let empty = DiagnosticReport { lines: Vec::new(), success: true, polls: 3 };
    assert_eq!(empty.render(), "");
}
