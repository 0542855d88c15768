use ollama_supervisor::command::{CommandOutput, Completion};
use ollama_supervisor::platform::PlatformId;
use ollama_supervisor::results::{
    format_search_results_from_python, gather_context, get_python_script_path, get_script_places,
    make_context_body, make_context_body_around, make_context_command, make_search_command,
    read_context, read_search, ContextItem, ContextReply, SearchReply, SummaryEntry,
};

fn finished(success: bool, stdout: &str, stderr: &str) -> Completion {
    Completion::Finished(CommandOutput {
        success,
        code: Some(if success { 0 } else { 1 }),
        stdout: stdout.to_string(),
        stderr: stderr.to_string(),
    })
}

fn some(s: &str) -> Option<String> {
    Some(s.to_string())
}

fn reply() -> SearchReply {
    SearchReply {
        success: Some(true),
        error: None,
        search_queries: Some(vec![some("first"), None, some("third")]),
        summaries: Some(vec![
            SummaryEntry { query: some("first"), summary: some("one") },
            SummaryEntry { query: None, summary: some("lost") },
            SummaryEntry { query: some("third"), summary: some("three") },
        ]),
        sources: Some(vec![some("https://a.test"), some("https://b.test")]),
    }
}

#[test]
fn results_are_laid_out_with_the_numbers_of_the_answer() {
    assert_eq!(
        format_search_results_from_python(&reply(), "my query"),
        Ok("📌 **User Query:** my query\n\n🔍 **Generated Search Queries:**\n1. first\n3. third\n\n🔎 **Query 1:** first\n📄 **Summary:** one\n\n🔎 **Query 3:** third\n📄 **Summary:** three\n\n📚 **Sources:**\n1. https://a.test\n2. https://b.test\n".to_string())
    );
}

#[test]
fn absent_parts_are_left_out() {
    let empty = SearchReply { success: None, error: None, search_queries: None, summaries: None, sources: None };
    assert_eq!(format_search_results_from_python(&empty, "q"), Ok("📌 **User Query:** q\n\n".to_string()));
    let lists = SearchReply {
        success: None,
        error: None,
        search_queries: Some(vec![]),
        summaries: Some(vec![]),
        sources: Some(vec![]),
    };
    assert_eq!(
        format_search_results_from_python(&lists, ""),
        Ok("📌 **User Query:** \n\n🔍 **Generated Search Queries:**\n\n".to_string())
    );
    let sources = SearchReply {
        success: None,
        error: None,
        search_queries: None,
        summaries: None,
        sources: Some(vec![None, None, None, None, None, None, None, None, None, some("tenth")]),
    };
    assert_eq!(
        format_search_results_from_python(&sources, "q"),
        Ok("📌 **User Query:** q\n\n📚 **Sources:**\n10. tenth\n".to_string())
    );
}

#[test]
fn search_verdicts() {
    let ok = finished(true, "{...}", "");
    assert!(read_search(&ok, Some(&reply()), "q").unwrap().starts_with("📌 **User Query:** q\n\n"));
    assert_eq!(read_search(&ok, None, "q"), Err("Failed to parse Python search response".to_string()));
    let mut failed = reply();
    failed.success = Some(false);
    failed.error = some("no instance answered");
    assert_eq!(
        read_search(&ok, Some(&failed), "q"),
        Err("Python search failed: no instance answered".to_string())
    );
    failed.success = None;
    failed.error = None;
    assert_eq!(
        read_search(&ok, Some(&failed), "q"),
        Err("Python search failed: Unknown error from Python script".to_string())
    );
    assert_eq!(
        read_search(&finished(false, "", "Traceback"), Some(&reply()), "q"),
        Err("Python script execution failed: Traceback".to_string())
    );
    assert_eq!(
        read_search(&Completion::NotStarted("python3: not found".to_string()), None, "q"),
        Err("Failed to execute Python search script: python3: not found".to_string())
    );
}

#[test]
fn search_commands() {
    let c = make_search_command("tools/web-search/main.py", "what is verus", false, "/p");
    assert_eq!(c.program, "python3");
    assert_eq!(c.args, vec!["tools/web-search/main.py", "--query", "what is verus", "--json"]);
    let c = make_search_command("main.py", "q", true, "/p");
    assert_eq!(c.args, vec!["main.py", "--query", "q", "--json", "--thinking"]);
    assert_eq!(make_context_body("a \"b\""), "{\"query\":\"a \\\"b\\\"\"}");
    let c = make_context_command("/p", None, "{}");
    assert_eq!(c.args.last().unwrap(), "http://localhost:3000/process");
    assert_eq!(c.args[c.args.len() - 2], "{}");
    assert_eq!(c.args[..5], ["-s", "--connect-timeout", "10", "--max-time", "20"]);
    let c = make_context_command("/p", Some("https://search.test"), "{}");
    assert_eq!(c.args.last().unwrap(), "https://search.test/process");
}

#[test]
fn context_is_gathered_from_whole_pages() {
    let items = vec![
        ContextItem { url: some("https://a.test"), content: some("alpha") },
        ContextItem { url: None, content: some("lost") },
        ContextItem { url: some("https://c.test"), content: None },
        ContextItem { url: some("https://d.test"), content: some("delta") },
    ];
    let (sources, context) = gather_context(&items);
    assert_eq!(sources, vec!["https://a.test", "https://d.test"]);
    assert_eq!(context, "https://a.test\nalpha\n\nhttps://d.test\ndelta");
    let (sources, context) = gather_context(&Vec::new());
    assert!(sources.is_empty());
    assert_eq!(context, "");
    let partial = vec![
        ContextItem { url: None, content: some("lost") },
        ContextItem { url: some("https://c.test"), content: None },
    ];
    let (sources, context) = gather_context(&partial);
    assert!(sources.is_empty());
    assert_eq!(context, "");
}

#[test]
fn the_script_is_the_first_place_that_exists() {
    let places = get_script_places(PlatformId::Linux, "/work/app");
    assert_eq!(
        places,
        vec![
            "/work/app/tools/web-search/main.py",
            "./tools/web-search/main.py",
            "../tools/web-search/main.py",
            "../../tools/web-search/main.py",
            "./ollama-web-search/main.py",
            "../ollama-web-search/main.py",
            "../../ollama-web-search/main.py",
        ]
    );
    assert_eq!(get_script_places(PlatformId::Windows, "C:\\work\\")[0], "C:\\work\\tools\\web-search\\main.py");
    assert_eq!(get_script_places(PlatformId::Windows, "C:\\work")[0], "C:\\work\\tools\\web-search\\main.py");
    assert_eq!(get_script_places(PlatformId::Linux, "")[0], "tools/web-search/main.py");
    assert_eq!(get_script_places(PlatformId::Linux, "/")[0], "/tools/web-search/main.py");
    assert_eq!(
        get_python_script_path(&places, &[true, true, false, false, false, false, false]),
        "/work/app/tools/web-search/main.py"
    );
    assert_eq!(
        get_python_script_path(&places, &[false, false, false, false, true, true, false]),
        "./ollama-web-search/main.py"
    );
    assert_eq!(get_python_script_path(&places, &[false; 7]), "tools/web-search/main.py");
    assert_eq!(get_python_script_path(&places, &[]), "tools/web-search/main.py");
}

#[test]
fn pages_are_read_from_answers_that_report_success() {
    let pages = || {
        Some(vec![
            ContextItem { url: some("https://a.test"), content: some("alpha") },
            ContextItem { url: some("https://b.test"), content: None },
        ])
    };
    let ok = finished(true, "{...}", "");
    let good = ContextReply { success: Some(true), data: pages() };
    assert_eq!(
        read_context(&ok, Some(&good)),
        (vec!["https://a.test".to_string()], "https://a.test\nalpha".to_string())
    );
    let nothing = (Vec::<String>::new(), String::new());
    assert_eq!(read_context(&finished(false, "", "e"), Some(&good)), nothing);
    assert_eq!(read_context(&Completion::NotStarted("e".to_string()), Some(&good)), nothing);
    assert_eq!(read_context(&ok, None), nothing);
    assert_eq!(read_context(&ok, Some(&ContextReply { success: Some(false), data: pages() })), nothing);
    assert_eq!(read_context(&ok, Some(&ContextReply { success: None, data: pages() })), nothing);
    assert_eq!(read_context(&ok, Some(&ContextReply { success: Some(true), data: None })), nothing);
    assert_eq!(make_context_body_around("\"q\""), "{\"query\":\"q\"}");
}
