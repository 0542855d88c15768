use ollama_supervisor::command::{CommandOutput, Completion};
use ollama_supervisor::port::PortConfig;
use ollama_supervisor::search::{
    choose_search_queries, find_quoted_phrases, make_chat_body, make_chat_body_around,
    make_chat_command, present_phrases,
    make_query_prompt, make_summary_prompt, read_generated_queries, read_reply_content,
    read_summary, search_queries_from_reply,
};

fn finished(success: bool, stdout: &str) -> Completion {
    Completion::Finished(CommandOutput {
        success,
        code: Some(if success { 0 } else { 1 }),
        stdout: stdout.to_string(),
        stderr: String::new(),
    })
}

fn strings(v: &[&str]) -> Vec<String> {
    v.iter().map(|s| s.to_string()).collect()
}

#[test]
fn quoted_phrases_are_found_from_the_left() {
    assert_eq!(
        find_quoted_phrases("1. \"rust verification\" 2. \"verus tutorial\", and \"smt solvers\"."),
        strings(&["rust verification", "verus tutorial", "smt solvers"])
    );
    assert_eq!(find_quoted_phrases("none here"), Vec::<String>::new());
    assert_eq!(find_quoted_phrases("\"\" empty \"x\""), strings(&[" empty "]));
    assert_eq!(find_quoted_phrases("\"open"), Vec::<String>::new());
    assert_eq!(find_quoted_phrases("\"a\"\"b\""), strings(&["a", "b"]));
    assert_eq!(find_quoted_phrases("\"two\nlines\""), strings(&["two\nlines"]));
}

#[test]
fn three_proposals_are_used_and_fewer_are_not() {
    assert_eq!(
        search_queries_from_reply("\"a\" \"b\" \"c\" \"d\"", "user query"),
        strings(&["a", "b", "c"])
    );
    assert_eq!(search_queries_from_reply("\"a\" \"b\" \"c\"", "user query"), strings(&["a", "b", "c"]));
    assert_eq!(search_queries_from_reply("\"a\" \"b\"", "user query"), strings(&["user query"]));
    assert_eq!(search_queries_from_reply("", "user query"), strings(&["user query"]));
    assert_eq!(choose_search_queries(strings(&["x", "y", "z", "w"]), "q"), strings(&["x", "y", "z"]));
    assert_eq!(choose_search_queries(strings(&["x", "y"]), "q"), strings(&["q"]));
    assert_eq!(choose_search_queries(Vec::new(), ""), strings(&[""]));
}

#[test]
fn prompts() {
    assert_eq!(
        make_query_prompt("what is verus", false),
        "/nothinking Based on the following user query, generate three Google search queries that would help understand the query better. Provide each query enclosed in double quotes.\n\nUser query: what is verus"
    );
    assert_eq!(
        make_query_prompt("what is verus", true),
        "Based on the following user query, generate three Google search queries that would help understand the query better. Provide each query enclosed in double quotes.\n\nUser query: what is verus"
    );
    assert_eq!(
        make_summary_prompt("found", false),
        "/nothinking Summarize the following search results:\n\nfound"
    );
    assert_eq!(make_summary_prompt("found", true), "Summarize the following search results:\n\nfound");
}

#[test]
fn chat_bodies_are_json() {
    let body = make_chat_body("say \"hi\"\nplease \\ é");
    assert_eq!(
        body,
        "{\"messages\":[{\"content\":\"say \\\"hi\\\"\\nplease \\\\ é\",\"role\":\"user\"}],\"model\":\"llama2\",\"stream\":false}"
    );
    assert_eq!(
        make_chat_body(""),
        "{\"messages\":[{\"content\":\"\",\"role\":\"user\"}],\"model\":\"llama2\",\"stream\":false}"
    );
    let read = read_reply_content(&finished(
        true,
        &format!("{{\"message\":{{\"role\":\"assistant\",\"content\":{}}}}}", &body_string("a \"b\"\n")),
    ));
    assert_eq!(read, Some("a \"b\"\n".to_string()));
}

fn body_string(text: &str) -> String {
    let body = make_chat_body(text);
    let start = "{\"messages\":[{\"content\":".len();
    let end = body.len() - ",\"role\":\"user\"}],\"model\":\"llama2\",\"stream\":false}".len();
    body[start..end].to_string()
}

#[test]
fn chat_command_reads_the_port() {
    let mut config = PortConfig::new();
    config.set_port(11500).unwrap();
    let c = make_chat_command("/p", &config, 10, 30, "{}");
    assert_eq!(c.program, "curl");
    assert_eq!(
        c.args,
        vec![
            "-s", "--connect-timeout", "10", "--max-time", "30", "-H",
            "Content-Type: application/json", "-X", "POST", "-d", "{}",
            "http://localhost:11500/api/chat",
        ]
    );
}

#[test]
fn replies_are_read_under_message_and_content() {
    assert_eq!(
        read_reply_content(&finished(true, "{\"message\":{\"content\":\"hello\"}}")),
        Some("hello".to_string())
    );
    assert_eq!(read_reply_content(&finished(false, "{\"message\":{\"content\":\"hello\"}}")), None);
    assert_eq!(read_reply_content(&finished(true, "{\"message\":{\"content\":7}}")), None);
    assert_eq!(read_reply_content(&finished(true, "{\"message\":\"hello\"}")), None);
    assert_eq!(read_reply_content(&finished(true, "{\"content\":\"hello\"}")), None);
    assert_eq!(read_reply_content(&finished(true, "not json")), None);
    assert_eq!(read_reply_content(&Completion::NotStarted("e".to_string())), None);
}

#[test]
fn generated_queries_fall_back_to_the_users_query() {
    let reply = "{\"message\":{\"content\":\"Try \\\"a b\\\", \\\"c\\\" and \\\"d e f\\\".\"}}";
    assert_eq!(read_generated_queries(&finished(true, reply), "q"), strings(&["a b", "c", "d e f"]));
    assert_eq!(read_generated_queries(&finished(false, reply), "q"), strings(&["q"]));
    assert_eq!(
        read_generated_queries(&finished(true, "{\"message\":{\"content\":\"\\\"only one\\\"\"}}"), "q"),
        strings(&["q"])
    );
    assert_eq!(read_generated_queries(&Completion::NotStarted("e".to_string()), "q"), strings(&["q"]));
}

#[test]
fn summaries() {
    assert_eq!(
        read_summary(&finished(true, "{\"message\":{\"content\":\"short\"}}")),
        Ok("short".to_string())
    );
    assert_eq!(
        read_summary(&finished(true, "{}")),
        Err("Failed to summarize search results".to_string())
    );
    assert_eq!(
        read_summary(&Completion::NotStarted("e".to_string())),
        Err("Failed to summarize search results".to_string())
    );
}

#[test]
fn what_follows_the_outside_calls() {
    assert_eq!(
        present_phrases(Some(vec![Some("a".to_string()), None, Some("b".to_string())])),
        strings(&["a", "b"])
    );
    assert_eq!(present_phrases(Some(Vec::new())), Vec::<String>::new());
    assert_eq!(present_phrases(None), Vec::<String>::new());
    assert_eq!(
        make_chat_body_around("\"hi\""),
        "{\"messages\":[{\"content\":\"hi\",\"role\":\"user\"}],\"model\":\"llama2\",\"stream\":false}"
    );
}
