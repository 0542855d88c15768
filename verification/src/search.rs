//! The web search that can precede a question to a model.
//!
//! The search itself is done by a script outside this program. What is
//! decided here is how the script is called, how its answer is laid out for
//! the user, and, for the older way of searching through the engine
//! itself, which prompts are sent and what is read from the replies.

use vstd::prelude::*;
use vstd::string::StringExecFns;
use crate::command::{
    make_tool_env, plain_command, push_arg, tool_env, CommandLine, CommandLineView, Completion,
    CompletionView,
};
use crate::decimal::decimal;
use crate::errors::append_number;
use crate::json::{json_nested_text, json_string_text, read_nested_text, write_json_string};
use crate::pattern::{capture_first_groups, first_group_matches, groups_view, matches_view};
use crate::port::{api_url, get_ollama_api_url, PortConfig};
use crate::words::{optional_text, text_result_view, texts};

verus! {

/// The pattern of a phrase between quotation marks; its first group is the
/// phrase.
pub open spec fn quoted_pattern() -> Seq<char> {
    "\"([^\"]+)\""@
}

/// The groups that took part in their match, in their order.
pub open spec fn present_groups(groups: Seq<Option<Seq<char>>>) -> Seq<Seq<char>> {
    groups.filter_map(|group: Option<Seq<char>>| group)
}

/// The search queries that are used, given the phrases that a model
/// proposed: the first three of them, or, where it proposed fewer than
/// three, the user's own query alone.
pub open spec fn chosen_queries(proposed: Seq<Seq<char>>, query: Seq<char>) -> Seq<Seq<char>> {
    if proposed.len() >= 3 {
        proposed.take(3)
    } else {
        seq![query]
    }
}

/// The search queries that are used, given the phrases that a model
/// proposed.
pub fn choose_search_queries(proposed: Vec<String>, query: &str) -> (r: Vec<String>)
    ensures
        texts(r@) == chosen_queries(texts(proposed@), query@),
{
    let mut r: Vec<String> = Vec::new();
    if proposed.len() >= 3 {
        let mut i: usize = 0;
        while i < 3
            invariant
                i <= 3 <= proposed.len(),
                texts(r@) == texts(proposed@).take(i as int),
            decreases 3 - i,
        {
            let ghost so_far = texts(r@);
            let item = proposed[i].clone();
            r.push(item);
            assert(texts(r@) =~= so_far.push(item@));
            assert(so_far.push(item@) =~= texts(proposed@).take(i + 1));
            i += 1;
        }
    } else {
        r.push(query.to_string());
        assert(texts(r@) =~= seq![query@]);
    }
    r
}

/// The phrases that a pattern's matches hold in their first group: the
/// groups that took part in their match, in their order; none where the
/// pattern was refused.
pub open spec fn found_phrases(found: Option<Seq<Option<Seq<char>>>>) -> Seq<Seq<char>> {
    match found {
        Some(groups) => present_groups(groups),
        None => Seq::empty(),
    }
}

/// The phrases between quotation marks in a model's reply, as the pattern
/// finds them.
pub open spec fn quoted_phrases(content: Seq<char>) -> Seq<Seq<char>> {
    found_phrases(first_group_matches(quoted_pattern(), content))
}

/// The phrases that a pattern's matches hold in their first group.
pub fn present_phrases(found: Option<Vec<Option<String>>>) -> (r: Vec<String>)
    ensures
        texts(r@) == found_phrases(matches_view(found)),
{
    let mut r: Vec<String> = Vec::new();
    match found {
        None => {
            assert(texts(r@) =~= Seq::<Seq<char>>::empty());
        },
        Some(groups) => {
            let ghost all = groups_view(groups@);
            let ghost pick = |group: Option<Seq<char>>| group;
            let mut i: usize = 0;
            assert(all.take(0).filter_map(pick) =~= texts(r@));
            while i < groups.len()
                invariant
                    i <= groups.len(),
                    all == groups_view(groups@),
                    pick == |group: Option<Seq<char>>| group,
                    texts(r@) == all.take(i as int).filter_map(pick),
                decreases groups.len() - i,
            {
                let ghost so_far = texts(r@);
                proof {
                    all.lemma_filter_map_take_succ(pick, i as int);
                }
                match &groups[i] {
                    Some(phrase) => {
                        let item = phrase.clone();
                        r.push(item);
                        assert(texts(r@) =~= so_far + seq![item@]);
                    },
                    None => {},
                }
                i += 1;
            }
            assert(all.take(groups.len() as int) == all);
        },
    }
    r
}

/// The phrases between quotation marks in a model's reply.
pub fn find_quoted_phrases(content: &str) -> (r: Vec<String>)
    ensures
        texts(r@) == quoted_phrases(content@),
{
    present_phrases(capture_first_groups("\"([^\"]+)\"", content))
}

/// The search queries for a user's query, read from a model's reply to
/// the request for three queries.
pub fn search_queries_from_reply(content: &str, query: &str) -> (r: Vec<String>)
    ensures
        texts(r@) == chosen_queries(quoted_phrases(content@), query@),
{
    choose_search_queries(find_quoted_phrases(content), query)
}

/// What opens a prompt that the model is to answer without thinking
/// aloud.
pub open spec fn thinking_prefix(thinking: bool) -> Seq<char> {
    if thinking {
        Seq::empty()
    } else {
        "/nothinking "@
    }
}

/// The prompt that asks a model for three search queries.
pub open spec fn query_prompt(query: Seq<char>, thinking: bool) -> Seq<char> {
    thinking_prefix(thinking)
        + "Based on the following user query, generate three Google search queries that would help understand the query better. Provide each query enclosed in double quotes.\n\nUser query: "@
        + query
}

/// The prompt that asks a model to sum up what a search found.
pub open spec fn summary_prompt(context: Seq<char>, thinking: bool) -> Seq<char> {
    thinking_prefix(thinking) + "Summarize the following search results:\n\n"@ + context
}

fn prompt_start(thinking: bool) -> (r: String)
    ensures
        r@ == thinking_prefix(thinking),
{
    if thinking {
        String::new()
    } else {
        "/nothinking ".to_string()
    }
}

pub fn make_query_prompt(query: &str, thinking: bool) -> (r: String)
    ensures
        r@ == query_prompt(query@, thinking),
{
    let mut prompt = prompt_start(thinking);
    prompt.append(
        "Based on the following user query, generate three Google search queries that would help understand the query better. Provide each query enclosed in double quotes.\n\nUser query: ",
    );
    prompt.append(query);
    prompt
}

pub fn make_summary_prompt(context: &str, thinking: bool) -> (r: String)
    ensures
        r@ == summary_prompt(context@, thinking),
{
    let mut prompt = prompt_start(thinking);
    prompt.append("Summarize the following search results:\n\n");
    prompt.append(context);
    prompt
}

/// The body of a chat request around a prompt that is written as a JSON
/// string already: the prompt is put to the model `llama2`, and one whole
/// reply is asked for.
pub open spec fn chat_body_around(written: Seq<char>) -> Seq<char> {
    "{\"messages\":[{\"content\":"@ + written
        + ",\"role\":\"user\"}],\"model\":\"llama2\",\"stream\":false}"@
}

/// The body of a chat request that puts `prompt` to the model `llama2`.
pub open spec fn chat_body(prompt: Seq<char>) -> Seq<char> {
    chat_body_around(json_string_text(prompt))
}

/// The body of a chat request around a prompt that is written as a JSON
/// string already.
pub fn make_chat_body_around(written: &str) -> (r: String)
    ensures
        r@ == chat_body_around(written@),
{
    let mut body = "{\"messages\":[{\"content\":".to_string();
    body.append(written);
    body.append(",\"role\":\"user\"}],\"model\":\"llama2\",\"stream\":false}");
    body
}

/// The body of a chat request that puts `prompt` to the model `llama2`.
pub fn make_chat_body(prompt: &str) -> (r: String)
    ensures
        r@ == chat_body(prompt@),
{
    make_chat_body_around(write_json_string(prompt).as_str())
}

/// The command that sends a chat request to the engine, silent and bounded
/// in time.
pub open spec fn chat_command(
    search_path: Seq<char>,
    port: u16,
    connect_s: u32,
    total_s: u32,
    body: Seq<char>,
) -> CommandLineView {
    plain_command(
        "curl"@,
        seq![
            "-s"@,
            "--connect-timeout"@,
            decimal(connect_s as nat),
            "--max-time"@,
            decimal(total_s as nat),
            "-H"@,
            "Content-Type: application/json"@,
            "-X"@,
            "POST"@,
            "-d"@,
            body,
            api_url(port, "chat"@),
        ],
        tool_env(search_path),
    )
}

pub fn make_chat_command(
    search_path: &str,
    config: &PortConfig,
    connect_s: u32,
    total_s: u32,
    body: &str,
) -> (r: CommandLine)
    ensures
        r@ == chat_command(search_path@, config@, connect_s, total_s, body@),
{
    let mut connect = String::new();
    append_number(&mut connect, connect_s as u64);
    let mut total = String::new();
    append_number(&mut total, total_s as u64);
    let mut args: Vec<String> = Vec::new();
    push_arg(&mut args, "-s");
    push_arg(&mut args, "--connect-timeout");
    push_arg(&mut args, connect.as_str());
    push_arg(&mut args, "--max-time");
    push_arg(&mut args, total.as_str());
    push_arg(&mut args, "-H");
    push_arg(&mut args, "Content-Type: application/json");
    push_arg(&mut args, "-X");
    push_arg(&mut args, "POST");
    push_arg(&mut args, "-d");
    push_arg(&mut args, body);
    push_arg(&mut args, get_ollama_api_url(config, "chat").as_str());
    assert(texts(args@) =~= chat_command(search_path@, config@, connect_s, total_s, body@).args);
    CommandLine {
        program: "curl".to_string(),
        args,
        env: make_tool_env(search_path),
        quiet: false,
        no_window: false,
    }
}

/// What a model's reply to a chat request says: the text under `message`
/// and `content` of the answer, where the request succeeded and the answer
/// holds one.
pub open spec fn reply_content(completion: CompletionView) -> Option<Seq<char>> {
    match completion {
        CompletionView::Finished(output) => if output.success {
            json_nested_text(output.stdout, "message"@, "content"@)
        } else {
            None
        },
        CompletionView::NotStarted(_) => None,
    }
}

pub fn read_reply_content(completion: &Completion) -> (r: Option<String>)
    ensures
        optional_text(r) == reply_content(completion@),
{
    match completion {
        Completion::Finished(output) => {
            if output.success {
                read_nested_text(output.stdout.as_str(), "message", "content")
            } else {
                None
            }
        },
        Completion::NotStarted(_) => None,
    }
}

/// The search queries for a user's query, after a model was asked for
/// three: those that its reply proposes, or the user's own query where the
/// request failed or the reply proposes fewer than three.
pub open spec fn generated_queries(completion: CompletionView, query: Seq<char>) -> Seq<Seq<char>> {
    match reply_content(completion) {
        Some(content) => chosen_queries(quoted_phrases(content), query),
        None => seq![query],
    }
}

pub fn read_generated_queries(completion: &Completion, query: &str) -> (r: Vec<String>)
    ensures
        texts(r@) == generated_queries(completion@, query@),
{
    match read_reply_content(completion) {
        Some(content) => search_queries_from_reply(content.as_str(), query),
        None => {
            let mut r: Vec<String> = Vec::new();
            r.push(query.to_string());
            assert(texts(r@) =~= seq![query@]);
            r
        },
    }
}

/// The summary that a model gave, or that it gave none.
pub open spec fn summary_verdict(completion: CompletionView) -> Result<Seq<char>, Seq<char>> {
    match reply_content(completion) {
        Some(content) => Ok(content),
        None => Err("Failed to summarize search results"@),
    }
}

pub fn read_summary(completion: &Completion) -> (r: Result<String, String>)
    ensures
        text_result_view(r) == summary_verdict(completion@),
{
    match read_reply_content(completion) {
        Some(content) => Ok(content),
        None => Err("Failed to summarize search results".to_string()),
    }
}

} // verus!
