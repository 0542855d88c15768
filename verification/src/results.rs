//! What the search script and the search service answer, and how it is
//! shown.
//!
//! Both answer in JSON. The answers are held here as plain values: each
//! field is present or absent as it was in the answer, and an entry of a
//! list that was no text is kept as an absent entry, so that the
//! numbering of the entries stays that of the answer.

use vstd::prelude::*;
use vstd::string::StringExecFns;
use crate::command::{
    make_tool_env, plain_command, push_arg, tool_env, CommandLine, CommandLineView, Completion,
    CompletionView,
};
use crate::decimal::decimal;
use crate::errors::append_number;
use crate::json::{json_string_text, write_json_string};
use crate::pattern::groups_view;
use crate::platform::PlatformId;
use crate::text::{chars_of, ends_with, ends_with_in};
use crate::words::{optional_text, text_result_view, texts};

verus! {

/// One summary of the search script's answer.
#[derive(Debug)]
pub struct SummaryEntry {
    pub query: Option<String>,
    pub summary: Option<String>,
}

pub struct SummaryEntryView {
    pub query: Option<Seq<char>>,
    pub summary: Option<Seq<char>>,
}

impl View for SummaryEntry {
    type V = SummaryEntryView;

    open spec fn view(&self) -> SummaryEntryView {
        SummaryEntryView { query: optional_text(self.query), summary: optional_text(self.summary) }
    }
}

pub open spec fn summaries_view(v: Seq<SummaryEntry>) -> Seq<SummaryEntryView> {
    Seq::new(v.len(), |i: int| v[i]@)
}

/// The search script's answer.
#[derive(Debug)]
pub struct SearchReply {
    pub success: Option<bool>,
    pub error: Option<String>,
    pub search_queries: Option<Vec<Option<String>>>,
    pub summaries: Option<Vec<SummaryEntry>>,
    pub sources: Option<Vec<Option<String>>>,
}

pub struct SearchReplyView {
    pub success: Option<bool>,
    pub error: Option<Seq<char>>,
    pub search_queries: Option<Seq<Option<Seq<char>>>>,
    pub summaries: Option<Seq<SummaryEntryView>>,
    pub sources: Option<Seq<Option<Seq<char>>>>,
}

pub open spec fn optional_list(list: Option<Vec<Option<String>>>) -> Option<Seq<Option<Seq<char>>>> {
    match list {
        Some(items) => Some(groups_view(items@)),
        None => None,
    }
}

impl View for SearchReply {
    type V = SearchReplyView;

    open spec fn view(&self) -> SearchReplyView {
        SearchReplyView {
            success: self.success,
            error: optional_text(self.error),
            search_queries: optional_list(self.search_queries),
            summaries: match self.summaries {
                Some(entries) => Some(summaries_view(entries@)),
                None => None,
            },
            sources: optional_list(self.sources),
        }
    }
}

/// The entries as a numbered list, one line each. An entry bears the
/// number of its place in the list; an absent entry gets no line.
pub open spec fn numbered(items: Seq<Option<Seq<char>>>) -> Seq<char>
    decreases items.len(),
{
    if items.len() == 0 {
        Seq::empty()
    } else {
        numbered(items.drop_last()) + match items.last() {
            Some(text) => decimal(items.len()) + ". "@ + text + "\n"@,
            None => Seq::empty(),
        }
    }
}

/// The summaries, each under its query. An entry bears the number of its
/// place in the list; an entry that lacks its query or its summary is left
/// out.
pub open spec fn summaries_text(entries: Seq<SummaryEntryView>) -> Seq<char>
    decreases entries.len(),
{
    if entries.len() == 0 {
        Seq::empty()
    } else {
        summaries_text(entries.drop_last()) + match (entries.last().query, entries.last().summary) {
            (Some(query), Some(summary)) => "🔎 **Query "@ + decimal(entries.len()) + ":** "@
                + query + "\n📄 **Summary:** "@ + summary + "\n\n"@,
            _ => Seq::empty(),
        }
    }
}

/// The search script's answer as it is shown to the user.
pub open spec fn formatted_results(reply: SearchReplyView, query: Seq<char>) -> Seq<char> {
    "📌 **User Query:** "@ + query + "\n\n"@ + (match reply.search_queries {
        Some(queries) => "🔍 **Generated Search Queries:**\n"@ + numbered(queries) + "\n"@,
        None => Seq::empty(),
    }) + (match reply.summaries {
        Some(entries) => summaries_text(entries),
        None => Seq::empty(),
    }) + (match reply.sources {
        Some(sources) => if sources.len() > 0 {
            "📚 **Sources:**\n"@ + numbered(sources)
        } else {
            Seq::empty()
        },
        None => Seq::empty(),
    })
}

fn append_numbered(out: &mut String, items: &Vec<Option<String>>)
    ensures
        final(out)@ == old(out)@ + numbered(groups_view(items@)),
{
    let mut i: usize = 0;
    assert(old(out)@ + numbered(groups_view(items@).take(0)) =~= old(out)@);
    while i < items.len()
        invariant
            i <= items.len(),
            out@ == old(out)@ + numbered(groups_view(items@).take(i as int)),
        decreases items.len() - i,
    {
        let ghost next = groups_view(items@).take(i + 1);
        assert(next.drop_last() == groups_view(items@).take(i as int));
        let ghost before = out@;
        match &items[i] {
            Some(text) => {
                append_number(out, (i + 1) as u64);
                out.append(". ");
                out.append(text.as_str());
                out.append("\n");
                assert(out@ =~= before + (decimal(next.len()) + ". "@ + text@ + "\n"@));
            },
            None => {
                assert(out@ =~= before + Seq::<char>::empty());
            },
        }
        assert(out@ =~= old(out)@ + numbered(next));
        i += 1;
    }
    assert(groups_view(items@).take(items.len() as int) == groups_view(items@));
}

fn append_summaries(out: &mut String, entries: &Vec<SummaryEntry>)
    ensures
        final(out)@ == old(out)@ + summaries_text(summaries_view(entries@)),
{
    let mut i: usize = 0;
    assert(old(out)@ + summaries_text(summaries_view(entries@).take(0)) =~= old(out)@);
    while i < entries.len()
        invariant
            i <= entries.len(),
            out@ == old(out)@ + summaries_text(summaries_view(entries@).take(i as int)),
        decreases entries.len() - i,
    {
        let ghost next = summaries_view(entries@).take(i + 1);
        assert(next.drop_last() == summaries_view(entries@).take(i as int));
        assert(next.last() == entries@[i as int]@);
        let ghost before = out@;
        match (&entries[i].query, &entries[i].summary) {
            (Some(query), Some(summary)) => {
                out.append("🔎 **Query ");
                append_number(out, (i + 1) as u64);
                out.append(":** ");
                out.append(query.as_str());
                out.append("\n📄 **Summary:** ");
                out.append(summary.as_str());
                out.append("\n\n");
                assert(out@ =~= before + ("🔎 **Query "@ + decimal(next.len()) + ":** "@ + query@
                    + "\n📄 **Summary:** "@ + summary@ + "\n\n"@));
            },
            _ => {
                assert(out@ =~= before + Seq::<char>::empty());
            },
        }
        assert(out@ =~= old(out)@ + summaries_text(next));
        i += 1;
    }
    assert(summaries_view(entries@).take(entries.len() as int) == summaries_view(entries@));
}

/// Lays out the search script's answer for the user.
pub fn format_search_results_from_python(reply: &SearchReply, query: &str) -> (r: Result<String, String>)
    ensures
        r is Ok,
        r->Ok_0@ == formatted_results(reply@, query@),
{
    let mut out = "📌 **User Query:** ".to_string();
    out.append(query);
    out.append("\n\n");
    let ghost head = out@;
    match &reply.search_queries {
        Some(queries) => {
            out.append("🔍 **Generated Search Queries:**\n");
            append_numbered(&mut out, queries);
            out.append("\n");
            assert(out@ =~= head + ("🔍 **Generated Search Queries:**\n"@ + numbered(
                groups_view(queries@),
            ) + "\n"@));
        },
        None => {
            assert(out@ =~= head + Seq::<char>::empty());
        },
    }
    let ghost second = out@;
    match &reply.summaries {
        Some(entries) => {
            append_summaries(&mut out, entries);
        },
        None => {
            assert(out@ =~= second + Seq::<char>::empty());
        },
    }
    let ghost third = out@;
    match &reply.sources {
        Some(sources) => {
            if sources.len() > 0 {
                out.append("📚 **Sources:**\n");
                append_numbered(&mut out, sources);
                assert(out@ =~= third + ("📚 **Sources:**\n"@ + numbered(groups_view(sources@))));
            } else {
                assert(groups_view(sources@).len() == 0);
                assert(out@ =~= third + Seq::<char>::empty());
            }
        },
        None => {
            assert(out@ =~= third + Seq::<char>::empty());
        },
    }
    Ok(out)
}

/// The command that runs the search script for `query`.
pub open spec fn search_command(
    script: Seq<char>,
    query: Seq<char>,
    thinking: bool,
    search_path: Seq<char>,
) -> CommandLineView {
    plain_command(
        "python3"@,
        if thinking {
            seq![script, "--query"@, query, "--json"@, "--thinking"@]
        } else {
            seq![script, "--query"@, query, "--json"@]
        },
        tool_env(search_path),
    )
}

pub fn make_search_command(script: &str, query: &str, thinking: bool, search_path: &str) -> (r:
    CommandLine)
    ensures
        r@ == search_command(script@, query@, thinking, search_path@),
{
    let mut args: Vec<String> = Vec::new();
    push_arg(&mut args, script);
    push_arg(&mut args, "--query");
    push_arg(&mut args, query);
    push_arg(&mut args, "--json");
    if thinking {
        push_arg(&mut args, "--thinking");
    }
    assert(texts(args@) =~= search_command(script@, query@, thinking, search_path@).args);
    CommandLine {
        program: "python3".to_string(),
        args,
        env: make_tool_env(search_path),
        quiet: false,
        no_window: false,
    }
}

/// What a run of the search script gives. `reply` is the script's output
/// read as JSON, `None` where it is none.
pub open spec fn search_verdict(
    completion: CompletionView,
    reply: Option<SearchReplyView>,
    query: Seq<char>,
) -> Result<Seq<char>, Seq<char>> {
    match completion {
        CompletionView::Finished(output) => if !output.success {
            Err("Python script execution failed: "@ + output.stderr)
        } else {
            match reply {
                None => Err("Failed to parse Python search response"@),
                Some(answer) => if answer.success == Some(true) {
                    Ok(formatted_results(answer, query))
                } else {
                    Err(
                        "Python search failed: "@ + match answer.error {
                            Some(error) => error,
                            None => "Unknown error from Python script"@,
                        },
                    )
                },
            }
        },
        CompletionView::NotStarted(error) => Err("Failed to execute Python search script: "@ + error),
    }
}

fn labelled_error(label: &str, text: &str) -> (r: Result<String, String>)
    ensures
        r is Err,
        r->Err_0@ == label@ + text@,
{
    let mut message = label.to_string();
    message.append(text);
    Err(message)
}

/// Reads a run of the search script.
pub fn read_search(completion: &Completion, reply: Option<&SearchReply>, query: &str) -> (r: Result<
    String,
    String,
>)
    ensures
        text_result_view(r) == search_verdict(
            completion@,
            match reply {
                Some(answer) => Some(answer@),
                None => None,
            },
            query@,
        ),
{
    match completion {
        Completion::Finished(output) => {
            if !output.success {
                labelled_error("Python script execution failed: ", output.stderr.as_str())
            } else {
                match reply {
                    None => Err("Failed to parse Python search response".to_string()),
                    Some(answer) => {
                        let succeeded = match answer.success {
                            Some(flag) => flag,
                            None => false,
                        };
                        if succeeded {
                            format_search_results_from_python(answer, query)
                        } else {
                            match &answer.error {
                                Some(error) => labelled_error("Python search failed: ", error.as_str()),
                                None => labelled_error(
                                    "Python search failed: ",
                                    "Unknown error from Python script",
                                ),
                            }
                        }
                    },
                }
            }
        },
        Completion::NotStarted(error) => labelled_error(
            "Failed to execute Python search script: ",
            error.as_str(),
        ),
    }
}

/// One page of the search service's answer.
#[derive(Debug)]
pub struct ContextItem {
    pub url: Option<String>,
    pub content: Option<String>,
}

pub struct ContextItemView {
    pub url: Option<Seq<char>>,
    pub content: Option<Seq<char>>,
}

impl View for ContextItem {
    type V = ContextItemView;

    open spec fn view(&self) -> ContextItemView {
        ContextItemView { url: optional_text(self.url), content: optional_text(self.content) }
    }
}

pub open spec fn items_view(v: Seq<ContextItem>) -> Seq<ContextItemView> {
    Seq::new(v.len(), |i: int| v[i]@)
}

/// The addresses of the pages that have both an address and a content, in
/// their order.
pub open spec fn context_sources(items: Seq<ContextItemView>) -> Seq<Seq<char>>
    decreases items.len(),
{
    if items.len() == 0 {
        Seq::empty()
    } else {
        match (items.last().url, items.last().content) {
            (Some(url), Some(_)) => context_sources(items.drop_last()).push(url),
            _ => context_sources(items.drop_last()),
        }
    }
}

/// The pages that have both an address and a content, each as its address
/// and below it its content, with an empty line between two pages.
pub open spec fn context_text(items: Seq<ContextItemView>) -> Seq<char>
    decreases items.len(),
{
    if items.len() == 0 {
        Seq::empty()
    } else {
        match (items.last().url, items.last().content) {
            (Some(url), Some(content)) => context_text(items.drop_last()) + (if context_sources(
                items.drop_last(),
            ).len() > 0 {
                "\n\n"@
            } else {
                Seq::empty()
            }) + url + "\n"@ + content,
            _ => context_text(items.drop_last()),
        }
    }
}

/// The sources and the context that the search service's pages give.
pub fn gather_context(items: &Vec<ContextItem>) -> (r: (Vec<String>, String))
    ensures
        texts(r.0@) == context_sources(items_view(items@)),
        r.1@ == context_text(items_view(items@)),
{
    let mut sources: Vec<String> = Vec::new();
    let mut context = String::new();
    let mut i: usize = 0;
    assert(texts(sources@) =~= context_sources(items_view(items@).take(0)));
    while i < items.len()
        invariant
            i <= items.len(),
            texts(sources@) == context_sources(items_view(items@).take(i as int)),
            context@ == context_text(items_view(items@).take(i as int)),
        decreases items.len() - i,
    {
        let ghost next = items_view(items@).take(i + 1);
        assert(next.drop_last() == items_view(items@).take(i as int));
        assert(next.last() == items@[i as int]@);
        let ghost old_sources = texts(sources@);
        let ghost old_context = context@;
        match (&items[i].url, &items[i].content) {
            (Some(url), Some(content)) => {
                if sources.len() > 0 {
                    context.append("\n\n");
                }
                context.append(url.as_str());
                context.append("\n");
                context.append(content.as_str());
                let source = url.clone();
                sources.push(source);
                assert(texts(sources@) =~= old_sources.push(url@));
                assert(context@ =~= old_context + (if old_sources.len() > 0 {
                    "\n\n"@
                } else {
                    Seq::empty()
                }) + url@ + "\n"@ + content@);
            },
            _ => {},
        }
        i += 1;
    }
    assert(items_view(items@).take(items.len() as int) == items_view(items@));
    (sources, context)
}

/// The search service's answer.
#[derive(Debug)]
pub struct ContextReply {
    pub success: Option<bool>,
    /// The pages, where the answer holds a list of them.
    pub data: Option<Vec<ContextItem>>,
}

pub struct ContextReplyView {
    pub success: Option<bool>,
    pub data: Option<Seq<ContextItemView>>,
}

impl View for ContextReply {
    type V = ContextReplyView;

    open spec fn view(&self) -> ContextReplyView {
        ContextReplyView {
            success: self.success,
            data: match self.data {
                Some(items) => Some(items_view(items@)),
                None => None,
            },
        }
    }
}

/// The pages that a request to the search service gave: those of its
/// answer, where the request succeeded and the answer reports success and
/// holds a list of pages; else none. `reply` is the request's output read
/// as JSON, `None` where it is none.
pub open spec fn context_pages(completion: CompletionView, reply: Option<ContextReplyView>) -> Seq<
    ContextItemView,
> {
    match completion {
        CompletionView::Finished(output) => if !output.success {
            Seq::empty()
        } else {
            match reply {
                Some(answer) => if answer.success == Some(true) {
                    match answer.data {
                        Some(items) => items,
                        None => Seq::empty(),
                    }
                } else {
                    Seq::empty()
                },
                None => Seq::empty(),
            }
        },
        CompletionView::NotStarted(_) => Seq::empty(),
    }
}

/// The sources and the context that a request to the search service gave;
/// both empty where it gave no pages.
pub fn read_context(completion: &Completion, reply: Option<&ContextReply>) -> (r: (Vec<String>, String))
    ensures
        texts(r.0@) == context_sources(
            context_pages(
                completion@,
                match reply {
                    Some(answer) => Some(answer@),
                    None => None,
                },
            ),
        ),
        r.1@ == context_text(
            context_pages(
                completion@,
                match reply {
                    Some(answer) => Some(answer@),
                    None => None,
                },
            ),
        ),
{
    let none: Vec<ContextItem> = Vec::new();
    assert(items_view(none@) =~= Seq::empty());
    let succeeded = match completion {
        Completion::Finished(output) => output.success,
        Completion::NotStarted(_) => false,
    };
    if !succeeded {
        return gather_context(&none);
    }
    match reply {
        Some(answer) => {
            let reported = match answer.success {
                Some(flag) => flag,
                None => false,
            };
            if !reported {
                return gather_context(&none);
            }
            match &answer.data {
                Some(items) => gather_context(items),
                None => gather_context(&none),
            }
        },
        None => gather_context(&none),
    }
}

/// The body of the request that puts a query to the search service, around
/// a query that is written as a JSON string already.
pub open spec fn context_body_around(written: Seq<char>) -> Seq<char> {
    "{\"query\":"@ + written + "}"@
}

/// The body of the request that puts `query` to the search service.
pub open spec fn context_body(query: Seq<char>) -> Seq<char> {
    context_body_around(json_string_text(query))
}

/// The body of the request around a query that is written as a JSON string
/// already.
pub fn make_context_body_around(written: &str) -> (r: String)
    ensures
        r@ == context_body_around(written@),
{
    let mut body = "{\"query\":".to_string();
    body.append(written);
    body.append("}");
    body
}

/// The body of the request that puts `query` to the search service.
pub fn make_context_body(query: &str) -> (r: String)
    ensures
        r@ == context_body(query@),
{
    make_context_body_around(write_json_string(query).as_str())
}

/// The address of the search service: the one that was configured, or the
/// local one.
pub open spec fn service_url(configured: Option<Seq<char>>) -> Seq<char> {
    match configured {
        Some(url) => url,
        None => "http://localhost:3000"@,
    }
}

/// The command that puts a query to the search service.
pub open spec fn context_command(
    search_path: Seq<char>,
    configured: Option<Seq<char>>,
    body: Seq<char>,
) -> CommandLineView {
    plain_command(
        "curl"@,
        seq![
            "-s"@,
            "--connect-timeout"@,
            "10"@,
            "--max-time"@,
            "20"@,
            "-H"@,
            "Content-Type: application/json"@,
            "-H"@,
            "User-Agent: BeautifyOllama/1.0"@,
            "-X"@,
            "POST"@,
            "-d"@,
            body,
            service_url(configured) + "/process"@,
        ],
        tool_env(search_path),
    )
}

pub fn make_context_command(search_path: &str, configured: Option<&str>, body: &str) -> (r:
    CommandLine)
    ensures
        r@ == context_command(
            search_path@,
            match configured {
                Some(url) => Some(url@),
                None => None,
            },
            body@,
        ),
{
    let mut url = match configured {
        Some(url) => url.to_string(),
        None => "http://localhost:3000".to_string(),
    };
    url.append("/process");
    let mut args: Vec<String> = Vec::new();
    push_arg(&mut args, "-s");
    push_arg(&mut args, "--connect-timeout");
    push_arg(&mut args, "10");
    push_arg(&mut args, "--max-time");
    push_arg(&mut args, "20");
    push_arg(&mut args, "-H");
    push_arg(&mut args, "Content-Type: application/json");
    push_arg(&mut args, "-H");
    push_arg(&mut args, "User-Agent: BeautifyOllama/1.0");
    push_arg(&mut args, "-X");
    push_arg(&mut args, "POST");
    push_arg(&mut args, "-d");
    push_arg(&mut args, body);
    push_arg(&mut args, url.as_str());
    assert(texts(args@) =~= context_command(
        search_path@,
        match configured {
            Some(url) => Some(url@),
            None => None,
        },
        body@,
    ).args);
    CommandLine {
        program: "curl".to_string(),
        args,
        env: make_tool_env(search_path),
        quiet: false,
        no_window: false,
    }
}

/// The path of a file below a directory: the two joined by the
/// platform's separator, unless the directory is empty or ends with the
/// separator already.
pub open spec fn joined_path(platform: PlatformId, base: Seq<char>, part: Seq<char>) -> Seq<char> {
    let separator = if platform == PlatformId::Windows {
        "\\"@
    } else {
        "/"@
    };
    if base.len() == 0 || ends_with(base, separator) {
        base + part
    } else {
        base + separator + part
    }
}

/// The places where the search script is looked for, in their order: below
/// the working directory first, then beside and above it, under its present
/// name and its former one.
pub open spec fn script_places(platform: PlatformId, working_dir: Seq<char>) -> Seq<Seq<char>> {
    seq![
        joined_path(
            platform,
            joined_path(platform, joined_path(platform, working_dir, "tools"@), "web-search"@),
            "main.py"@,
        ),
        "./tools/web-search/main.py"@,
        "../tools/web-search/main.py"@,
        "../../tools/web-search/main.py"@,
        "./ollama-web-search/main.py"@,
        "../ollama-web-search/main.py"@,
        "../../ollama-web-search/main.py"@,
    ]
}

/// The script that is run: the first place that exists, or the default
/// place where none does.
pub open spec fn chosen_script(places: Seq<Seq<char>>, exists: Seq<bool>, from: int) -> Seq<char>
    decreases places.len() - from,
{
    if from < 0 || from >= places.len() {
        "tools/web-search/main.py"@
    } else if from < exists.len() && exists[from] {
        places[from]
    } else {
        chosen_script(places, exists, from + 1)
    }
}

fn join_path(platform: PlatformId, base: String, part: &str) -> (r: String)
    ensures
        r@ == joined_path(platform, base@, part@),
{
    let separator = if platform == PlatformId::Windows {
        "\\"
    } else {
        "/"
    };
    let mut path = base;
    let given = chars_of(path.as_str());
    if !(given.len() == 0 || ends_with_in(given.as_slice(), chars_of(separator).as_slice())) {
        path.append(separator);
    }
    path.append(part);
    path
}

/// The places where the search script is looked for.
pub fn get_script_places(platform: PlatformId, working_dir: &str) -> (r: Vec<String>)
    ensures
        texts(r@) == script_places(platform, working_dir@),
{
    let below = join_path(
        platform,
        join_path(platform, join_path(platform, working_dir.to_string(), "tools"), "web-search"),
        "main.py",
    );
    let mut places: Vec<String> = Vec::new();
    push_arg(&mut places, below.as_str());
    push_arg(&mut places, "./tools/web-search/main.py");
    push_arg(&mut places, "../tools/web-search/main.py");
    push_arg(&mut places, "../../tools/web-search/main.py");
    push_arg(&mut places, "./ollama-web-search/main.py");
    push_arg(&mut places, "../ollama-web-search/main.py");
    push_arg(&mut places, "../../ollama-web-search/main.py");
    assert(texts(places@) =~= script_places(platform, working_dir@));
    places
}

/// The script that is run, given for each place whether it exists.
pub fn get_python_script_path(places: &Vec<String>, exists: &[bool]) -> (r: String)
    ensures
        r@ == chosen_script(texts(places@), exists@, 0),
{
    let mut i: usize = 0;
    while i < places.len()
        invariant
            i <= places.len(),
            chosen_script(texts(places@), exists@, 0) == chosen_script(
                texts(places@),
                exists@,
                i as int,
            ),
        decreases places.len() - i,
    {
        if i < exists.len() && exists[i] {
            assert(texts(places@)[i as int] == places@[i as int]@);
            return places[i].clone();
        }
        i += 1;
    }
    "tools/web-search/main.py".to_string()
}

} // verus!
