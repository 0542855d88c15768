//! Reading the engine's list of models.
//!
//! The engine prints its models as a table: a header line, then one line for
//! each model, whose first column is the model's name. Where the engine's
//! command fails, its HTTP interface can be asked instead; its answer is
//! JSON, which is not parsed but scanned for the field `"name"`. That scan
//! reads at most one name from each line and is a last resort: it rests on
//! the shape of an answer that the engine does not promise.

use vstd::prelude::*;
use crate::text::{
    chars_of, contains, contains_in, copy_range, find, find_from, find_in, find_in_from, string_of,
    lemma_find_from,
};
use crate::text::is_space;
use crate::words::{
    find_word_end, find_word_start, first_word, first_word_of, is_not_space, lemma_scan_until, lines,
    rows, split_lines, texts, word_end, word_start,
};

verus! {

/// The lines of a table below its header line.
pub open spec fn table_body(stdout: Seq<char>) -> Seq<Seq<char>> {
    if lines(stdout).len() == 0 {
        Seq::empty()
    } else {
        lines(stdout).skip(1)
    }
}

/// The names in the engine's table of models: the first word of each line
/// below the header, in the engine's order. A line of white space alone
/// gives no name.
pub open spec fn listed_models(stdout: Seq<char>) -> Seq<Seq<char>> {
    table_body(stdout).filter_map(|line: Seq<char>| first_word(line))
}

/// What opens the value of a name field in the engine's JSON.
pub open spec fn name_marker() -> Seq<char> {
    "\"name\":\""@
}

/// The name that one line of JSON carries: what stands between the first
/// `"name":"` and the next quotation mark, where both are there and
/// something stands between them.
pub open spec fn name_in_line(line: Seq<char>) -> Option<Seq<char>> {
    match find(line, name_marker()) {
        None => None,
        Some(at) => {
            let start = at + name_marker().len();
            match find_from(line, "\""@, start) {
                None => None,
                Some(end) => if end > start {
                    Some(line.subrange(start, end))
                } else {
                    None
                },
            }
        },
    }
}

/// The names that a scan of the engine's JSON answer finds: none unless the
/// answer mentions `models` and `name`, else the name of each line that
/// carries one.
pub open spec fn scanned_models(body: Seq<char>) -> Seq<Seq<char>> {
    if contains(body, "models"@) && contains(body, "name"@) {
        lines(body).filter_map(|line: Seq<char>| name_in_line(line))
    } else {
        Seq::empty()
    }
}

fn strings_of(names: &Vec<Vec<char>>) -> (r: Vec<String>)
    ensures
        texts(r@) == rows(names@),
{
    let mut r: Vec<String> = Vec::new();
    let mut i: usize = 0;
    while i < names.len()
        invariant
            i <= names.len(),
            texts(r@) == rows(names@).take(i as int),
        decreases names.len() - i,
    {
        let ghost so_far = texts(r@);
        let name = string_of(names[i].as_slice());
        r.push(name);
        assert(texts(r@) =~= so_far.push(name@));
        assert(so_far.push(name@) =~= rows(names@).take(i + 1));
        i += 1;
    }
    assert(rows(names@).take(names.len() as int) == rows(names@));
    r
}

/// The names in the engine's table of models. A table of a header alone, or
/// no output at all, gives the empty list.
pub fn parse_model_list(stdout: &str) -> (r: Vec<String>)
    ensures
        texts(r@) == listed_models(stdout@),
{
    let all = split_lines(chars_of(stdout).as_slice());
    let mut names: Vec<Vec<char>> = Vec::new();
    if all.len() == 0 {
        assert(rows(names@) =~= listed_models(stdout@));
        return strings_of(&names);
    }
    let ghost body = table_body(stdout@);
    let ghost pick = |line: Seq<char>| first_word(line);
    let mut i: usize = 1;
    assert(body.take(0).filter_map(pick) =~= rows(names@));
    while i < all.len()
        invariant
            1 <= i <= all.len(),
            rows(all@) == lines(stdout@),
            body == lines(stdout@).skip(1),
            pick == |line: Seq<char>| first_word(line),
            rows(names@) == body.take(i - 1).filter_map(pick),
        decreases all.len() - i,
    {
        let ghost so_far = rows(names@);
        assert(body[i - 1] == all@[i as int]@) by {
            assert(rows(all@)[i as int] == all@[i as int]@);
        }
        proof {
            body.lemma_filter_map_take_succ(pick, i - 1);
        }
        match first_word_of(all[i].as_slice()) {
            Some(word) => {
                names.push(word);
                assert(rows(names@) =~= so_far + seq![word@]);
            },
            None => {},
        }
        i += 1;
    }
    assert(body.take(all.len() - 1) == body);
    strings_of(&names)
}

/// The name that one line of JSON carries.
pub fn name_in_line_of(line: &[char]) -> (r: Option<Vec<char>>)
    ensures
        match r {
            Some(name) => name_in_line(line@) == Some(name@),
            None => name_in_line(line@) is None,
        },
{
    let marker = chars_of("\"name\":\"");
    let quote = chars_of("\"");
    match find_in(line, marker.as_slice()) {
        None => None,
        Some(at) => {
            proof {
                lemma_find_from(line@, marker@, 0);
            }
            assert(at + marker.len() <= line.len());
            let start = at + marker.len();
            match find_in_from(line, quote.as_slice(), start) {
                None => None,
                Some(end) => {
                    proof {
                        lemma_find_from(line@, quote@, start as int);
                    }
                    if end > start {
                        Some(copy_range(line, start, end))
                    } else {
                        None
                    }
                },
            }
        },
    }
}

/// The names that a scan of the engine's JSON answer finds.
pub fn scan_model_names(body: &str) -> (r: Vec<String>)
    ensures
        texts(r@) == scanned_models(body@),
{
    let text = chars_of(body);
    let mut names: Vec<Vec<char>> = Vec::new();
    if !(contains_in(text.as_slice(), chars_of("models").as_slice()) && contains_in(
        text.as_slice(),
        chars_of("name").as_slice(),
    )) {
        assert(rows(names@) =~= scanned_models(body@));
        return strings_of(&names);
    }
    let all = split_lines(text.as_slice());
    let ghost pick = |line: Seq<char>| name_in_line(line);
    let mut i: usize = 0;
    assert(lines(body@).take(0).filter_map(pick) =~= rows(names@));
    while i < all.len()
        invariant
            i <= all.len(),
            rows(all@) == lines(body@),
            pick == |line: Seq<char>| name_in_line(line),
            rows(names@) == lines(body@).take(i as int).filter_map(pick),
        decreases all.len() - i,
    {
        let ghost so_far = rows(names@);
        assert(rows(all@)[i as int] == all@[i as int]@);
        proof {
            lines(body@).lemma_filter_map_take_succ(pick, i as int);
        }
        match name_in_line_of(all[i].as_slice()) {
            Some(name) => {
                names.push(name);
                assert(rows(names@) =~= so_far + seq![name@]);
            },
            None => {},
        }
        i += 1;
    }
    assert(lines(body@).take(all.len() as int) == lines(body@));
    strings_of(&names)
}

/// The number of models that the engine's table lists by its lines alone:
/// the lines below the header, whatever they hold.
pub open spec fn listed_line_count(stdout: Seq<char>) -> nat {
    table_body(stdout).len()
}

/// The number of lines below the header of the engine's table.
pub fn count_listed_lines(stdout: &str) -> (r: usize)
    ensures
        r == listed_line_count(stdout@),
{
    let all = split_lines(chars_of(stdout).as_slice());
    assert(rows(all@).len() == all@.len());
    if all.len() == 0 {
        0
    } else {
        all.len() - 1
    }
}

/// The words of `s` from position `from` on: its runs of characters that
/// are not white space, in their order.
pub open spec fn words_from(s: Seq<char>, from: int) -> Seq<Seq<char>>
    decreases s.len() - from,
    via words_from_decreases
{
    let start = word_start(s, from);
    if from < 0 || start >= s.len() {
        Seq::empty()
    } else {
        seq![s.subrange(start, word_end(s, start))] + words_from(s, word_end(s, start))
    }
}

#[via_fn]
proof fn words_from_decreases(s: Seq<char>, from: int) {
    if from >= 0 && from <= s.len() {
        lemma_scan_until(s, from, |c: char| is_not_space(c));
        let start = word_start(s, from);
        if start < s.len() {
            lemma_scan_until(s, start, |c: char| is_space(c));
        }
    }
}

/// The words of `s`.
pub open spec fn words(s: Seq<char>) -> Seq<Seq<char>> {
    words_from(s, 0)
}

/// The place of the first word that equals `word`.
pub open spec fn word_index(all: Seq<Seq<char>>, word: Seq<char>, from: int) -> Option<int>
    decreases all.len() - from,
{
    if from < 0 || from >= all.len() {
        None
    } else if all[from] == word {
        Some(from)
    } else {
        word_index(all, word, from + 1)
    }
}

/// A model as the engine lists it.
#[derive(Debug)]
pub struct ModelRecord {
    /// The model's name, which identifies it.
    pub name: String,
    /// What follows the first colon of the name, where it has one.
    pub tag: Option<String>,
    /// What stands in the table's column `SIZE`, where the table has that
    /// column and the model's line reaches it.
    pub size: Option<String>,
}

pub struct ModelRecordView {
    pub name: Seq<char>,
    pub tag: Option<Seq<char>>,
    pub size: Option<Seq<char>>,
}

impl View for ModelRecord {
    type V = ModelRecordView;

    open spec fn view(&self) -> ModelRecordView {
        ModelRecordView {
            name: self.name@,
            tag: match self.tag {
                Some(tag) => Some(tag@),
                None => None,
            },
            size: match self.size {
                Some(size) => Some(size@),
                None => None,
            },
        }
    }
}

pub open spec fn records_view(v: Seq<ModelRecord>) -> Seq<ModelRecordView> {
    Seq::new(v.len(), |i: int| v[i]@)
}

/// The tag of a model's name.
pub open spec fn tag_of(name: Seq<char>) -> Option<Seq<char>> {
    match find(name, ":"@) {
        Some(at) => Some(name.skip(at + 1)),
        None => None,
    }
}

/// The place of the column `SIZE` among the words of a table's header;
/// `None` where the header has no such column, or has it in the place of the
/// names.
pub open spec fn size_column(stdout: Seq<char>) -> Option<int> {
    if lines(stdout).len() == 0 {
        None
    } else {
        match word_index(words(lines(stdout)[0]), "SIZE"@, 0) {
            Some(at) => if at > 0 {
                Some(at)
            } else {
                None
            },
            None => None,
        }
    }
}

/// The record of one line of the table; `None` for a line of white space
/// alone.
pub open spec fn record_of(line: Seq<char>, size_at: Option<int>) -> Option<ModelRecordView> {
    if words(line).len() == 0 {
        None
    } else {
        Some(
            ModelRecordView {
                name: words(line)[0],
                tag: tag_of(words(line)[0]),
                size: match size_at {
                    Some(at) => if 0 <= at < words(line).len() {
                        Some(words(line)[at])
                    } else {
                        None
                    },
                    None => None,
                },
            },
        )
    }
}

/// The records of the engine's table of models: one for each line below the
/// header that holds a word, in the engine's order.
pub open spec fn listed_records(stdout: Seq<char>) -> Seq<ModelRecordView> {
    table_body(stdout).filter_map(|line: Seq<char>| record_of(line, size_column(stdout)))
}

/// The first word of a line is the first of its words.
pub proof fn lemma_first_word_is_first_of_words(line: Seq<char>)
    ensures
        first_word(line) == if words(line).len() > 0 {
            Some(words(line)[0])
        } else {
            None
        },
{
}

/// The names of the records are the names that `listed_models` gives, in
/// the same order.
pub proof fn lemma_records_bear_listed_names(stdout: Seq<char>)
    ensures
        listed_records(stdout).map_values(|record: ModelRecordView| record.name) == listed_models(
            stdout,
        ),
{
    lemma_names_of_records(table_body(stdout), size_column(stdout));
}

proof fn lemma_names_of_records(body: Seq<Seq<char>>, size_at: Option<int>)
    ensures
        body.filter_map(|line: Seq<char>| record_of(line, size_at)).map_values(
            |record: ModelRecordView| record.name,
        ) == body.filter_map(|line: Seq<char>| first_word(line)),
    decreases body.len(),
{
    let records = |line: Seq<char>| record_of(line, size_at);
    let names = |line: Seq<char>| first_word(line);
    let name = |record: ModelRecordView| record.name;
    if body.len() == 0 {
        assert(body.filter_map(records).map_values(name) =~= body.filter_map(names));
    } else {
        lemma_names_of_records(body.drop_last(), size_at);
        lemma_first_word_is_first_of_words(body.last());
        let before = body.drop_last().filter_map(records);
        match record_of(body.last(), size_at) {
            Some(record) => {
                assert(body.filter_map(records) == before + seq![record]);
                assert((before + seq![record]).map_values(name) =~= before.map_values(name) + seq![
                    record.name,
                ]);
            },
            None => {},
        }
    }
}

/// The words of a text, each as a text of its own.
pub fn split_words(s: &[char]) -> (r: Vec<Vec<char>>)
    ensures
        rows(r@) == words(s@),
{
    let mut r: Vec<Vec<char>> = Vec::new();
    let mut from: usize = 0;
    loop
        invariant
            from <= s.len(),
            words(s@) == rows(r@) + words_from(s@, from as int),
        ensures
            rows(r@) == words(s@),
        decreases s.len() - from,
    {
        let start = find_word_start(s, from);
        if start >= s.len() {
            assert(words_from(s@, from as int) =~= Seq::<Seq<char>>::empty());
            assert(rows(r@) + Seq::<Seq<char>>::empty() =~= rows(r@));
            break;
        }
        let end = find_word_end(s, start);
        proof {
            lemma_scan_until(s@, start as int, |c: char| is_space(c));
        }
        let ghost before = rows(r@);
        let word = copy_range(s, start, end);
        r.push(word);
        assert(rows(r@) =~= before + seq![word@]);
        from = end;
    }
    r
}

fn copy_text(v: &Vec<char>) -> (r: String)
    ensures
        r@ == v@,
{
    string_of(v.as_slice())
}

/// The record of one line of the table.
pub fn record_of_line(line: &[char], size_at: Option<usize>) -> (r: Option<ModelRecord>)
    ensures
        match r {
            Some(record) => record_of(
                line@,
                match size_at {
                    Some(at) => Some(at as int),
                    None => None,
                },
            ) == Some(record@),
            None => record_of(
                line@,
                match size_at {
                    Some(at) => Some(at as int),
                    None => None,
                },
            ) is None,
        },
{
    let all = split_words(line);
    assert(rows(all@).len() == all@.len());
    if all.len() == 0 {
        return None;
    }
    assert(rows(all@)[0] == all@[0]@);
    let tag = tag_of_name(all[0].as_slice());
    let size = match size_at {
        Some(at) => {
            if at < all.len() {
                assert(rows(all@)[at as int] == all@[at as int]@);
                Some(copy_text(&all[at]))
            } else {
                None
            }
        },
        None => None,
    };
    Some(ModelRecord { name: copy_text(&all[0]), tag, size })
}

/// The place of the column `SIZE` among the words of the header.
fn find_size_column(header: &[char]) -> (r: Option<usize>)
    ensures
        match r {
            Some(at) => word_index(words(header@), "SIZE"@, 0) == Some(at as int) && at > 0,
            None => match word_index(words(header@), "SIZE"@, 0) {
                Some(at) => at == 0,
                None => true,
            },
        },
{
    let all = split_words(header);
    let wanted = chars_of("SIZE");
    let mut i: usize = 0;
    while i < all.len()
        invariant
            i <= all.len(),
            rows(all@) == words(header@),
            wanted@ == "SIZE"@,
            word_index(words(header@), "SIZE"@, 0) == word_index(words(header@), "SIZE"@, i as int),
        decreases all.len() - i,
    {
        assert(rows(all@)[i as int] == all@[i as int]@);
        if crate::text::same_text(all[i].as_slice(), wanted.as_slice()) {
            if i > 0 {
                return Some(i);
            } else {
                return None;
            }
        }
        i += 1;
    }
    None
}

/// The records of the engine's table of models.
pub fn parse_model_records(stdout: &str) -> (r: Vec<ModelRecord>)
    ensures
        records_view(r@) == listed_records(stdout@),
{
    let all = split_lines(chars_of(stdout).as_slice());
    let mut records: Vec<ModelRecord> = Vec::new();
    if all.len() == 0 {
        assert(records_view(records@) =~= listed_records(stdout@));
        return records;
    }
    assert(rows(all@)[0] == all@[0]@);
    let size_at = find_size_column(all[0].as_slice());
    let ghost column = size_column(stdout@);
    assert(column == match size_at {
        Some(at) => Some(at as int),
        None => None,
    });
    let ghost body = table_body(stdout@);
    let ghost pick = |line: Seq<char>| record_of(line, size_column(stdout@));
    let mut i: usize = 1;
    assert(body.take(0).filter_map(pick) =~= records_view(records@));
    while i < all.len()
        invariant
            1 <= i <= all.len(),
            rows(all@) == lines(stdout@),
            body == lines(stdout@).skip(1),
            column == size_column(stdout@),
            column == match size_at {
                Some(at) => Some(at as int),
                None => None,
            },
            pick == |line: Seq<char>| record_of(line, size_column(stdout@)),
            records_view(records@) == body.take(i - 1).filter_map(pick),
        decreases all.len() - i,
    {
        let ghost so_far = records_view(records@);
        assert(body[i - 1] == all@[i as int]@) by {
            assert(rows(all@)[i as int] == all@[i as int]@);
        }
        proof {
            body.lemma_filter_map_take_succ(pick, i - 1);
        }
        match record_of_line(all[i].as_slice(), size_at) {
            Some(record) => {
                let ghost view = record@;
                records.push(record);
                assert(records_view(records@) =~= so_far + seq![view]);
            },
            None => {},
        }
        i += 1;
    }
    assert(body.take(all.len() - 1) == body);
    records
}

/// The record of a model of which only the name is known.
pub open spec fn record_of_name(name: Seq<char>) -> ModelRecordView {
    ModelRecordView { name, tag: tag_of(name), size: None }
}

/// The records of the models that a scan of the engine's JSON answer
/// finds.
pub open spec fn scanned_records(body: Seq<char>) -> Seq<ModelRecordView> {
    scanned_models(body).map_values(|name: Seq<char>| record_of_name(name))
}

/// The tag of a model's name.
pub fn tag_of_name(name: &[char]) -> (r: Option<String>)
    ensures
        match r {
            Some(tag) => tag_of(name@) == Some(tag@),
            None => tag_of(name@) is None,
        },
{
    let colon = chars_of(":");
    match find_in(name, colon.as_slice()) {
        Some(at) => {
            proof {
                lemma_find_from(name@, colon@, 0);
                reveal_strlit(":");
            }
            assert(colon@.len() == 1);
            assert(at + 1 <= name.len());
            let rest = copy_range(name, at + 1, name.len());
            assert(name@.subrange(at + 1, name@.len() as int) == name@.skip(at + 1));
            Some(string_of(rest.as_slice()))
        },
        None => None,
    }
}

/// The records of the models that a scan of the engine's JSON answer
/// finds.
pub fn scan_model_records(body: &str) -> (r: Vec<ModelRecord>)
    ensures
        records_view(r@) == scanned_records(body@),
{
    let names = scan_model_names(body);
    let mut records: Vec<ModelRecord> = Vec::new();
    let mut i: usize = 0;
    while i < names.len()
        invariant
            i <= names.len(),
            texts(names@) == scanned_models(body@),
            records_view(records@) == scanned_records(body@).take(i as int),
        decreases names.len() - i,
    {
        let ghost so_far = records_view(records@);
        assert(texts(names@)[i as int] == names@[i as int]@);
        let tag = tag_of_name(chars_of(names[i].as_str()).as_slice());
        let record = ModelRecord { name: names[i].clone(), tag, size: None };
        let ghost view = record@;
        records.push(record);
        assert(records_view(records@) =~= so_far.push(view));
        assert(so_far.push(view) =~= scanned_records(body@).take(i + 1));
        i += 1;
    }
    assert(scanned_records(body@).take(names.len() as int) == scanned_records(body@));
    records
}

/// The names of the records, in their order.
pub fn names_of(records: &Vec<ModelRecord>) -> (r: Vec<String>)
    ensures
        texts(r@) == records_view(records@).map_values(|record: ModelRecordView| record.name),
{
    let mut names: Vec<String> = Vec::new();
    let ghost all = records_view(records@).map_values(|record: ModelRecordView| record.name);
    let mut i: usize = 0;
    while i < records.len()
        invariant
            i <= records.len(),
            all == records_view(records@).map_values(|record: ModelRecordView| record.name),
            texts(names@) == all.take(i as int),
        decreases records.len() - i,
    {
        let ghost so_far = texts(names@);
        let name = records[i].name.clone();
        names.push(name);
        assert(texts(names@) =~= so_far.push(name@));
        assert(so_far.push(name@) =~= all.take(i + 1));
        i += 1;
    }
    assert(all.take(records.len() as int) == all);
    names
}

} // verus!
