//! The transcript reader: recovering ordered chat turns from the external
//! agent's append-only conversation log.
//!
//! Each log line is one independent JSON record. Parsing a line is done by
//! serde_json behind one trusted item; the parsed tree is converted into
//! the library's own [`JsonValue`] model, and every classification rule
//! that turns records into chat turns is verified over that model.

use vstd::prelude::*;

use crate::text::{matches_at, str_eq};

verus! {

/// One key-value entry of a JSON object.
#[derive(Debug)]
pub struct JsonField {
    pub key: String,
    pub value: JsonValue,
}

/// The library's model of a parsed JSON tree. Numbers are carried as
/// their decimal rendering: no field the transcript reader inspects is
/// numeric. Object keys are unique; entries come in the parser map's
/// iteration order (sorted by key), and no rule here depends on that
/// order.
#[derive(Debug)]
pub enum JsonValue {
    Null,
    Bool(bool),
    Num(String),
    Str(String),
    Arr(Vec<JsonValue>),
    Obj(Vec<JsonField>),
}

#[verifier::external_type_specification]
#[verifier::external_body]
pub struct ExValue(serde_json::Value);

/// Relies on `serde_json::Value`: converts a parsed tree into the
/// library's model, variant for variant, moving fields only; a number
/// becomes its decimal rendering.
#[verifier::external_body]
fn value_to_model(v: &serde_json::Value) -> JsonValue {
    match v {
        serde_json::Value::Null => JsonValue::Null,
        serde_json::Value::Bool(b) => JsonValue::Bool(*b),
        serde_json::Value::Number(n) => JsonValue::Num(n.to_string()),
        serde_json::Value::String(s) => JsonValue::Str(s.clone()),
        serde_json::Value::Array(a) => JsonValue::Arr(a.iter().map(value_to_model).collect()),
        serde_json::Value::Object(m) => JsonValue::Obj(
            m.iter().map(|(k, x)| JsonField { key: k.clone(), value: value_to_model(x) }).collect(),
        ),
    }
}

/// What parsing one log line yields: `None` for a malformed line, the
/// modelled record otherwise; a function of the line alone.
pub uninterp spec fn parsed_line(s: Seq<char>) -> Option<JsonValue>;

/// Relies on `serde_json::from_str`: whether the line is one well-formed
/// JSON record, and the record itself; deterministic in the line.
#[verifier::external_body]
fn parse_log_line(line: &str) -> (r: Option<JsonValue>)
    ensures
        r == parsed_line(line@),
{
    match serde_json::from_str::<serde_json::Value>(line) {
        Ok(v) => Some(value_to_model(&v)),
        Err(_) => None,
    }
}

/// The first value bound to `key` among the entries (object keys are
/// unique, so the first binding is the binding).
pub open spec fn lookup(es: Seq<JsonField>, key: Seq<char>) -> Option<JsonValue>
    decreases es.len(),
{
    if es.len() == 0 {
        None
    } else if es[0].key@ == key {
        Some(es[0].value)
    } else {
        lookup(es.skip(1), key)
    }
}

/// The value of field `key`, when `v` is an object that has it.
pub open spec fn get_field(v: JsonValue, key: Seq<char>) -> Option<JsonValue> {
    match v {
        JsonValue::Obj(es) => lookup(es@, key),
        _ => None,
    }
}

/// The `content` of a record whose top-level kind tag and nested message
/// role both equal `role`; `None` for every other record.
pub open spec fn message_content_spec(v: JsonValue, role: Seq<char>) -> Option<JsonValue> {
    match get_field(v, "type"@) {
        Some(JsonValue::Str(t)) => if t@ == role {
            match get_field(v, "message"@) {
                Some(msg) => match get_field(msg, "role"@) {
                    Some(JsonValue::Str(r)) => if r@ == role {
                        get_field(msg, "content"@)
                    } else {
                        None
                    },
                    _ => None,
                },
                None => None,
            }
        } else {
            None
        },
        _ => None,
    }
}

/// A user turn's text: only a record with kind and role `user` whose
/// content is a plain text value yields one. Structured content — in
/// particular a list carrying tool results — is not learner speech.
pub open spec fn user_text_spec(v: JsonValue) -> Option<Seq<char>> {
    match message_content_spec(v, "user"@) {
        Some(JsonValue::Str(s)) => Some(s@),
        _ => None,
    }
}

/// The text of the first list item tagged `text` that has a text value.
/// An item without a string `type` tag, or one tagged `text` without a
/// `text` field, ends the scan with nothing found.
pub open spec fn first_text_spec(items: Seq<JsonValue>) -> Option<Seq<char>>
    decreases items.len(),
{
    if items.len() == 0 {
        None
    } else {
        match get_field(items[0], "type"@) {
            Some(JsonValue::Str(t)) => if t@ == "text"@ {
                match get_field(items[0], "text"@) {
                    Some(JsonValue::Str(s)) => Some(s@),
                    Some(_) => first_text_spec(items.skip(1)),
                    None => None,
                }
            } else {
                first_text_spec(items.skip(1))
            },
            _ => None,
        }
    }
}

/// An assistant turn's text: only a record with kind and role `assistant`
/// whose content is a list yields one, taking the first text item.
pub open spec fn assistant_text_spec(v: JsonValue) -> Option<Seq<char>> {
    match message_content_spec(v, "assistant"@) {
        Some(JsonValue::Arr(items)) => first_text_spec(items@),
        _ => None,
    }
}

/// One reconstructed exchange unit: who spoke, and the text.
#[derive(Debug, PartialEq, Eq)]
pub struct ChatMessage {
    /// Exactly `"user"` or `"assistant"`.
    pub role: String,
    pub content: String,
}

/// The turns one record contributes: at most one, never two.
pub open spec fn turns_of_record(v: JsonValue) -> Seq<(Seq<char>, Seq<char>)> {
    (match user_text_spec(v) {
        Some(t) => seq![("user"@, t)],
        None => Seq::empty(),
    }) + (match assistant_text_spec(v) {
        Some(t) => seq![("assistant"@, t)],
        None => Seq::empty(),
    })
}

/// The turns one log line contributes: none for a malformed line.
pub open spec fn turns_of_line(s: Seq<char>) -> Seq<(Seq<char>, Seq<char>)> {
    match parsed_line(s) {
        Some(v) => turns_of_record(v),
        None => Seq::empty(),
    }
}

/// The whole transcript of a log, in line order.
pub open spec fn transcript_spec(lines: Seq<Seq<char>>) -> Seq<(Seq<char>, Seq<char>)>
    decreases lines.len(),
{
    if lines.len() == 0 {
        Seq::empty()
    } else {
        turns_of_line(lines[0]) + transcript_spec(lines.skip(1))
    }
}

pub open spec fn lines_view(ls: Seq<String>) -> Seq<Seq<char>> {
    Seq::new(ls.len(), |i: int| ls[i]@)
}

pub open spec fn msgs_view(ms: Seq<ChatMessage>) -> Seq<(Seq<char>, Seq<char>)> {
    Seq::new(ms.len(), |i: int| (ms[i].role@, ms[i].content@))
}

pub open spec fn opt_text(o: Option<String>) -> Option<Seq<char>> {
    match o {
        Some(s) => Some(s@),
        None => None,
    }
}

/// Looks a field up in an object record; `None` on any other value.
fn get_field_exec<'a>(v: &'a JsonValue, key: &str) -> (r: Option<&'a JsonValue>)
    ensures
        match r {
            Some(x) => get_field(*v, key@) == Some(*x),
            None => get_field(*v, key@) is None,
        },
{
    match v {
        JsonValue::Obj(es) => {
            let n = es.len();
            let mut i: usize = 0;
            proof {
                assert(es@.skip(0) =~= es@);
            }
            while i < n
                invariant
                    n == es@.len(),
                    i <= n,
                    get_field(*v, key@) == lookup(es@, key@),
                    lookup(es@, key@) == lookup(es@.skip(i as int), key@),
                decreases n - i,
            {
                proof {
                    assert(es@.skip(i as int).skip(1) =~= es@.skip(i + 1));
                    assert(es@.skip(i as int)[0] == es@[i as int]);
                }
                if str_eq(es[i].key.as_str(), key) {
                    return Some(&es[i].value);
                }
                i = i + 1;
            }
            None
        },
        _ => None,
    }
}

/// The nested content of a record whose kind and role tags both equal
/// `role`, after the classification rule.
fn get_message_content<'a>(v: &'a JsonValue, role: &str) -> (r: Option<&'a JsonValue>)
    ensures
        match r {
            Some(x) => message_content_spec(*v, role@) == Some(*x),
            None => message_content_spec(*v, role@) is None,
        },
{
    let t = match get_field_exec(v, "type") {
        Some(t) => t,
        None => {
            return None;
        },
    };
    let ts = match t {
        JsonValue::Str(ts) => ts,
        _ => {
            return None;
        },
    };
    if !str_eq(ts.as_str(), role) {
        return None;
    }
    let msg = match get_field_exec(v, "message") {
        Some(m) => m,
        None => {
            return None;
        },
    };
    let r = match get_field_exec(msg, "role") {
        Some(r) => r,
        None => {
            return None;
        },
    };
    let rs = match r {
        JsonValue::Str(rs) => rs,
        _ => {
            return None;
        },
    };
    if !str_eq(rs.as_str(), role) {
        return None;
    }
    get_field_exec(msg, "content")
}

/// Extracts the text of a user turn from one record, if it yields one.
pub fn extract_user_message(v: &JsonValue) -> (r: Option<String>)
    ensures
        opt_text(r) == user_text_spec(*v),
{
    match get_message_content(v, "user") {
        Some(JsonValue::Str(s)) => Some(s.clone()),
        _ => None,
    }
}

/// Extracts the text of an assistant turn from one record, if it yields
/// one: the first text item of a list content.
pub fn extract_assistant_message(v: &JsonValue) -> (r: Option<String>)
    ensures
        opt_text(r) == assistant_text_spec(*v),
{
    let items = match get_message_content(v, "assistant") {
        Some(JsonValue::Arr(items)) => items,
        _ => {
            return None;
        },
    };
    let n = items.len();
    let mut i: usize = 0;
    proof {
        assert(items@.skip(0) =~= items@);
    }
    while i < n
        invariant
            n == items@.len(),
            i <= n,
            assistant_text_spec(*v) == first_text_spec(items@),
            first_text_spec(items@) == first_text_spec(items@.skip(i as int)),
        decreases n - i,
    {
        proof {
            assert(items@.skip(i as int).skip(1) =~= items@.skip(i + 1));
            assert(items@.skip(i as int)[0] == items@[i as int]);
        }
        let t = match get_field_exec(&items[i], "type") {
            Some(t) => t,
            None => {
                return None;
            },
        };
        let ts = match t {
            JsonValue::Str(ts) => ts,
            _ => {
                return None;
            },
        };
        if str_eq(ts.as_str(), "text") {
            match get_field_exec(&items[i], "text") {
                Some(JsonValue::Str(s)) => {
                    return Some(s.clone());
                },
                Some(_) => {},
                None => {
                    return None;
                },
            }
        }
        i = i + 1;
    }
    None
}

/// Reconstructs the ordered chat turns of a whole log, given its lines.
/// Malformed lines are skipped; order follows the log exactly.
pub fn parse_chat_messages(lines: &Vec<String>) -> (r: Vec<ChatMessage>)
    ensures
        msgs_view(r@) == transcript_spec(lines_view(lines@)),
{
    let ghost lv = lines_view(lines@);
    let n = lines.len();
    let mut out: Vec<ChatMessage> = Vec::new();
    let mut i: usize = 0;
    proof {
        assert(lv.skip(0) =~= lv);
        assert(msgs_view(out@) =~= Seq::empty());
    }
    while i < n
        invariant
            n == lines@.len(),
            lv == lines_view(lines@),
            i <= n,
            transcript_spec(lv) == msgs_view(out@) + transcript_spec(lv.skip(i as int)),
        decreases n - i,
    {
        proof {
            assert(lv.skip(i as int).skip(1) =~= lv.skip(i + 1));
            assert(lv.skip(i as int)[0] == lines@[i as int]@);
        }
        let ghost out_before = out@;
        match parse_log_line(lines[i].as_str()) {
            None => {
                proof {
                    assert(turns_of_line(lines@[i as int]@) =~= Seq::empty());
                    assert(msgs_view(out@) + transcript_spec(lv.skip(i + 1)) =~= transcript_spec(
                        lv,
                    ));
                }
            },
            Some(v) => {
                let ghost turns = turns_of_record(v);
                if let Some(text) = extract_user_message(&v) {
                    out.push(ChatMessage { role: String::from_str("user"), content: text });
                }
                if let Some(text) = extract_assistant_message(&v) {
                    out.push(ChatMessage { role: String::from_str("assistant"), content: text });
                }
                proof {
                    assert(msgs_view(out@) =~= msgs_view(out_before) + turns);
                    assert(msgs_view(out@) + transcript_spec(lv.skip(i + 1)) =~= transcript_spec(
                        lv,
                    ));
                }
            },
        }
        i = i + 1;
    }
    proof {
        assert(lv.skip(n as int) =~= Seq::<Seq<char>>::empty());
        assert(msgs_view(out@) =~= msgs_view(out@) + transcript_spec(lv.skip(n as int)));
    }
    out
}

/// A file name with the conversation-log extension: a non-empty stem
/// followed by `.jsonl`.
pub open spec fn is_jsonl_name(s: Seq<char>) -> bool {
    s.len() > 6 && s.skip(s.len() - 6) == ".jsonl"@
}

fn has_jsonl_extension(name: &str) -> (r: bool)
    ensures
        r == is_jsonl_name(name@),
{
    proof {
        reveal_strlit(".jsonl");
    }
    let n = name.unicode_len();
    if n <= 6 {
        return false;
    }
    let r = matches_at(name, n, n - 6, ".jsonl", 6);
    proof {
        if r {
            assert(name@.subrange(n - 6, n as int) =~= name@.skip(n - 6));
        } else {
            assert(name@.subrange(n - 6, n as int) =~= name@.skip(n - 6));
        }
    }
    r
}

/// Selects the conversation log to read: among the directory entries
/// (file name, modification time), the first-listed log file with the
/// greatest modification time; `None` when no entry is a log file.
pub fn find_latest_jsonl(entries: &Vec<(String, u64)>) -> (r: Option<usize>)
    ensures
        match r {
            None => forall|j: int|
                0 <= j < entries@.len() ==> !is_jsonl_name(#[trigger] entries@[j].0@),
            Some(i) => {
                &&& i < entries@.len()
                &&& is_jsonl_name(entries@[i as int].0@)
                &&& forall|j: int|
                    0 <= j < entries@.len() && is_jsonl_name(#[trigger] entries@[j].0@)
                        ==> entries@[j].1 <= entries@[i as int].1
                &&& forall|j: int|
                    0 <= j < i && is_jsonl_name(#[trigger] entries@[j].0@) ==> entries@[j].1
                        < entries@[i as int].1
            },
        },
{
    let n = entries.len();
    let mut best: Option<usize> = None;
    let mut i: usize = 0;
    while i < n
        invariant
            n == entries@.len(),
            i <= n,
            match best {
                None => forall|j: int| 0 <= j < i ==> !is_jsonl_name(#[trigger] entries@[j].0@),
                Some(b) => {
                    &&& b < i
                    &&& is_jsonl_name(entries@[b as int].0@)
                    &&& forall|j: int|
                        0 <= j < i && is_jsonl_name(#[trigger] entries@[j].0@) ==> entries@[j].1
                            <= entries@[b as int].1
                    &&& forall|j: int|
                        0 <= j < b && is_jsonl_name(#[trigger] entries@[j].0@) ==> entries@[j].1
                            < entries@[b as int].1
                },
            },
        decreases n - i,
    {
        if has_jsonl_extension(entries[i].0.as_str()) {
            match best {
                None => {
                    best = Some(i);
                },
                Some(b) => {
                    if entries[i].1 > entries[b].1 {
                        best = Some(i);
                    }
                },
            }
        }
        i = i + 1;
    }
    best
}

} // verus!
