use crate::json::{get, lookup, Json};
use crate::render::{decimal, push_decimal, push_text, text_of};
use crate::trace::{is_json_text, parse_json_text};
use vstd::prelude::*;

verus! {

/// The LogQL pattern that splits a query-timing log line into its parts.
pub const LOG_PATTERN: &'static str = r#"pattern "<_>INFO Query timing (GraphQL), block: <block>, query_time_ms: <query_time>, variables: <variables>, query: <query> , query_id: <query_id>,""#;

/// The LogQL text that asks for the query-timing log lines of `deployment`
/// on `cluster`, narrowed to one query id and to queries slower than
/// `min_time` milliseconds where those are given.
pub open spec fn log_query_text(
    cluster: Seq<char>,
    deployment: Seq<char>,
    qid: Option<Seq<char>>,
    min_time: Option<u64>,
) -> Seq<char> {
    "{cluster=\""@ + cluster + "\",app=~\"query-node.*\",deployment=\""@ + deployment
        + "\",container=\"query-node\"} | "@ + LOG_PATTERN@ + match qid {
        Some(q) => " | query_id=\""@ + q + "\""@,
        None => Seq::empty(),
    } + match min_time {
        Some(m) => " | query_time > "@ + decimal(m as nat),
        None => Seq::empty(),
    }
}

/// Builds the LogQL text of [`log_query_text`].
pub fn log_query(cluster: &str, deployment: &str, qid: Option<&str>, min_time: Option<u64>) -> (r:
    String)
    ensures
        r@ == log_query_text(
            cluster@,
            deployment@,
            match qid {
                Some(q) => Some(q@),
                None => None,
            },
            min_time,
        ),
{
    let mut text: Vec<char> = Vec::new();
    push_text(&mut text, "{cluster=\"");
    push_text(&mut text, cluster);
    push_text(&mut text, "\",app=~\"query-node.*\",deployment=\"");
    push_text(&mut text, deployment);
    push_text(&mut text, "\",container=\"query-node\"} | ");
    push_text(&mut text, LOG_PATTERN);
    if let Some(q) = qid {
        push_text(&mut text, " | query_id=\"");
        push_text(&mut text, q);
        push_text(&mut text, "\"");
    }
    if let Some(m) = min_time {
        push_text(&mut text, " | query_time > ");
        push_decimal(&mut text, m);
    }
    let ghost q = match qid {
        Some(q) => Some(q@),
        None => None,
    };
    assert(text@ =~= log_query_text(cluster@, deployment@, q, min_time));
    text_of(text)
}

/// One query-timing log line: the query text and its variables.
#[derive(Debug)]
pub struct LogEntry {
    pub query: String,
    pub variables: serde_json::Value,
}

/// Why a log response holds no usable log line.
#[derive(Debug, PartialEq, Eq)]
pub enum LogError {
    /// The response has no `data.result[0].stream` object.
    MissingStream,
    /// The stream has no `query` string.
    MissingQuery,
    /// The stream has no `variables` string.
    MissingVariables,
    /// The stream's `variables` string is not JSON text.
    BadVariables,
}

/// The entry `key` of `v`, where `v` is an object that has one.
pub open spec fn member(v: Json, key: Seq<char>) -> Option<Json> {
    match v {
        Json::Object(es) => lookup(es@, key),
        _ => None,
    }
}

/// The `data.result[0].stream` value of a log response.
pub open spec fn stream_of(resp: Json) -> Option<Json> {
    match member(resp, "data"@) {
        Some(data) => match member(data, "result"@) {
            Some(Json::Array(items)) => if items@.len() > 0 {
                member(items@[0], "stream"@)
            } else {
                None
            },
            _ => None,
        },
        None => None,
    }
}

/// The string entry `key` of `v`, where it has one.
pub open spec fn string_member(v: Json, key: Seq<char>) -> Option<Seq<char>> {
    match member(v, key) {
        Some(Json::Str(s)) => Some(s@),
        _ => None,
    }
}

fn member_of<'a>(v: &'a Json, key: &str) -> (r: Option<&'a Json>)
    ensures
        match r {
            Some(x) => member(*v, key@) == Some(*x),
            None => member(*v, key@) is None,
        },
{
    match v {
        Json::Object(es) => get(es, key),
        _ => None,
    }
}

fn stream_entry<'a>(resp: &'a Json) -> (r: Option<&'a Json>)
    ensures
        match r {
            Some(x) => stream_of(*resp) == Some(*x),
            None => stream_of(*resp) is None,
        },
{
    let data = match member_of(resp, "data") {
        Some(d) => d,
        None => return None,
    };
    match member_of(data, "result") {
        Some(Json::Array(items)) => if items.len() > 0 {
            member_of(&items[0], "stream")
        } else {
            None
        },
        _ => None,
    }
}

/// Reads the query and its variables from the first log line of a log
/// response.
pub fn log_entry(resp: &Json) -> (r: Result<LogEntry, LogError>)
    ensures
        match stream_of(*resp) {
            Some(Json::Object(_)) => {
                let stream = stream_of(*resp)->Some_0;
                match (string_member(stream, "query"@), string_member(stream, "variables"@)) {
                    (None, _) => r == Err::<LogEntry, LogError>(LogError::MissingQuery),
                    (Some(_), None) => r == Err::<LogEntry, LogError>(LogError::MissingVariables),
                    (Some(q), Some(v)) => if is_json_text(v) {
                        r matches Ok(e) && e.query@ == q
                    } else {
                        r == Err::<LogEntry, LogError>(LogError::BadVariables)
                    },
                }
            },
            _ => r == Err::<LogEntry, LogError>(LogError::MissingStream),
        },
{
    let stream = match stream_entry(resp) {
        Some(s) => s,
        None => return Err(LogError::MissingStream),
    };
    if !matches!(stream, Json::Object(_)) {
        return Err(LogError::MissingStream);
    }
    let query = match member_of(stream, "query") {
        Some(Json::Str(q)) => q.clone(),
        _ => return Err(LogError::MissingQuery),
    };
    let variables = match member_of(stream, "variables") {
        Some(Json::Str(v)) => match parse_json_text(v.as_str()) {
            Ok(value) => value,
            Err(_) => return Err(LogError::BadVariables),
        },
        _ => return Err(LogError::MissingVariables),
    };
    Ok(LogEntry { query, variables })
}

} // verus!
