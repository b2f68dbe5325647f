use qtrace::json::Json;
use qtrace::loki::{log_entry, log_query, LogError, LOG_PATTERN};

fn obj(entries: Vec<(&str, Json)>) -> Json {
    Json::Object(entries.into_iter().map(|(k, v)| (k.to_string(), v)).collect())
}

fn response(stream: Json) -> Json {
    obj(vec![(
        "data",
        obj(vec![("result", Json::Array(vec![obj(vec![("stream", stream)])]))]),
    )])
}

#[test]
fn log_query_plain() {
    let q = log_query("prod", "QmHash", None, None);
    assert_eq!(
        q,
        format!(
            r#"{{cluster="prod",app=~"query-node.*",deployment="QmHash",container="query-node"}} | {}"#,
            LOG_PATTERN
        )
    );
}

#[test]
fn log_query_with_qid_and_min_time() {
    let q = log_query("c", "d", Some("abc"), Some(2500));
    assert!(q.ends_with(r#" | query_id="abc" | query_time > 2500"#));
    assert!(q.starts_with(r#"{cluster="c",app=~"query-node.*",deployment="d""#));
    let q = log_query("c", "d", None, Some(0));
    assert!(q.ends_with(r#"query_id: <query_id>," | query_time > 0"#));
}

#[test]
fn log_entry_is_read() {
    let stream = obj(vec![
        ("query", Json::Str("{ a }".to_string())),
        ("variables", Json::Str("{\"x\": [1, 2]}".to_string())),
    ]);
    let e = log_entry(&response(stream)).unwrap();
    assert_eq!(e.query, "{ a }");
    let expected: serde_json::Value = serde_json::from_str("{\"x\": [1, 2]}").unwrap();
    assert_eq!(e.variables, expected);
}

#[test]
fn log_entry_errors() {
    assert_eq!(log_entry(&Json::Null).unwrap_err(), LogError::MissingStream);
    let empty = obj(vec![("data", obj(vec![("result", Json::Array(vec![]))]))]);
    assert_eq!(log_entry(&empty).unwrap_err(), LogError::MissingStream);
    let not_obj = response(Json::Str("x".to_string()));
    assert_eq!(log_entry(&not_obj).unwrap_err(), LogError::MissingStream);
    let no_query = response(obj(vec![("variables", Json::Str("{}".to_string()))]));
    assert_eq!(log_entry(&no_query).unwrap_err(), LogError::MissingQuery);
    let no_vars = response(obj(vec![("query", Json::Str("q".to_string()))]));
    assert_eq!(log_entry(&no_vars).unwrap_err(), LogError::MissingVariables);
    let bad_vars = response(obj(vec![
        ("query", Json::Str("q".to_string())),
        ("variables", Json::Str("{".to_string())),
    ]));
    assert_eq!(log_entry(&bad_vars).unwrap_err(), LogError::BadVariables);
}
