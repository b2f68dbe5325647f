use qtrace::json::Json;
use qtrace::render::brief_trace;
use qtrace::timing::{other_time, query_time};
use qtrace::trace::{Trace, TraceError};

fn obj(entries: Vec<(&str, Json)>) -> Json {
    Json::Object(entries.into_iter().map(|(k, v)| (k.to_string(), v)).collect())
}

fn s(text: &str) -> Json {
    Json::Str(text.to_string())
}

fn query_node(elapsed: u64, count: u64, children: Vec<(&str, Json)>) -> Json {
    let mut entries = vec![
        ("elapsed_ms", Json::UInt(elapsed)),
        ("conn_wait_ms", Json::UInt(0)),
        ("permit_wait_ms", Json::UInt(0)),
        ("entity_count", Json::UInt(count)),
    ];
    entries.extend(children);
    obj(entries)
}

fn root_node(elapsed: u64, children: Vec<(&str, Json)>) -> Json {
    let mut entries = vec![
        ("query", s("{ things { id } }")),
        ("variables", s("{\"first\": 10}")),
        ("query_id", s("q-123")),
        ("block", Json::UInt(17)),
        ("elapsed_ms", Json::UInt(elapsed)),
        ("conn_wait_ms", Json::UInt(3)),
        ("permit_wait_ms", Json::UInt(4)),
    ];
    entries.extend(children);
    obj(entries)
}

fn missing(key: &str) -> TraceError {
    TraceError::MissingField(key.to_string())
}

fn wrong(key: &str, expected: &str) -> TraceError {
    TraceError::WrongType(key.to_string(), expected.to_string())
}

#[test]
fn minimal_query_node() {
    let (name, t) = Trace::parse_query("q", &query_node(100, 5, vec![])).unwrap();
    assert_eq!(name, "q");
    assert_eq!(query_time(&t), 100);
    match t {
        Trace::Query { entity_count, elapsed, conn_wait, permit_wait, ref children, .. } => {
            assert_eq!(entity_count, 5);
            assert_eq!(elapsed, 100);
            assert_eq!(conn_wait, 0);
            assert_eq!(permit_wait, 0);
            assert!(children.is_empty());
        }
        _ => panic!("expected a sub-query node"),
    }
}

#[test]
fn root_query_and_other_time() {
    let root = root_node(
        200,
        vec![("a", query_node(50, 1, vec![])), ("b", query_node(70, 2, vec![]))],
    );
    let t = Trace::parse(&root).unwrap();
    assert_eq!(query_time(&t), 120);
    assert_eq!(other_time(&t), 80);
}

#[test]
fn nested_query_time_adds_descendants() {
    let inner = query_node(30, 0, vec![]);
    let mid = query_node(40, 0, vec![("inner", inner)]);
    let root = root_node(500, vec![("mid", mid), ("side", query_node(5, 0, vec![]))]);
    let t = Trace::parse(&root).unwrap();
    assert_eq!(query_time(&t), 75);
    assert_eq!(other_time(&t), 425);
}

#[test]
fn root_fields_are_read() {
    let t = Trace::parse(&root_node(9, vec![])).unwrap();
    assert_eq!(t.query_id(), "q-123");
    match t {
        Trace::Root { query, variables, block, elapsed, conn_wait, permit_wait, children, .. } => {
            assert_eq!(query, "{ things { id } }");
            let expected: serde_json::Value = serde_json::from_str("{\"first\": 10}").unwrap();
            assert_eq!(variables, expected);
            assert_ne!(variables, serde_json::Value::String("{\"first\": 10}".to_string()));
            assert_eq!(block, 17);
            assert_eq!(elapsed, 9);
            assert_eq!(conn_wait, 3);
            assert_eq!(permit_wait, 4);
            assert!(children.is_empty());
        }
        _ => panic!("expected a root node"),
    }
}

#[test]
fn query_id_of_sub_query_is_none() {
    let (_, t) = Trace::parse_query("q", &query_node(1, 1, vec![])).unwrap();
    assert_eq!(t.query_id(), "none");
}

#[test]
fn sub_query_text_is_its_query_entry() {
    let mut node = query_node(1, 1, vec![]);
    if let Json::Object(es) = &mut node {
        es.push(("query".to_string(), s("select 1")));
    }
    let (_, t) = Trace::parse_query("q", &node).unwrap();
    match t {
        Trace::Query { query, .. } => assert_eq!(query, "select 1"),
        _ => panic!("expected a sub-query node"),
    }
    let (_, t) = Trace::parse_query("q", &query_node(1, 1, vec![])).unwrap();
    match t {
        Trace::Query { query, .. } => assert_eq!(query, ""),
        _ => panic!("expected a sub-query node"),
    }
}

#[test]
fn missing_elapsed_is_an_error() {
    let node = obj(vec![
        ("conn_wait_ms", Json::UInt(0)),
        ("permit_wait_ms", Json::UInt(0)),
        ("entity_count", Json::UInt(5)),
    ]);
    assert_eq!(Trace::parse_query("q", &node).unwrap_err(), missing("elapsed_ms"));
    let root = obj(vec![
        ("query", s("x")),
        ("variables", s("{}")),
        ("query_id", s("id")),
        ("block", Json::UInt(1)),
        ("conn_wait_ms", Json::UInt(0)),
        ("permit_wait_ms", Json::UInt(0)),
    ]);
    assert_eq!(Trace::parse(&root).unwrap_err(), missing("elapsed_ms"));
}

#[test]
fn string_elapsed_is_an_error() {
    let node = obj(vec![
        ("elapsed_ms", s("100")),
        ("conn_wait_ms", Json::UInt(0)),
        ("permit_wait_ms", Json::UInt(0)),
        ("entity_count", Json::UInt(5)),
    ]);
    assert_eq!(
        Trace::parse_query("q", &node).unwrap_err(),
        wrong("elapsed_ms", "non-negative integer")
    );
}

#[test]
fn negative_and_fractional_numbers_are_wrong_types() {
    let node = obj(vec![
        ("elapsed_ms", Json::UInt(1)),
        ("conn_wait_ms", Json::NegInt(-1)),
        ("permit_wait_ms", Json::UInt(0)),
        ("entity_count", Json::UInt(5)),
    ]);
    assert_eq!(
        Trace::parse_query("q", &node).unwrap_err(),
        wrong("conn_wait_ms", "non-negative integer")
    );
    let node = obj(vec![
        ("elapsed_ms", Json::UInt(1)),
        ("conn_wait_ms", Json::UInt(0)),
        ("permit_wait_ms", Json::Decimal("1.5".to_string())),
        ("entity_count", Json::UInt(5)),
    ]);
    assert_eq!(
        Trace::parse_query("q", &node).unwrap_err(),
        wrong("permit_wait_ms", "non-negative integer")
    );
}

#[test]
fn missing_entity_count_is_an_error() {
    let node = obj(vec![
        ("elapsed_ms", Json::UInt(1)),
        ("conn_wait_ms", Json::UInt(0)),
        ("permit_wait_ms", Json::UInt(0)),
    ]);
    assert_eq!(Trace::parse_query("q", &node).unwrap_err(), missing("entity_count"));
}

#[test]
fn non_object_nodes_are_errors() {
    assert_eq!(
        Trace::parse(&Json::Array(vec![])).unwrap_err(),
        TraceError::NotAnObject("root".to_string())
    );
    assert_eq!(
        Trace::parse_query("child", &Json::Null).unwrap_err(),
        TraceError::NotAnObject("child".to_string())
    );
}

#[test]
fn root_string_fields_are_checked() {
    let mut root = root_node(1, vec![]);
    if let Json::Object(es) = &mut root {
        es.retain(|(k, _)| k != "query_id");
    }
    assert_eq!(Trace::parse(&root).unwrap_err(), missing("query_id"));

    let mut root = root_node(1, vec![]);
    if let Json::Object(es) = &mut root {
        for e in es.iter_mut() {
            if e.0 == "query" {
                e.1 = Json::UInt(3);
            }
        }
    }
    assert_eq!(Trace::parse(&root).unwrap_err(), wrong("query", "string"));
}

#[test]
fn variables_must_be_json_text() {
    let mut root = root_node(1, vec![]);
    if let Json::Object(es) = &mut root {
        for e in es.iter_mut() {
            if e.0 == "variables" {
                e.1 = s("{not json");
            }
        }
    }
    assert_eq!(Trace::parse(&root).unwrap_err(), wrong("variables", "JSON text"));

    let mut root = root_node(1, vec![]);
    if let Json::Object(es) = &mut root {
        for e in es.iter_mut() {
            if e.0 == "variables" {
                e.1 = Json::Bool(true);
            }
        }
    }
    assert_eq!(Trace::parse(&root).unwrap_err(), wrong("variables", "string"));
}

#[test]
fn block_must_be_a_number() {
    let mut root = root_node(1, vec![]);
    if let Json::Object(es) = &mut root {
        for e in es.iter_mut() {
            if e.0 == "block" {
                e.1 = s("17");
            }
        }
    }
    assert_eq!(Trace::parse(&root).unwrap_err(), wrong("block", "non-negative integer"));
}

#[test]
fn child_errors_come_first() {
    let bad_child = obj(vec![("elapsed_ms", s("x"))]);
    let node = obj(vec![("c", bad_child)]);
    assert_eq!(
        Trace::parse_query("q", &node).unwrap_err(),
        wrong("elapsed_ms", "non-negative integer")
    );
    let first = obj(vec![("elapsed_ms", Json::UInt(1))]);
    let second = obj(vec![("elapsed_ms", s("x"))]);
    let root = root_node(10, vec![("first", first), ("second", second)]);
    assert_eq!(Trace::parse(&root).unwrap_err(), missing("conn_wait_ms"));
}

#[test]
fn object_entries_are_children_whatever_the_key() {
    let mut node = query_node(10, 1, vec![("foo", query_node(3, 0, vec![]))]);
    if let Json::Object(es) = &mut node {
        es.push(("bar".to_string(), s("plain")));
        es.push(("baz".to_string(), Json::UInt(4)));
        es.push(("list".to_string(), Json::Array(vec![query_node(1, 1, vec![])])));
    }
    let (_, t) = Trace::parse_query("q", &node).unwrap();
    match t {
        Trace::Query { children, .. } => {
            let names: Vec<&str> = children.iter().map(|(n, _)| n.as_str()).collect();
            assert_eq!(names, vec!["foo"]);
        }
        _ => panic!("expected a sub-query node"),
    }
}

#[test]
fn children_keep_entry_order() {
    let root = root_node(
        100,
        vec![("zeta", query_node(1, 0, vec![])), ("alpha", query_node(2, 0, vec![]))],
    );
    match Trace::parse(&root).unwrap() {
        Trace::Root { children, .. } => {
            let names: Vec<&str> = children.iter().map(|(n, _)| n.as_str()).collect();
            assert_eq!(names, vec!["zeta", "alpha"]);
        }
        _ => panic!("expected a root node"),
    }
}

#[test]
fn report_of_two_level_tree() {
    let root = root_node(
        200,
        vec![("a", query_node(50, 3, vec![])), ("b", query_node(70, 1234, vec![]))],
    );
    let t = Trace::parse(&root).unwrap();
    let lines = brief_trace("root", &t, 0);
    let expected = vec![
        format!("{:48} {:>7}ms", "root", 200),
        format!("  {:48} {:>7}ms [{:>7} entities]", "a", 50, 3),
        format!("  {:48} {:>7}ms [{:>7} entities]", "b", 70, 1234),
        String::new(),
        format!("query:      {:>7}ms", 120),
        format!("other:      {:>7}ms", 80),
        format!("total:      {:>7}ms", 200),
    ];
    assert_eq!(lines, expected);
    let lead = |l: &str| l.len() - l.trim_start().len();
    assert_eq!(lead(&lines[1]), lead(&lines[0]) + 2);
    assert!(lines[6].ends_with("    200ms"));
}

#[test]
fn report_of_deeper_tree() {
    let leaf = query_node(7, 2, vec![]);
    let mid = query_node(20, 9, vec![("leaf", leaf)]);
    let root = root_node(100, vec![("mid", mid)]);
    let t = Trace::parse(&root).unwrap();
    let lines = brief_trace("root", &t, 0);
    assert_eq!(lines[1], format!("  {:48} {:>7}ms [{:>7} entities]", "mid", 20, 9));
    assert_eq!(lines[2], format!("    {:46} {:>7}ms [{:>7} entities]", "leaf", 7, 2));
    assert_eq!(lines[4], format!("query:      {:>7}ms", 27));
    assert_eq!(lines[5], format!("other:      {:>7}ms", 73));
}

#[test]
fn report_clamps_excess_sub_query_time() {
    let root = root_node(100, vec![("a", query_node(90, 0, vec![])), ("b", query_node(40, 0, vec![]))]);
    let t = Trace::parse(&root).unwrap();
    assert_eq!(query_time(&t), 130);
    assert_eq!(other_time(&t), 0);
    let lines = brief_trace("root", &t, 0);
    assert_eq!(lines.len(), 8);
    assert_eq!(lines[4], format!("query:      {:>7}ms", 130));
    assert_eq!(lines[5], format!("other:      {:>7}ms", 0));
    assert_eq!(lines[6], format!("total:      {:>7}ms", 100));
    assert_eq!(lines[7], "warning: sub-queries exceed the total by 30ms");
}

#[test]
fn report_with_long_name_and_wide_numbers() {
    let long = "n".repeat(60);
    let (_, t) = Trace::parse_query(&long, &query_node(123456789, 0, vec![])).unwrap();
    let lines = brief_trace(&long, &t, 0);
    assert_eq!(lines, vec![format!("{} 123456789ms [      0 entities]", long)]);
}

#[test]
fn report_deep_indent_leaves_no_padding() {
    let (_, t) = Trace::parse_query("x", &query_node(1, 1, vec![])).unwrap();
    let lines = brief_trace("x", &t, 52);
    assert_eq!(lines, vec![format!("{}x       1ms [      1 entities]", " ".repeat(52))]);
}

#[test]
fn largest_times_saturate() {
    let root = root_node(
        5,
        vec![("a", query_node(u64::MAX, 0, vec![])), ("b", query_node(u64::MAX, 0, vec![]))],
    );
    let t = Trace::parse(&root).unwrap();
    assert_eq!(query_time(&t), u64::MAX);
    assert_eq!(other_time(&t), 0);
}
