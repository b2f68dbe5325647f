use crate::json::{get, lookup, Json};
use vstd::prelude::*;

verus! {

#[verifier::external_type_specification]
#[verifier::external_body]
pub struct ExJsonValue(serde_json::Value);

#[verifier::external_type_specification]
#[verifier::external_body]
pub struct ExJsonError(serde_json::Error);

/// Whether `serde_json::from_str` reads `s` as one JSON value.
pub uninterp spec fn is_json_text(s: Seq<char>) -> bool;

/// Relies on `serde_json::from_str`: it reads the text as one JSON value, and
/// whether it succeeds depends on the text alone.
#[verifier::external_body]
pub(crate) fn parse_json_text(s: &str) -> (r: Result<serde_json::Value, serde_json::Error>)
    ensures
        r is Ok <==> is_json_text(s@),
{
    serde_json::from_str(s)
}

/// The timing record of one query execution, as a tree. Durations are in
/// milliseconds.
#[derive(Debug)]
pub enum Trace {
    /// The top-level invocation.
    Root {
        query: String,
        /// The query's variables, read from the JSON text of the root's
        /// `variables` entry.
        variables: serde_json::Value,
        query_id: String,
        block: u64,
        elapsed: u64,
        conn_wait: u64,
        permit_wait: u64,
        children: Vec<(String, Trace)>,
    },
    /// A nested sub-query.
    Query {
        query: String,
        elapsed: u64,
        conn_wait: u64,
        permit_wait: u64,
        entity_count: u64,
        children: Vec<(String, Trace)>,
    },
}

/// Why a JSON value is not a trace.
#[derive(Debug, PartialEq, Eq)]
pub enum TraceError {
    /// The named node is not a JSON object.
    NotAnObject(String),
    /// A required entry is absent.
    MissingField(String),
    /// A required entry holds a value of the wrong kind: the entry's key and
    /// what was expected.
    WrongType(String, String),
}

/// The mathematical form of a [`TraceError`].
pub enum Fault {
    NotAnObject(Seq<char>),
    MissingField(Seq<char>),
    WrongType(Seq<char>, Seq<char>),
}

impl View for TraceError {
    type V = Fault;

    open spec fn view(&self) -> Fault {
        match self {
            TraceError::NotAnObject(n) => Fault::NotAnObject(n@),
            TraceError::MissingField(k) => Fault::MissingField(k@),
            TraceError::WrongType(k, w) => Fault::WrongType(k@, w@),
        }
    }
}

/// The first of two faults, where either is present.
pub open spec fn first(a: Option<Fault>, b: Option<Fault>) -> Option<Fault> {
    if a is Some {
        a
    } else {
        b
    }
}

/// The fault of a required entry that must be a non-negative integer.
pub open spec fn number_fault(es: Seq<(String, Json)>, key: Seq<char>) -> Option<Fault> {
    match lookup(es, key) {
        None => Some(Fault::MissingField(key)),
        Some(Json::UInt(_)) => None,
        Some(_) => Some(Fault::WrongType(key, "non-negative integer"@)),
    }
}

/// The value of an entry that is a non-negative integer.
pub open spec fn number_value(es: Seq<(String, Json)>, key: Seq<char>) -> u64 {
    match lookup(es, key) {
        Some(Json::UInt(n)) => n,
        _ => 0,
    }
}

/// The fault of a required entry that must be a string.
pub open spec fn string_fault(es: Seq<(String, Json)>, key: Seq<char>) -> Option<Fault> {
    match lookup(es, key) {
        None => Some(Fault::MissingField(key)),
        Some(Json::Str(_)) => None,
        Some(_) => Some(Fault::WrongType(key, "string"@)),
    }
}

/// The text of an entry that is a string; empty for any other entry.
pub open spec fn string_value(es: Seq<(String, Json)>, key: Seq<char>) -> Seq<char> {
    match lookup(es, key) {
        Some(Json::Str(s)) => s@,
        _ => Seq::empty(),
    }
}

/// The fault of the root's `variables` entry, a string of JSON text.
pub open spec fn variables_fault(es: Seq<(String, Json)>) -> Option<Fault> {
    match lookup(es, "variables"@) {
        None => Some(Fault::MissingField("variables"@)),
        Some(Json::Str(s)) => if is_json_text(s@) {
            None
        } else {
            Some(Fault::WrongType("variables"@, "JSON text"@))
        },
        Some(_) => Some(Fault::WrongType("variables"@, "string"@)),
    }
}

/// The first fault among the timing entries that every node has.
pub open spec fn timing_fault(es: Seq<(String, Json)>) -> Option<Fault> {
    first(
        number_fault(es, "elapsed_ms"@),
        first(number_fault(es, "conn_wait_ms"@), number_fault(es, "permit_wait_ms"@)),
    )
}

/// The first fault among a sub-query node's own entries.
pub open spec fn query_fields_fault(es: Seq<(String, Json)>) -> Option<Fault> {
    first(timing_fault(es), number_fault(es, "entity_count"@))
}

/// The first fault among the root node's own entries.
pub open spec fn root_fields_fault(es: Seq<(String, Json)>) -> Option<Fault> {
    first(
        timing_fault(es),
        first(
            string_fault(es, "query"@),
            first(
                variables_fault(es),
                first(string_fault(es, "query_id"@), number_fault(es, "block"@)),
            ),
        ),
    )
}

/// Whether an entry of a node is a child node: it is one exactly when its
/// value is an object, whatever its key.
pub open spec fn is_child_entry(e: (String, Json)) -> bool {
    e.1 is Object
}

/// The first fault met when the child entries of a node are read in order,
/// each child depth first.
pub open spec fn children_fault(es: Seq<(String, Json)>) -> Option<Fault>
    decreases es,
{
    if es.len() == 0 {
        None
    } else {
        first(
            children_fault(es.drop_last()),
            if is_child_entry(es.last()) {
                query_fault(es.last().0@, es.last().1)
            } else {
                None
            },
        )
    }
}

/// The first fault met when reading `v` as a sub-query node named `name`:
/// its children come before its own entries.
pub open spec fn query_fault(name: Seq<char>, v: Json) -> Option<Fault>
    decreases v,
{
    match v {
        Json::Object(es) => first(children_fault(es@), query_fields_fault(es@)),
        _ => Some(Fault::NotAnObject(name)),
    }
}

/// The first fault met when reading `v` as the root node.
pub open spec fn root_fault(v: Json) -> Option<Fault> {
    match v {
        Json::Object(es) => first(children_fault(es@), root_fields_fault(es@)),
        _ => Some(Fault::NotAnObject("root"@)),
    }
}

/// Whether `cs` holds, in order, one child for each object-valued entry of
/// `es`, named by the entry's key and read from its value.
pub open spec fn children_read(cs: Seq<(String, Trace)>, es: Seq<(String, Json)>) -> bool
    decreases es,
{
    if es.len() == 0 {
        cs.len() == 0
    } else if is_child_entry(es.last()) {
        &&& cs.len() > 0
        &&& cs.last().0@ == es.last().0@
        &&& query_read(cs.last().1, es.last().1)
        &&& children_read(cs.drop_last(), es.drop_last())
    } else {
        children_read(cs, es.drop_last())
    }
}

/// Whether `t` is the sub-query node read from `v`.
pub open spec fn query_read(t: Trace, v: Json) -> bool
    decreases v,
{
    match v {
        Json::Object(es) => match t {
            Trace::Query { query, elapsed, conn_wait, permit_wait, entity_count, children } => {
                &&& query@ == string_value(es@, "query"@)
                &&& elapsed == number_value(es@, "elapsed_ms"@)
                &&& conn_wait == number_value(es@, "conn_wait_ms"@)
                &&& permit_wait == number_value(es@, "permit_wait_ms"@)
                &&& entity_count == number_value(es@, "entity_count"@)
                &&& children_read(children@, es@)
            },
            _ => false,
        },
        _ => false,
    }
}

/// Whether `t` is the root node read from `v`.
pub open spec fn root_read(t: Trace, v: Json) -> bool {
    match v {
        Json::Object(es) => match t {
            Trace::Root {
                query,
                variables,
                query_id,
                block,
                elapsed,
                conn_wait,
                permit_wait,
                children,
            } => {
                &&& query@ == string_value(es@, "query"@)
                &&& query_id@ == string_value(es@, "query_id"@)
                &&& block == number_value(es@, "block"@)
                &&& elapsed == number_value(es@, "elapsed_ms"@)
                &&& conn_wait == number_value(es@, "conn_wait_ms"@)
                &&& permit_wait == number_value(es@, "permit_wait_ms"@)
                &&& children_read(children@, es@)
            },
            _ => false,
        },
        _ => false,
    }
}

/// A fault met among the first `n` entries is the fault met among them all.
proof fn lemma_fault_of_prefix(es: Seq<(String, Json)>, n: int)
    requires
        0 <= n <= es.len(),
        children_fault(es.subrange(0, n)) is Some,
    ensures
        children_fault(es) == children_fault(es.subrange(0, n)),
    decreases es.len(),
{
    if n == es.len() {
        assert(es.subrange(0, n) =~= es);
    } else {
        assert(es.drop_last().subrange(0, n) =~= es.subrange(0, n));
        lemma_fault_of_prefix(es.drop_last(), n);
    }
}

impl Trace {
    /// Reads the required entry `key` as a non-negative integer: a duration
    /// in milliseconds, a count or a block number.
    pub fn number_as_millis(entries: &Vec<(String, Json)>, key: &str) -> (r: Result<u64, TraceError>)
        ensures
            match r {
                Ok(n) => number_fault(entries@, key@) is None && n == number_value(entries@, key@),
                Err(e) => number_fault(entries@, key@) == Some(e@),
            },
    {
        match get(entries, key) {
            Some(Json::UInt(n)) => Ok(*n),
            Some(_) => Err(
                TraceError::WrongType(String::from_str(key), String::from_str("non-negative integer")),
            ),
            None => Err(TraceError::MissingField(String::from_str(key))),
        }
    }

    /// Reads the required entry `key` as a string.
    fn string_entry(entries: &Vec<(String, Json)>, key: &str) -> (r: Result<String, TraceError>)
        ensures
            match r {
                Ok(s) => string_fault(entries@, key@) is None && s@ == string_value(entries@, key@),
                Err(e) => string_fault(entries@, key@) == Some(e@),
            },
    {
        match get(entries, key) {
            Some(Json::Str(s)) => Ok(s.clone()),
            Some(_) => Err(TraceError::WrongType(String::from_str(key), String::from_str("string"))),
            None => Err(TraceError::MissingField(String::from_str(key))),
        }
    }

    /// Reads the root's `variables` entry: a string holding JSON text.
    fn variables_entry(entries: &Vec<(String, Json)>) -> (r: Result<serde_json::Value, TraceError>)
        ensures
            match r {
                Ok(_) => variables_fault(entries@) is None,
                Err(e) => variables_fault(entries@) == Some(e@),
            },
    {
        match get(entries, "variables") {
            Some(Json::Str(s)) => match parse_json_text(s.as_str()) {
                Ok(v) => Ok(v),
                Err(_) => Err(
                    TraceError::WrongType(String::from_str("variables"), String::from_str("JSON text")),
                ),
            },
            Some(_) => Err(
                TraceError::WrongType(String::from_str("variables"), String::from_str("string")),
            ),
            None => Err(TraceError::MissingField(String::from_str("variables"))),
        }
    }

    /// Reads the three timing entries that every node has.
    fn timing_entries(entries: &Vec<(String, Json)>) -> (r: Result<(u64, u64, u64), TraceError>)
        ensures
            match r {
                Ok((e, c, p)) => {
                    &&& timing_fault(entries@) is None
                    &&& e == number_value(entries@, "elapsed_ms"@)
                    &&& c == number_value(entries@, "conn_wait_ms"@)
                    &&& p == number_value(entries@, "permit_wait_ms"@)
                },
                Err(e) => timing_fault(entries@) == Some(e@),
            },
    {
        let elapsed: u64 = match Self::number_as_millis(entries, "elapsed_ms") {
            Ok(n) => n,
            Err(e) => return Err(e),
        };
        let conn_wait: u64 = match Self::number_as_millis(entries, "conn_wait_ms") {
            Ok(n) => n,
            Err(e) => return Err(e),
        };
        let permit_wait: u64 = match Self::number_as_millis(entries, "permit_wait_ms") {
            Ok(n) => n,
            Err(e) => return Err(e),
        };
        Ok((elapsed, conn_wait, permit_wait))
    }

    /// Reads every object-valued entry, in order, as a child sub-query named
    /// by its key; the other entries are left alone.
    fn parse_children(entries: &Vec<(String, Json)>) -> (r: Result<Vec<(String, Trace)>, TraceError>)
        ensures
            match r {
                Ok(cs) => children_fault(entries@) is None && children_read(cs@, entries@),
                Err(e) => children_fault(entries@) == Some(e@),
            },
        decreases entries,
    {
        let mut children: Vec<(String, Trace)> = Vec::new();
        let mut i: usize = 0;
        while i < entries.len()
            invariant
                i <= entries@.len(),
                children_fault(entries@.subrange(0, i as int)) is None,
                children_read(children@, entries@.subrange(0, i as int)),
            decreases entries@.len() - i,
        {
            let ghost done = entries@.subrange(0, i as int);
            let ghost next = entries@.subrange(0, i + 1);
            assert(next.drop_last() =~= done);
            assert(next.last() == entries@[i as int]);
            let key = &entries[i].0;
            let value = &entries[i].1;
            if let Json::Object(_) = value {
                proof {
                    assert(decreases_to!(entries => entries@[i as int]));
                }
                match Self::parse_query(key.as_str(), value) {
                    Ok(c) => {
                        let ghost before = children@;
                        children.push(c);
                        assert(children@.drop_last() =~= before);
                    },
                    Err(e) => {
                        proof {
                            lemma_fault_of_prefix(entries@, i + 1);
                        }
                        return Err(e);
                    },
                }
            }
            i = i + 1;
        }
        assert(entries@.subrange(0, entries@.len() as int) =~= entries@);
        Ok(children)
    }

    /// Reads `query` as a sub-query node named `name`. Its children are read
    /// first, depth first; the first fault met ends the reading.
    pub fn parse_query(name: &str, query: &Json) -> (r: Result<(String, Trace), TraceError>)
        ensures
            match r {
                Ok((n, t)) => query_fault(name@, *query) is None && n@ == name@ && query_read(
                    t,
                    *query,
                ),
                Err(e) => query_fault(name@, *query) == Some(e@),
            },
        decreases query,
    {
        let entries = match query {
            Json::Object(es) => es,
            _ => return Err(TraceError::NotAnObject(String::from_str(name))),
        };
        let children = match Self::parse_children(entries) {
            Ok(cs) => cs,
            Err(e) => return Err(e),
        };
        let (elapsed, conn_wait, permit_wait): (u64, u64, u64) = match Self::timing_entries(entries) {
            Ok(t) => t,
            Err(e) => return Err(e),
        };
        let entity_count: u64 = match Self::number_as_millis(entries, "entity_count") {
            Ok(n) => n,
            Err(e) => return Err(e),
        };
        let text = match get(entries, "query") {
            Some(Json::Str(s)) => s.clone(),
            _ => String::new(),
        };
        Ok(
            (
                String::from_str(name),
                Trace::Query { query: text, elapsed, conn_wait, permit_wait, entity_count, children },
            ),
        )
    }

    /// Reads `root` as the root node of a trace. Its children are read first,
    /// depth first; the first fault met ends the reading.
    pub fn parse(root: &Json) -> (r: Result<Trace, TraceError>)
        ensures
            match r {
                Ok(t) => root_fault(*root) is None && root_read(t, *root),
                Err(e) => root_fault(*root) == Some(e@),
            },
    {
        let entries = match root {
            Json::Object(es) => es,
            _ => return Err(TraceError::NotAnObject(String::from_str("root"))),
        };
        let children = match Self::parse_children(entries) {
            Ok(cs) => cs,
            Err(e) => return Err(e),
        };
        let (elapsed, conn_wait, permit_wait): (u64, u64, u64) = match Self::timing_entries(entries) {
            Ok(t) => t,
            Err(e) => return Err(e),
        };
        let query = match Self::string_entry(entries, "query") {
            Ok(s) => s,
            Err(e) => return Err(e),
        };
        let variables = match Self::variables_entry(entries) {
            Ok(v) => v,
            Err(e) => return Err(e),
        };
        let query_id = match Self::string_entry(entries, "query_id") {
            Ok(s) => s,
            Err(e) => return Err(e),
        };
        let block: u64 = match Self::number_as_millis(entries, "block") {
            Ok(n) => n,
            Err(e) => return Err(e),
        };
        Ok(
            Trace::Root {
                query,
                variables,
                query_id,
                block,
                elapsed,
                conn_wait,
                permit_wait,
                children,
            },
        )
    }

    /// The identifier of the request that the trace answers; `"none"` for a
    /// sub-query node.
    pub fn query_id(&self) -> (r: &str)
        ensures
            match self {
                Trace::Root { query_id, .. } => r@ == query_id@,
                Trace::Query { .. } => r@ == "none"@,
            },
    {
        match self {
            Trace::Root { query_id, .. } => query_id.as_str(),
            Trace::Query { .. } => "none",
        }
    }
}

} // verus!
