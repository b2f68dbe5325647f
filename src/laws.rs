use crate::json::{lookup, Json};
use crate::render::{brief, children_brief, excess_line, spaces, summary_line};
use crate::timing::{capped, elapsed_of, measured_time};
use crate::trace::{
    children_fault, children_read, is_child_entry, query_fault, query_read, root_fault, root_read,
    Fault, Trace,
};
use vstd::prelude::*;

verus! {

/// The keys of the object-valued entries of `es`, in order.
pub open spec fn child_keys(es: Seq<(String, Json)>) -> Seq<Seq<char>>
    decreases es.len(),
{
    if es.len() == 0 {
        Seq::empty()
    } else if is_child_entry(es.last()) {
        child_keys(es.drop_last()).push(es.last().0@)
    } else {
        child_keys(es.drop_last())
    }
}

/// The names of a sequence of children.
pub open spec fn names(cs: Seq<(String, Trace)>) -> Seq<Seq<char>> {
    cs.map_values(|c: (String, Trace)| c.0@)
}

/// The children of a node.
pub open spec fn children_of(t: Trace) -> Seq<(String, Trace)> {
    match t {
        Trace::Root { children, .. } => children@,
        Trace::Query { children, .. } => children@,
    }
}

/// A node whose children read without fault, and which has no `elapsed_ms`
/// entry, is refused for missing that entry, as a sub-query and as the root.
pub proof fn missing_elapsed_is_refused(name: Seq<char>, es: Vec<(String, Json)>)
    requires
        children_fault(es@) is None,
        lookup(es@, "elapsed_ms"@) is None,
    ensures
        query_fault(name, Json::Object(es)) == Some(Fault::MissingField("elapsed_ms"@)),
        root_fault(Json::Object(es)) == Some(Fault::MissingField("elapsed_ms"@)),
{
}

/// A node whose children read without fault, and whose `elapsed_ms` entry is
/// a string, is refused for the kind of that entry, as a sub-query and as the
/// root.
pub proof fn string_elapsed_is_refused(name: Seq<char>, es: Vec<(String, Json)>, s: String)
    requires
        children_fault(es@) is None,
        lookup(es@, "elapsed_ms"@) == Some(Json::Str(s)),
    ensures
        query_fault(name, Json::Object(es)) == Some(
            Fault::WrongType("elapsed_ms"@, "non-negative integer"@),
        ),
        root_fault(Json::Object(es)) == Some(
            Fault::WrongType("elapsed_ms"@, "non-negative integer"@),
        ),
{
}

/// The children read from an object are its object-valued entries, in order,
/// each named by its key: whatever the key, an object value is a child, and
/// no other value is one.
pub proof fn children_are_object_entries(cs: Seq<(String, Trace)>, es: Seq<(String, Json)>)
    requires
        children_read(cs, es),
    ensures
        names(cs) == child_keys(es),
    decreases es.len(),
{
    if es.len() > 0 {
        if is_child_entry(es.last()) {
            children_are_object_entries(cs.drop_last(), es.drop_last());
            assert(names(cs) =~= names(cs.drop_last()).push(cs.last().0@));
        } else {
            children_are_object_entries(cs, es.drop_last());
        }
    } else {
        assert(names(cs) =~= Seq::empty());
    }
}

/// A node read from an object, as the root or as a sub-query, has for
/// children exactly the object's object-valued entries, in order, each named
/// by its key.
pub proof fn node_children_are_object_entries(t: Trace, es: Vec<(String, Json)>)
    requires
        root_read(t, Json::Object(es)) || query_read(t, Json::Object(es)),
    ensures
        names(children_of(t)) == child_keys(es@),
{
    children_are_object_entries(children_of(t), es@);
}

/// Where the sub-queries of a root add up to more than its elapsed time, the
/// report still comes out: its time outside sub-queries is shown as zero,
/// and it ends with a warning that gives the excess.
pub proof fn excess_is_clamped(name: Seq<char>, t: Trace, indent: usize)
    requires
        t is Root,
        capped(measured_time(t)) > elapsed_of(t),
    ensures
        ({
            let lines = brief(name, t, indent);
            let q = capped(measured_time(t));
            &&& lines[lines.len() - 3] == summary_line("other:"@, 0)
            &&& lines.last() == excess_line((q - elapsed_of(t)) as u64)
        }),
{
}

/// The root's report ends its summary with a total line that shows the root's
/// elapsed time, followed only by the warning where there is one.
pub proof fn total_line_is_elapsed(name: Seq<char>, t: Trace, indent: usize)
    requires
        t is Root,
    ensures
        ({
            let lines = brief(name, t, indent);
            let q = capped(measured_time(t));
            let back: int = if q > elapsed_of(t) { 2 } else { 1 };
            lines[lines.len() - back] == summary_line("total:"@, elapsed_of(t))
        }),
{
}

/// The first line of the report of a sequence of children is the first line
/// of the first child's report.
proof fn lemma_first_child_line(cs: Seq<(String, Trace)>, indent: usize)
    requires
        cs.len() > 0,
    ensures
        children_brief(cs, indent).len() > 0,
        children_brief(cs, indent)[0] == brief(cs[0].0@, cs[0].1, indent)[0],
    decreases cs.len(),
{
    let last = brief(cs.last().0@, cs.last().1, indent);
    match cs.last().1 {
        Trace::Root { .. } => assert(last.len() > 0),
        Trace::Query { .. } => assert(last.len() > 0),
    }
    if cs.len() > 1 {
        lemma_first_child_line(cs.drop_last(), indent);
        assert(cs.drop_last()[0] == cs[0]);
    } else {
        assert(cs.drop_last().len() == 0);
        assert(children_brief(cs.drop_last(), indent) =~= Seq::empty());
    }
}

/// In a report, a node's line starts with as many spaces as its indentation,
/// then its name; the line of its first child, just below, starts with two
/// spaces more, then the child's name.
pub proof fn child_indented_two_more(name: Seq<char>, t: Trace, indent: usize)
    requires
        children_of(t).len() > 0,
        indent + 2 <= usize::MAX,
    ensures
        ({
            let lines = brief(name, t, indent);
            let child = children_of(t)[0].0@;
            &&& lines[0].subrange(0, indent + name.len()) == spaces(indent as nat) + name
            &&& lines[1].subrange(0, indent + 2 + child.len()) == spaces((indent + 2) as nat) + child
        }),
{
    let cs = children_of(t);
    lemma_first_child_line(cs, (indent + 2) as usize);
    let lines = brief(name, t, indent);
    assert(lines[1] == children_brief(cs, (indent + 2) as usize)[0]);
    assert(lines[0].subrange(0, indent + name.len()) =~= spaces(indent as nat) + name);
    assert(lines[1].subrange(0, indent + 2 + cs[0].0@.len()) =~= spaces((indent + 2) as nat)
        + cs[0].0@);
}

} // verus!
