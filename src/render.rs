use crate::timing::{capped, measured_time, other_of, query_time};
use crate::trace::Trace;
use vstd::prelude::*;

verus! {

/// A run of `n` spaces.
pub open spec fn spaces(n: nat) -> Seq<char> {
    Seq::new(n, |i: int| ' ')
}

/// `s` followed by spaces up to `w` characters; `s` alone where it is wider.
pub open spec fn pad_right(s: Seq<char>, w: nat) -> Seq<char> {
    if s.len() < w {
        s + spaces((w - s.len()) as nat)
    } else {
        s
    }
}

/// `s` preceded by spaces up to `w` characters; `s` alone where it is wider.
pub open spec fn pad_left(s: Seq<char>, w: nat) -> Seq<char> {
    if s.len() < w {
        spaces((w - s.len()) as nat) + s
    } else {
        s
    }
}

/// The decimal digit for `d`, below ten.
pub open spec fn digit(d: nat) -> char {
    (d + 48) as char
}

/// The decimal text of `n`, without leading zeros.
pub open spec fn decimal(n: nat) -> Seq<char>
    decreases n,
{
    if n < 10 {
        seq![digit(n)]
    } else {
        decimal(n / 10).push(digit(n % 10))
    }
}

/// `n` right-justified in seven characters.
pub open spec fn column(n: u64) -> Seq<char> {
    pad_left(decimal(n as nat), 7)
}

/// The width of the name field: `base` less the indentation, and none where
/// the indentation is deeper.
pub open spec fn name_width(base: nat, indent: usize) -> nat {
    if indent < base {
        (base - indent) as nat
    } else {
        0
    }
}

/// The indentation of a node's children: two more, where that fits.
pub open spec fn deeper(indent: usize) -> usize {
    indent.saturating_add(2)
}

/// The line of the root node.
pub open spec fn root_line(name: Seq<char>, indent: usize, elapsed: u64) -> Seq<char> {
    spaces(indent as nat) + pad_right(name, name_width(48, indent)) + " "@ + column(elapsed)
        + "ms"@
}

/// The line of a sub-query node.
pub open spec fn query_line(name: Seq<char>, indent: usize, elapsed: u64, count: u64) -> Seq<
    char,
> {
    spaces(indent as nat) + pad_right(name, name_width(50, indent)) + " "@ + column(elapsed)
        + "ms ["@ + column(count) + " entities]"@
}

/// A labelled total of the root's summary.
pub open spec fn summary_line(label: Seq<char>, n: u64) -> Seq<char> {
    pad_right(label, 12) + column(n) + "ms"@
}

/// The line that reports sub-queries adding up to more than the root's total.
pub open spec fn excess_line(excess: u64) -> Seq<char> {
    "warning: sub-queries exceed the total by "@ + decimal(excess as nat) + "ms"@
}

/// The lines after the root's children: a blank line, the time in
/// sub-queries, the time outside them and the total; then, where the
/// sub-queries add up to more than the total, a warning with the excess.
pub open spec fn summary(query: u64, elapsed: u64) -> Seq<Seq<char>> {
    seq![
        Seq::empty(),
        summary_line("query:"@, query),
        summary_line("other:"@, other_of(elapsed, query)),
        summary_line("total:"@, elapsed),
    ] + if query > elapsed {
        seq![excess_line((query - elapsed) as u64)]
    } else {
        Seq::empty()
    }
}

/// The report of `t` under the name `name`, indented by `indent`.
pub open spec fn brief(name: Seq<char>, t: Trace, indent: usize) -> Seq<Seq<char>>
    decreases t,
{
    match t {
        Trace::Root { elapsed, children, .. } => seq![root_line(name, indent, elapsed)]
            + children_brief(children@, deeper(indent)) + summary(
            capped(measured_time(t)),
            elapsed,
        ),
        Trace::Query { elapsed, entity_count, children, .. } => seq![
            query_line(name, indent, elapsed, entity_count),
        ] + children_brief(children@, deeper(indent)),
    }
}

/// The reports of a sequence of children, one after the other.
pub open spec fn children_brief(cs: Seq<(String, Trace)>, indent: usize) -> Seq<Seq<char>>
    decreases cs,
{
    if cs.len() == 0 {
        Seq::empty()
    } else {
        children_brief(cs.drop_last(), indent) + brief(cs.last().0@, cs.last().1, indent)
    }
}

/// The text of each line.
pub open spec fn texts(lines: Seq<String>) -> Seq<Seq<char>> {
    lines.map_values(|s: String| s@)
}

/// Relies on `String`'s `FromIterator<char>`: the string holds the
/// characters in order.
#[verifier::external_body]
pub(crate) fn text_of(line: Vec<char>) -> (r: String)
    ensures
        r@ == line@,
{
    line.into_iter().collect()
}

pub(crate) fn push_text(line: &mut Vec<char>, s: &str)
    ensures
        final(line)@ == old(line)@ + s@,
{
    let n: usize = s.unicode_len();
    let mut i: usize = 0;
    while i < n
        invariant
            n == s@.len(),
            i <= n,
            line@ == old(line)@ + s@.subrange(0, i as int),
        decreases n - i,
    {
        line.push(s.get_char(i));
        assert(s@.subrange(0, i + 1) =~= s@.subrange(0, i as int).push(s@[i as int]));
        i = i + 1;
    }
    assert(s@.subrange(0, n as int) =~= s@);
}

fn push_spaces(line: &mut Vec<char>, n: usize)
    ensures
        final(line)@ == old(line)@ + spaces(n as nat),
{
    let mut i: usize = 0;
    while i < n
        invariant
            i <= n,
            line@ == old(line)@ + spaces(i as nat),
        decreases n - i,
    {
        line.push(' ');
        assert(spaces((i + 1) as nat) =~= spaces(i as nat).push(' '));
        i = i + 1;
    }
}

fn push_padded(line: &mut Vec<char>, s: &str, w: usize)
    ensures
        final(line)@ == old(line)@ + pad_right(s@, w as nat),
{
    let n: usize = s.unicode_len();
    push_text(line, s);
    if n < w {
        push_spaces(line, w - n);
    }
    assert(final(line)@ =~= old(line)@ + pad_right(s@, w as nat));
}

fn digit_char(d: u64) -> (c: char)
    requires
        d < 10,
    ensures
        c == digit(d as nat),
{
    ((d as u8) + 48u8) as char
}

fn decimal_chars(n: u64) -> (r: Vec<char>)
    ensures
        r@ == decimal(n as nat),
    decreases n,
{
    if n < 10 {
        let mut r = Vec::new();
        r.push(digit_char(n));
        assert(r@ =~= seq![digit(n as nat)]);
        r
    } else {
        let mut r = decimal_chars(n / 10);
        r.push(digit_char(n % 10));
        r
    }
}

pub(crate) fn push_decimal(line: &mut Vec<char>, n: u64)
    ensures
        final(line)@ == old(line)@ + decimal(n as nat),
{
    let digits = decimal_chars(n);
    let mut i: usize = 0;
    while i < digits.len()
        invariant
            i <= digits@.len(),
            line@ == old(line)@ + digits@.subrange(0, i as int),
        decreases digits@.len() - i,
    {
        line.push(digits[i]);
        assert(digits@.subrange(0, i + 1) =~= digits@.subrange(0, i as int).push(digits@[i as int]));
        i = i + 1;
    }
    assert(digits@.subrange(0, digits@.len() as int) =~= digits@);
}

fn push_column(line: &mut Vec<char>, n: u64)
    ensures
        final(line)@ == old(line)@ + column(n),
{
    let digits = decimal_chars(n);
    if digits.len() < 7 {
        push_spaces(line, 7 - digits.len());
    }
    push_decimal(line, n);
    assert(final(line)@ =~= old(line)@ + column(n));
}

fn push_line(out: &mut Vec<String>, line: Vec<char>)
    ensures
        texts(final(out)@) == texts(old(out)@).push(line@),
{
    let ghost text = line@;
    out.push(text_of(line));
    assert(texts(final(out)@) =~= texts(old(out)@).push(text));
}

fn summary_line_into(out: &mut Vec<String>, label: &str, n: u64)
    ensures
        texts(final(out)@) == texts(old(out)@).push(summary_line(label@, n)),
{
    let mut line: Vec<char> = Vec::new();
    push_padded(&mut line, label, 12);
    push_column(&mut line, n);
    push_text(&mut line, "ms");
    assert(line@ =~= summary_line(label@, n));
    push_line(out, line);
}

fn summary_into(out: &mut Vec<String>, query: u64, elapsed: u64)
    ensures
        texts(final(out)@) == texts(old(out)@) + summary(query, elapsed),
{
    push_line(out, Vec::new());
    summary_line_into(out, "query:", query);
    let other: u64 = if query <= elapsed {
        elapsed - query
    } else {
        0
    };
    summary_line_into(out, "other:", other);
    summary_line_into(out, "total:", elapsed);
    if query > elapsed {
        let mut line: Vec<char> = Vec::new();
        push_text(&mut line, "warning: sub-queries exceed the total by ");
        push_decimal(&mut line, query - elapsed);
        push_text(&mut line, "ms");
        assert(line@ =~= excess_line((query - elapsed) as u64));
        push_line(out, line);
    }
    assert(texts(final(out)@) =~= texts(old(out)@) + summary(query, elapsed));
}

fn brief_into(name: &str, trace: &Trace, indent: usize, out: &mut Vec<String>)
    ensures
        texts(final(out)@) == texts(old(out)@) + brief(name@, *trace, indent),
    decreases trace,
{
    let mut line: Vec<char> = Vec::new();
    push_spaces(&mut line, indent);
    match trace {
        Trace::Root { elapsed, children, .. } => {
            push_padded(&mut line, name, if indent < 48 { 48 - indent } else { 0 });
            push_text(&mut line, " ");
            push_column(&mut line, *elapsed);
            push_text(&mut line, "ms");
            assert(line@ =~= root_line(name@, indent, *elapsed));
            push_line(out, line);
            children_into(children, indent.saturating_add(2), out);
            summary_into(out, query_time(trace), *elapsed);
            assert(texts(final(out)@) =~= texts(old(out)@) + brief(name@, *trace, indent));
        },
        Trace::Query { elapsed, entity_count, children, .. } => {
            push_padded(&mut line, name, if indent < 50 { 50 - indent } else { 0 });
            push_text(&mut line, " ");
            push_column(&mut line, *elapsed);
            push_text(&mut line, "ms [");
            push_column(&mut line, *entity_count);
            push_text(&mut line, " entities]");
            assert(line@ =~= query_line(name@, indent, *elapsed, *entity_count));
            push_line(out, line);
            children_into(children, indent.saturating_add(2), out);
            assert(texts(final(out)@) =~= texts(old(out)@) + brief(name@, *trace, indent));
        },
    }
}

fn children_into(children: &Vec<(String, Trace)>, indent: usize, out: &mut Vec<String>)
    ensures
        texts(final(out)@) == texts(old(out)@) + children_brief(children@, indent),
    decreases children,
{
    let mut i: usize = 0;
    while i < children.len()
        invariant
            i <= children@.len(),
            texts(out@) == texts(old(out)@) + children_brief(children@.subrange(0, i as int), indent),
        decreases children@.len() - i,
    {
        let ghost done = children@.subrange(0, i as int);
        assert(children@.subrange(0, i + 1).drop_last() =~= done);
        proof {
            assert(decreases_to!(children => children@[i as int]));
        }
        brief_into(children[i].0.as_str(), &children[i].1, indent, out);
        assert(texts(out@) =~= texts(old(out)@) + children_brief(children@.subrange(0, i + 1), indent));
        i = i + 1;
    }
    assert(children@.subrange(0, children@.len() as int) =~= children@);
}

/// The report of `trace` under the name `name`, as lines of text: one line
/// per node, each node's children below it and indented two more, and after
/// the root's children the root's summary.
pub fn brief_trace(name: &str, trace: &Trace, indent: usize) -> (r: Vec<String>)
    ensures
        texts(r@) == brief(name@, *trace, indent),
{
    let mut out: Vec<String> = Vec::new();
    brief_into(name, trace, indent, &mut out);
    assert(texts(out@) =~= brief(name@, *trace, indent));
    out
}

} // verus!
