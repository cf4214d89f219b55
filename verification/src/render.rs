//! Serializes decoded records to the fixed output text: for each record, in
//! order, three newline-terminated lines — display name (or the literal
//! placeholder "Unknown" when the name is absent), first TLE line, second TLE
//! line — with no header, footer, or separators.

use vstd::prelude::*;
use crate::decode::{rec_matches, str_field};
use crate::record::{STResponse, has_no_newline};

verus! {

/// A single line terminator.
pub open spec fn newline() -> Seq<char> {
    "\n"@
}

/// The name that is written for a record: the object's name where present,
/// else the literal placeholder.
pub open spec fn display_name(r: STResponse) -> Seq<char> {
    match r.object_name {
        Some(n) => n@,
        None => "Unknown"@,
    }
}

/// The three output lines of one record, each newline-terminated.
pub open spec fn record_lines(r: STResponse) -> Seq<char> {
    display_name(r) + newline() + r.line_1@ + newline() + r.line_2@ + newline()
}

/// The whole output text: the lines of every record, in record order.
pub open spec fn all_lines(rs: Seq<STResponse>) -> Seq<char>
    decreases rs.len(),
{
    if rs.len() == 0 {
        Seq::empty()
    } else {
        all_lines(rs.drop_last()) + record_lines(rs.last())
    }
}

/// Renders one record as its three newline-terminated lines.
pub fn render_record(r: &STResponse) -> (out: String)
    ensures
        out@ == record_lines(*r),
{
    let mut out = String::new();
    match &r.object_name {
        Some(n) => out.append(n.as_str()),
        None => out.append("Unknown"),
    }
    out.append("\n");
    out.append(r.line_1.as_str());
    out.append("\n");
    out.append(r.line_2.as_str());
    out.append("\n");
    proof {
        assert(out@ =~= record_lines(*r));
    }
    out
}

proof fn lemma_all_lines_step(rs: Seq<STResponse>, i: int)
    requires
        0 <= i < rs.len(),
    ensures
        all_lines(rs.take(i + 1)) == all_lines(rs.take(i)) + record_lines(rs[i]),
{
    let t = rs.take(i + 1);
    assert(t.drop_last() =~= rs.take(i));
    assert(t.last() == rs[i]);
}

/// Renders every record, in order, as three newline-terminated lines each.
pub fn render_records(records: &Vec<STResponse>) -> (out: String)
    ensures
        out@ == all_lines(records@),
{
    let mut out = String::new();
    let mut i: usize = 0;
    proof {
        assert(records@.take(0) =~= Seq::<STResponse>::empty());
    }
    while i < records.len()
        invariant
            i <= records@.len(),
            out@ == all_lines(records@.take(i as int)),
        decreases records@.len() - i,
    {
        let line = render_record(&records[i]);
        out.append(line.as_str());
        proof {
            lemma_all_lines_step(records@, i as int);
        }
        i += 1;
    }
    proof {
        assert(records@.take(records@.len() as int) =~= records@);
    }
    out
}

/// A record decoded from an element whose `OBJECT_NAME` member is absent or
/// null is written under exactly the literal placeholder name `Unknown`; a
/// present name is written through unchanged.
pub proof fn lemma_name_rendering(rec: STResponse, v: serde_json::Value)
    requires
        rec_matches(rec, v),
    ensures
        str_field(v, "OBJECT_NAME"@) is None ==> display_name(rec) == "Unknown"@,
        str_field(v, "OBJECT_NAME"@) matches Some(n) ==> display_name(rec) == n,
{
}

/// How many times `c` occurs in `s`.
pub open spec fn count_char(s: Seq<char>, c: char) -> nat
    decreases s.len(),
{
    if s.len() == 0 {
        0
    } else {
        count_char(s.drop_last(), c) + (if s.last() == c {
            1nat
        } else {
            0nat
        })
    }
}

proof fn lemma_count_char_concat(a: Seq<char>, b: Seq<char>, c: char)
    ensures
        count_char(a + b, c) == count_char(a, c) + count_char(b, c),
    decreases b.len(),
{
    if b.len() == 0 {
        assert(a + b =~= a);
    } else {
        assert((a + b).drop_last() =~= a + b.drop_last());
        assert((a + b).last() == b.last());
        lemma_count_char_concat(a, b.drop_last(), c);
    }
}

proof fn lemma_count_char_absent(s: Seq<char>, c: char)
    requires
        forall|i: int| 0 <= i < s.len() ==> s[i] != c,
    ensures
        count_char(s, c) == 0,
    decreases s.len(),
{
    if s.len() > 0 {
        lemma_count_char_absent(s.drop_last(), c);
    }
}

/// The output of one record whose fields hold no line terminator of their own
/// is exactly three lines: it contains exactly three newlines.
proof fn lemma_record_newlines(r: STResponse)
    requires
        r.single_line_fields(),
    ensures
        count_char(record_lines(r), '\n') == 3,
{
    reveal_strlit("\n");
    reveal_strlit("Unknown");
    assert(newline() =~= seq!['\n']);
    assert(count_char(seq!['\n'], '\n') == 1) by {
        assert(count_char(Seq::<char>::empty(), '\n') == 0);
        assert(seq!['\n'].drop_last() =~= Seq::<char>::empty());
    }
    assert(has_no_newline("Unknown"@));
    lemma_count_char_absent(display_name(r), '\n');
    lemma_count_char_absent(r.line_1@, '\n');
    lemma_count_char_absent(r.line_2@, '\n');
    lemma_count_char_concat(display_name(r), newline(), '\n');
    lemma_count_char_concat(display_name(r) + newline(), r.line_1@, '\n');
    lemma_count_char_concat(display_name(r) + newline() + r.line_1@, newline(), '\n');
    lemma_count_char_concat(display_name(r) + newline() + r.line_1@ + newline(), r.line_2@, '\n');
    lemma_count_char_concat(
        display_name(r) + newline() + r.line_1@ + newline() + r.line_2@,
        newline(),
        '\n',
    );
}

/// Writing K records whose fields hold no line terminators of their own
/// produces output with exactly 3 x K lines: the text contains exactly
/// 3 x K newlines, and (by `all_lines`) they come grouped in triples of
/// name, first line, second line, in record order.
pub proof fn lemma_output_line_count(rs: Seq<STResponse>)
    requires
        forall|i: int| 0 <= i < rs.len() ==> rs[i].single_line_fields(),
    ensures
        count_char(all_lines(rs), '\n') == 3 * rs.len(),
    decreases rs.len(),
{
    if rs.len() > 0 {
        lemma_output_line_count(rs.drop_last());
        lemma_record_newlines(rs.last());
        lemma_count_char_concat(all_lines(rs.drop_last()), record_lines(rs.last()), '\n');
    }
}

} // verus!
