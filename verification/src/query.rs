//! Builds the query path that asks the provider for the general-perturbations
//! records of a list of catalog identifiers, in the order given, ordered
//! server-side by the first TLE line, in JSON format.

use vstd::prelude::*;

verus! {

/// The character for one decimal digit.
pub open spec fn digit_char(d: nat) -> char {
    if d == 0 {
        '0'
    } else if d == 1 {
        '1'
    } else if d == 2 {
        '2'
    } else if d == 3 {
        '3'
    } else if d == 4 {
        '4'
    } else if d == 5 {
        '5'
    } else if d == 6 {
        '6'
    } else if d == 7 {
        '7'
    } else if d == 8 {
        '8'
    } else {
        '9'
    }
}

/// The decimal digits of `n`, most significant first, with no sign and no
/// leading zeros (a single `'0'` for zero).
pub open spec fn dec_digits(n: nat) -> Seq<char>
    decreases n,
{
    if n < 10 {
        seq![digit_char(n)]
    } else {
        dec_digits(n / 10) + seq![digit_char(n % 10)]
    }
}

/// The identifiers in decimal, in the given order, separated by commas.
pub open spec fn comma_join(ids: Seq<u32>) -> Seq<char>
    decreases ids.len(),
{
    if ids.len() == 0 {
        Seq::empty()
    } else if ids.len() == 1 {
        dec_digits(ids[0] as nat)
    } else {
        comma_join(ids.drop_last()) + seq![','] + dec_digits(ids.last() as nat)
    }
}

/// The fixed part of the query path before the identifier list.
pub open spec fn query_prefix() -> Seq<char> {
    "https://www.space-track.org/basicspacedata/query/class/gp/NORAD_CAT_ID/"@
}

/// The fixed part of the query path after the identifier list: server-side
/// ordering by the first TLE line ascending, JSON output.
pub open spec fn query_suffix() -> Seq<char> {
    "/orderby/TLE_LINE1%20ASC/format/json"@
}

/// The whole query path for a list of identifiers.
pub open spec fn spec_query(ids: Seq<u32>) -> Seq<char> {
    query_prefix() + comma_join(ids) + query_suffix()
}

fn digit_str(d: u32) -> (s: &'static str)
    requires
        d < 10,
    ensures
        s@ == seq![digit_char(d as nat)],
{
    proof {
        reveal_strlit("0");
        reveal_strlit("1");
        reveal_strlit("2");
        reveal_strlit("3");
        reveal_strlit("4");
        reveal_strlit("5");
        reveal_strlit("6");
        reveal_strlit("7");
        reveal_strlit("8");
        reveal_strlit("9");
    }
    let s: &'static str = match d {
        0 => "0",
        1 => "1",
        2 => "2",
        3 => "3",
        4 => "4",
        5 => "5",
        6 => "6",
        7 => "7",
        8 => "8",
        _ => "9",
    };
    proof {
        assert(s@ =~= seq![digit_char(d as nat)]);
    }
    s
}

/// Appends the decimal rendering of `n` to `out`.
fn push_decimal(out: &mut String, n: u32)
    ensures
        final(out)@ == old(out)@ + dec_digits(n as nat),
    decreases n,
{
    if n >= 10 {
        push_decimal(out, n / 10);
    }
    let d = digit_str(n % 10);
    out.append(d);
    proof {
        assert(final(out)@ =~= old(out)@ + dec_digits(n as nat));
    }
}

proof fn lemma_comma_join_step(ids: Seq<u32>, i: int)
    requires
        0 <= i < ids.len(),
    ensures
        i == 0 ==> comma_join(ids.take(1)) == dec_digits(ids[0] as nat),
        i > 0 ==> comma_join(ids.take(i + 1)) == comma_join(ids.take(i)) + seq![','] + dec_digits(
            ids[i] as nat,
        ),
{
    let t = ids.take(i + 1);
    assert(t.len() == i + 1);
    if i == 0 {
        assert(t[0] == ids[0]);
    } else {
        assert(t.drop_last() =~= ids.take(i));
        assert(t.last() == ids[i]);
    }
}

/// Builds the query path for the given catalog identifiers: the fixed
/// general-perturbations prefix, the identifiers comma-joined in the given
/// order (no reordering, no deduplication), and the fixed ordering/format
/// suffix.
pub fn build_query(norad_ids: &Vec<u32>) -> (q: String)
    ensures
        q@ == spec_query(norad_ids@),
{
    let mut q = "https://www.space-track.org/basicspacedata/query/class/gp/NORAD_CAT_ID/"
        .to_owned();
    let mut i: usize = 0;
    proof {
        assert(norad_ids@.take(0) =~= Seq::<u32>::empty());
        assert(q@ =~= query_prefix() + comma_join(norad_ids@.take(0)));
    }
    while i < norad_ids.len()
        invariant
            i <= norad_ids@.len(),
            q@ == query_prefix() + comma_join(norad_ids@.take(i as int)),
        decreases norad_ids@.len() - i,
    {
        if i > 0 {
            q.append(",");
        }
        push_decimal(&mut q, norad_ids[i]);
        proof {
            reveal_strlit(",");
            assert(","@ =~= seq![',']);
            lemma_comma_join_step(norad_ids@, i as int);
            assert(q@ =~= query_prefix() + comma_join(norad_ids@.take(i + 1)));
        }
        i += 1;
    }
    proof {
        assert(norad_ids@.take(norad_ids@.len() as int) =~= norad_ids@);
    }
    q.append("/orderby/TLE_LINE1%20ASC/format/json");
    proof {
        assert(q@ =~= spec_query(norad_ids@));
    }
    q
}

} // verus!
