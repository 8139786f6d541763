//! Building text: decimal numerals, joining, and comparing strings.
use vstd::prelude::*;

verus! {

/// The numeral of a single decimal digit.
pub open spec fn digit_text(d: nat) -> Seq<char> {
    if d == 0 { "0"@ } else if d == 1 { "1"@ } else if d == 2 { "2"@ } else if d == 3 { "3"@ }
    else if d == 4 { "4"@ } else if d == 5 { "5"@ } else if d == 6 { "6"@ } else if d == 7 { "7"@ }
    else if d == 8 { "8"@ } else { "9"@ }
}

/// The decimal numeral of a natural number, without leading zeros.
pub open spec fn dec(n: nat) -> Seq<char>
    decreases n,
{
    if n < 10 {
        digit_text(n)
    } else {
        dec(n / 10) + digit_text(n % 10)
    }
}

/// The decimal numeral of an integer, with a leading `-` when it is negative.
pub open spec fn int_dec(i: int) -> Seq<char> {
    if i < 0 { "-"@ + dec((-i) as nat) } else { dec(i as nat) }
}

/// The parts joined with the separator between each two neighbours.
pub open spec fn join(parts: Seq<Seq<char>>, sep: Seq<char>) -> Seq<char>
    decreases parts.len(),
{
    if parts.len() == 0 {
        Seq::empty()
    } else if parts.len() == 1 {
        parts[0]
    } else {
        join(parts.drop_last(), sep) + sep + parts.last()
    }
}

fn digit_str(d: u64) -> (s: &'static str)
    requires
        d < 10,
    ensures
        s@ == digit_text(d as nat),
{
    if d == 0 { "0" } else if d == 1 { "1" } else if d == 2 { "2" } else if d == 3 { "3" }
    else if d == 4 { "4" } else if d == 5 { "5" } else if d == 6 { "6" } else if d == 7 { "7" }
    else if d == 8 { "8" } else { "9" }
}

/// Appends the decimal numeral of `n`.
pub fn push_dec(out: &mut String, n: u64)
    ensures
        final(out)@ == old(out)@ + dec(n as nat),
    decreases n,
{
    if n < 10 {
        out.append(digit_str(n));
    } else {
        push_dec(out, n / 10);
        out.append(digit_str(n % 10));
        proof {
            assert(old(out)@ + dec(n as nat) =~= old(out)@ + dec((n / 10) as nat) + digit_text((n % 10) as nat));
        }
    }
}

/// Appends the decimal numeral of `i`, with a `-` when it is negative.
pub fn push_int(out: &mut String, i: i64)
    requires
        i > i64::MIN,
    ensures
        final(out)@ == old(out)@ + int_dec(i as int),
{
    if i < 0 {
        out.append("-");
        push_dec(out, (-i) as u64);
        proof {
            assert(old(out)@ + int_dec(i as int) =~= old(out)@ + "-"@ + dec((-i) as nat));
        }
    } else {
        push_dec(out, i as u64);
    }
}

/// A new string holding the given text.
pub fn text(s: &str) -> (r: String)
    ensures
        r@ == s@,
{
    String::from_str(s)
}

/// Appends a string.
pub fn push(out: &mut String, s: &str)
    ensures
        final(out)@ == old(out)@ + s@,
{
    out.append(s);
}

/// Joins the parts with the separator between each two neighbours.
pub fn join_strings(parts: &Vec<String>, sep: &str) -> (r: String)
    ensures
        r@ == join(parts.deep_view(), sep@),
{
    let mut r = String::new();
    let n = parts.len();
    let ghost dv = parts.deep_view();
    let mut i: usize = 0;
    while i < n
        invariant
            n == parts.len(),
            dv == parts.deep_view(),
            dv.len() == n,
            0 <= i <= n,
            r@ == join(dv.take(i as int), sep@),
        decreases n - i,
    {
        proof {
            assert(dv.take(i + 1).drop_last() =~= dv.take(i as int));
            assert(dv[i as int] == parts[i as int]@);
        }
        if i > 0 {
            r.append(sep);
        } else {
            assert(r@ =~= Seq::<char>::empty());
        }
        r.append(parts[i].as_str());
        proof {
            if i == 0 {
                assert(r@ =~= dv.take(1)[0]);
            }
        }
        i = i + 1;
    }
    assert(dv.take(n as int) =~= dv);
    r
}

/// Whether two strings are equal.
pub fn str_eq(a: &str, b: &str) -> (r: bool)
    ensures
        r == (a@ == b@),
{
    let x = String::from_str(a);
    let y = String::from_str(b);
    x == y
}

} // verus!
