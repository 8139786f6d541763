//! Reading the `#[cell(..)]` attribute and the name of the type it is
//! applied to.
use vstd::prelude::*;
use vstd::string::StrSliceExecFns;
use crate::ast::{ErrorView, MacroError, SpanId, err_at};
use crate::layout::{TypeKind, TypeRef};
use crate::lower::Neighborhood;
use crate::text::{push, str_eq, text};

verus! {

// ---------------------------------------------------------------------------
// Text of the attribute
// ---------------------------------------------------------------------------

/// The characters with the Unicode `White_Space` property.
pub open spec fn is_white(c: char) -> bool {
    ||| ('\u{9}' <= c && c <= '\u{d}')
    ||| c == ' '
    ||| c == '\u{85}'
    ||| c == '\u{a0}'
    ||| c == '\u{1680}'
    ||| ('\u{2000}' <= c && c <= '\u{200a}')
    ||| c == '\u{2028}'
    ||| c == '\u{2029}'
    ||| c == '\u{202f}'
    ||| c == '\u{205f}'
    ||| c == '\u{3000}'
}

/// The first index at or after `i` that holds no white space.
pub open spec fn skip_white(s: Seq<char>, i: int) -> int
    decreases s.len() - i,
{
    if 0 <= i < s.len() && is_white(s[i]) { skip_white(s, i + 1) } else { i }
}

/// The end of `s[lo..j]` without its trailing white space.
pub open spec fn skip_white_back(s: Seq<char>, lo: int, j: int) -> int
    decreases j - lo,
{
    if lo < j && is_white(s[j - 1]) { skip_white_back(s, lo, j - 1) } else { j }
}

/// `s` without leading and trailing white space.
pub open spec fn trimmed(s: Seq<char>) -> Seq<char> {
    let a = skip_white(s, 0);
    s.subrange(a, skip_white_back(s, a, s.len() as int))
}

/// `s` with every space character removed.
pub open spec fn without_spaces(s: Seq<char>) -> Seq<char>
    decreases s.len(),
{
    if s.len() == 0 {
        s
    } else if s.last() == ' ' {
        without_spaces(s.drop_last())
    } else {
        without_spaces(s.drop_last()).push(s.last())
    }
}

pub open spec fn is_digit(c: char) -> bool {
    '0' <= c && c <= '9'
}

/// The value of a numeral of decimal digits.
pub open spec fn digits_value(d: Seq<char>) -> nat
    decreases d.len(),
{
    if d.len() == 0 { 0 } else { digits_value(d.drop_last()) * 10 + ((d.last() as int - '0' as int) as nat) }
}

/// The digits part of a numeral: without one leading `+`.
pub open spec fn unsigned_digits(s: Seq<char>) -> Seq<char> {
    if s.len() > 0 && s[0] == '+' { s.drop_first() } else { s }
}

/// What `str::parse::<u32>` accepts: an optional `+` and one or more
/// decimal digits whose value fits in a `u32`.
pub open spec fn parse_u32_text(s: Seq<char>) -> Option<u32> {
    let d = unsigned_digits(s);
    if d.len() > 0 && (forall|i: int| 0 <= i < d.len() ==> is_digit(#[trigger] d[i])) && digits_value(d) <= u32::MAX {
        Some(digits_value(d) as u32)
    } else {
        None
    }
}

pub open spec fn invalid_radius_text(n: Seq<char>) -> Seq<char> {
    "cellarium: invalid radius '"@ + n + "'. Expected a positive integer."@
}

pub open spec fn unknown_neighborhood_text(rest: Seq<char>) -> Seq<char> {
    "cellarium: unknown neighborhood '"@ + rest + "'. Expected moore, von_neumann, or radius(N)."@
}

pub open spec fn unknown_parameter_text(s: Seq<char>) -> Seq<char> {
    "cellarium: unknown attribute parameter '"@ + s + "'. Expected 'neighborhood = ...'."@
}

/// The neighbourhood that the attribute text `attr` selects; errors are
/// reported at `site`.
pub open spec fn neighborhood_of(attr: Seq<char>, site: SpanId) -> Result<Neighborhood, ErrorView> {
    let t = trimmed(attr);
    if t.len() == 0 {
        Ok(Neighborhood::Moore)
    } else {
        let s = without_spaces(t);
        let key = "neighborhood="@;
        if s.len() >= key.len() && s.take(key.len() as int) == key {
            let rest = s.skip(key.len() as int);
            if rest == "moore"@ {
                Ok(Neighborhood::Moore)
            } else if rest == "von_neumann"@ {
                Ok(Neighborhood::VonNeumann)
            } else if rest.len() >= 7 && rest.take(7) == "radius("@ && rest.last() == ')' {
                let n = rest.subrange(7, rest.len() - 1);
                match parse_u32_text(n) {
                    Some(v) => Ok(Neighborhood::Radius(v)),
                    None => Err(err_at(site, invalid_radius_text(n))),
                }
            } else {
                Err(err_at(site, unknown_neighborhood_text(rest)))
            }
        } else {
            Err(err_at(site, unknown_parameter_text(s)))
        }
    }
}

fn white(c: char) -> (r: bool)
    ensures
        r == is_white(c),
{
    ('\u{9}' <= c && c <= '\u{d}') || c == ' ' || c == '\u{85}' || c == '\u{a0}' || c == '\u{1680}'
        || ('\u{2000}' <= c && c <= '\u{200a}') || c == '\u{2028}' || c == '\u{2029}' || c == '\u{202f}'
        || c == '\u{205f}' || c == '\u{3000}'
}

/// The text without leading and trailing white space.
pub fn trim(s: &str) -> (r: &str)
    ensures
        r@ == trimmed(s@),
{
    let n = s.unicode_len();
    let mut a: usize = 0;
    while a < n && white(s.get_char(a))
        invariant
            n == s@.len(),
            0 <= a <= n,
            skip_white(s@, 0) == skip_white(s@, a as int),
        decreases n - a,
    {
        a = a + 1;
    }
    let mut b: usize = n;
    while b > a && white(s.get_char(b - 1))
        invariant
            n == s@.len(),
            a == skip_white(s@, 0),
            a <= b <= n,
            skip_white_back(s@, a as int, n as int) == skip_white_back(s@, a as int, b as int),
        decreases b,
    {
        b = b - 1;
    }
    s.substring_char(a, b)
}

/// The text with every space removed.
pub fn remove_spaces(s: &str) -> (r: String)
    ensures
        r@ == without_spaces(s@),
{
    let n = s.unicode_len();
    let mut out = String::new();
    let mut i: usize = 0;
    while i < n
        invariant
            n == s@.len(),
            0 <= i <= n,
            out@ == without_spaces(s@.take(i as int)),
        decreases n - i,
    {
        proof { assert(s@.take(i as int + 1).drop_last() =~= s@.take(i as int)); }
        let c = s.get_char(i);
        if c != ' ' {
            push(&mut out, s.substring_char(i, i + 1));
            proof { assert(s@.subrange(i as int, i as int + 1) =~= seq![c]); }
        }
        i = i + 1;
    }
    assert(s@.take(n as int) =~= s@);
    out
}

proof fn lemma_digits_prefix(d: Seq<char>, k: int)
    requires
        0 <= k <= d.len(),
        forall|i: int| 0 <= i < d.len() ==> is_digit(#[trigger] d[i]),
    ensures
        digits_value(d.take(k)) <= digits_value(d),
    decreases d.len() - k,
{
    if k < d.len() {
        lemma_digits_prefix(d, k + 1);
        assert(d.take(k + 1).drop_last() =~= d.take(k));
        assert(is_digit(d[k]));
    } else {
        assert(d.take(k) =~= d);
    }
}

/// Parses a `u32` as `str::parse` does (see [`parse_u32_text`]).
pub fn parse_u32(s: &str) -> (r: Option<u32>)
    ensures
        r == parse_u32_text(s@),
{
    let n = s.unicode_len();
    let start: usize = if n > 0 && s.get_char(0) == '+' { 1 } else { 0 };
    let ghost d = unsigned_digits(s@);
    assert(d =~= s@.skip(start as int));
    if start >= n {
        return None;
    }
    let mut i: usize = start;
    while i < n
        invariant
            n == s@.len(),
            start <= i <= n,
            d =~= s@.skip(start as int),
            d == unsigned_digits(s@),
            forall|k: int| 0 <= k < i - start ==> is_digit(#[trigger] d[k]),
        decreases n - i,
    {
        let c = s.get_char(i);
        if !('0' <= c && c <= '9') {
            proof {
                assert(d[i - start] == s@[i as int]);
                assert(!is_digit(d[i - start]));
            }
            return None;
        }
        i = i + 1;
    }
    let mut v: u64 = 0;
    let mut j: usize = start;
    while j < n
        invariant
            n == s@.len(),
            start <= j <= n,
            d =~= s@.skip(start as int),
            d == unsigned_digits(s@),
            forall|k: int| 0 <= k < d.len() ==> is_digit(#[trigger] d[k]),
            v == digits_value(d.take(j - start)),
            v <= u32::MAX,
        decreases n - j,
    {
        let c = s.get_char(j);
        proof {
            assert(d.take(j - start + 1).drop_last() =~= d.take(j - start));
            assert(d[j - start] == s@[j as int]);
            assert(d.take(j - start + 1).last() == c);
            assert(is_digit(c));
        }
        let digit = (c as u32 - '0' as u32) as u64;
        v = v * 10 + digit;
        assert(v == digits_value(d.take(j - start + 1)));
        if v > 0xffff_ffff {
            proof { lemma_digits_prefix(d, j - start + 1); }
            return None;
        }
        j = j + 1;
    }
    assert(d.take(n - start) =~= d);
    Some(v as u32)
}

fn fail_at(site: SpanId, pre: &str, mid: &str, post: &str) -> (e: MacroError)
    ensures
        e@ == err_at(site, pre@ + mid@ + post@),
{
    let mut m = text(pre);
    push(&mut m, mid);
    push(&mut m, post);
    MacroError::new(site, m)
}

/// Reads the neighbourhood from the text of the `#[cell(..)]` attribute
/// (see [`neighborhood_of`]); errors are reported at `call_site`.
pub fn parse_neighborhood(attr: &str, call_site: SpanId) -> (r: Result<Neighborhood, MacroError>)
    ensures
        match r {
            Ok(n) => neighborhood_of(attr@, call_site) == Ok::<Neighborhood, ErrorView>(n),
            Err(e) => neighborhood_of(attr@, call_site) == Err::<Neighborhood, ErrorView>(e@),
        },
{
    let t = trim(attr);
    if t.unicode_len() == 0 {
        return Ok(Neighborhood::Moore);
    }
    let s = remove_spaces(t);
    let ss = s.as_str();
    let n = ss.unicode_len();
    proof {
        reveal_strlit("neighborhood=");
        reveal_strlit("radius(");
    }
    if n >= 13 && str_eq(ss.substring_char(0, 13), "neighborhood=") {
        let rest = ss.substring_char(13, n);
        assert(rest@ =~= ss@.skip(13));
        let m = rest.unicode_len();
        if str_eq(rest, "moore") {
            Ok(Neighborhood::Moore)
        } else if str_eq(rest, "von_neumann") {
            Ok(Neighborhood::VonNeumann)
        } else if m >= 7 && str_eq(rest.substring_char(0, 7), "radius(") && rest.get_char(m - 1) == ')' {
            proof {
                assert(rest@.take(7) =~= rest@.subrange(0, 7));
                assert(rest@[6] == "radius("@[6]);
            }
            let n_str = rest.substring_char(7, m - 1);
            match parse_u32(n_str) {
                Some(v) => Ok(Neighborhood::Radius(v)),
                None => Err(fail_at(call_site, "cellarium: invalid radius '", n_str, "'. Expected a positive integer.")),
            }
        } else {
            proof {
                if m >= 7 {
                    assert(rest@.take(7) =~= rest@.subrange(0, 7));
                }
            }
            Err(fail_at(call_site, "cellarium: unknown neighborhood '", rest,
                "'. Expected moore, von_neumann, or radius(N)."))
        }
    } else {
        proof {
            if n >= 13 {
                assert(ss@.take(13) =~= ss@.subrange(0, 13));
            }
        }
        Err(fail_at(call_site, "cellarium: unknown attribute parameter '", ss, "'. Expected 'neighborhood = ...'."))
    }
}

// ---------------------------------------------------------------------------
// The implementing type
// ---------------------------------------------------------------------------

/// The name of the type an impl block is for: the last segment of its path.
pub open spec fn self_type_name_of(t: TypeRef) -> Result<Seq<char>, ErrorView> {
    match t.kind {
        TypeKind::Path(segs) => if segs@.len() == 0 {
            Err(err_at(t.span, "cellarium: cannot determine struct name"@))
        } else {
            Ok(segs@.last()@)
        },
        TypeKind::Other(_) => Err(err_at(t.span, "cellarium: expected a named type"@)),
    }
}

/// The name of the type an impl block is for (see [`self_type_name_of`]).
pub fn extract_self_type_name(self_ty: &TypeRef) -> (r: Result<String, MacroError>)
    ensures
        match r {
            Ok(n) => self_type_name_of(*self_ty) == Ok::<Seq<char>, ErrorView>(n@),
            Err(e) => self_type_name_of(*self_ty) == Err::<Seq<char>, ErrorView>(e@),
        },
{
    match &self_ty.kind {
        TypeKind::Path(segs) => {
            let n = segs.len();
            if n == 0 {
                Err(MacroError::new(self_ty.span, text("cellarium: cannot determine struct name")))
            } else {
                Ok(segs[n - 1].clone())
            }
        }
        TypeKind::Other(_) => Err(MacroError::new(self_ty.span, text("cellarium: expected a named type"))),
    }
}

} // verus!
