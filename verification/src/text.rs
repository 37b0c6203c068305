//! Character and string helpers: Unicode case mapping behind trusted
//! items, and equality and placeholder replacement against exact
//! sequence-level specs.

use vstd::prelude::*;

verus! {

/// What `str::to_lowercase` returns: the Unicode lowercase mapping of a
/// string, a function of its characters alone.
pub uninterp spec fn lower_of(s: Seq<char>) -> Seq<char>;

/// What `char::to_uppercase` returns: the Unicode uppercase mapping of
/// one character — one or more characters — a function of the character
/// alone.
pub uninterp spec fn upper_of(c: char) -> Seq<char>;

/// The display form of a stored name: the uppercase mapping of the
/// first character, then the rest unchanged.
pub open spec fn capitalize_seq(s: Seq<char>) -> Seq<char> {
    if s.len() == 0 {
        s
    } else {
        upper_of(s[0]) + s.skip(1)
    }
}

/// Relies on `String::push`: appends one character to the string.
#[verifier::external_body]
pub(crate) fn push_char(s: &mut String, c: char)
    ensures
        final(s)@ == old(s)@.push(c),
{
    s.push(c);
}

/// Relies on `str::to_lowercase`: the Unicode lowercase mapping, which
/// depends on the characters alone and is idempotent — lowering an
/// already-lowered string changes nothing.
#[verifier::external_body]
pub(crate) fn lowercase(s: &str) -> (r: String)
    ensures
        r@ == lower_of(s@),
        lower_of(r@) == r@,
{
    s.to_lowercase()
}

/// Relies on `char::to_uppercase`: the Unicode uppercase mapping of one
/// character, which yields one or more characters.
#[verifier::external_body]
fn char_uppercase(c: char) -> (r: String)
    ensures
        r@ == upper_of(c),
        r@.len() >= 1,
{
    c.to_uppercase().collect()
}

/// The display form of a stored name: its first character upper-cased
/// (possibly to several characters), the rest unchanged.
pub fn capitalize_first(s: &str) -> (r: String)
    ensures
        r@ == capitalize_seq(s@),
{
    let n = s.unicode_len();
    if n == 0 {
        let out = String::new();
        proof {
            assert(out@ =~= capitalize_seq(s@));
        }
        return out;
    }
    let mut out = char_uppercase(s.get_char(0));
    let ghost head = out@;
    let mut i: usize = 1;
    proof {
        assert(out@ =~= head + s@.subrange(1, 1));
    }
    while i < n
        invariant
            n == s@.len(),
            n >= 1,
            1 <= i <= n,
            out@ == head + s@.subrange(1, i as int),
        decreases n - i,
    {
        let c = s.get_char(i);
        push_char(&mut out, c);
        proof {
            assert(s@.subrange(1, i as int).push(s@[i as int]) =~= s@.subrange(1, i + 1));
            assert(out@ =~= head + s@.subrange(1, i + 1));
        }
        i = i + 1;
    }
    proof {
        assert(s@.subrange(1, n as int) =~= s@.skip(1));
        assert(out@ =~= capitalize_seq(s@));
    }
    out
}

/// Replacement of every non-overlapping occurrence of `pat` in `s` by
/// `val`, scanning left to right.
pub open spec fn replace_seq(s: Seq<char>, pat: Seq<char>, val: Seq<char>) -> Seq<char>
    decreases s.len(),
{
    if pat.len() == 0 || s.len() < pat.len() {
        s
    } else if s.take(pat.len() as int) == pat {
        val + replace_seq(s.skip(pat.len() as int), pat, val)
    } else {
        seq![s[0]] + replace_seq(s.skip(1), pat, val)
    }
}

/// Whether `pat` occurs in `s` starting at position `i`.
pub(crate) fn matches_at(s: &str, n: usize, i: usize, pat: &str, m: usize) -> (r: bool)
    requires
        n == s@.len(),
        m == pat@.len(),
        i <= n,
    ensures
        r == (i + m <= n && s@.subrange(i as int, i + m) == pat@),
{
    if m > n - i {
        return false;
    }
    let mut j: usize = 0;
    while j < m
        invariant
            n == s@.len(),
            m == pat@.len(),
            i + m <= n,
            j <= m,
            forall|k: int| 0 <= k < j ==> s@[i + k] == pat@[k],
        decreases m - j,
    {
        if s.get_char(i + j) != pat.get_char(j) {
            proof {
                assert(s@.subrange(i as int, i + m)[j as int] != pat@[j as int]);
            }
            return false;
        }
        j = j + 1;
    }
    proof {
        assert(s@.subrange(i as int, i + m) =~= pat@);
    }
    true
}

/// Replaces every occurrence of `pat` in `s` by `val`, left to right,
/// never rescanning replaced text.
pub fn replace(s: &str, pat: &str, val: &str) -> (r: String)
    requires
        pat@.len() > 0,
    ensures
        r@ == replace_seq(s@, pat@, val@),
{
    let n = s.unicode_len();
    let m = pat.unicode_len();
    let mut out = String::new();
    let mut i: usize = 0;
    proof {
        assert(s@.skip(0) =~= s@);
    }
    while i < n
        invariant
            n == s@.len(),
            m == pat@.len(),
            m > 0,
            i <= n,
            replace_seq(s@, pat@, val@) == out@ + replace_seq(s@.skip(i as int), pat@, val@),
        decreases n - i,
    {
        let ghost tail = s@.skip(i as int);
        if matches_at(s, n, i, pat, m) {
            proof {
                assert(tail.take(m as int) =~= s@.subrange(i as int, i + m));
                assert(tail.skip(m as int) =~= s@.skip(i + m));
                assert(replace_seq(tail, pat@, val@) == val@ + replace_seq(
                    s@.skip(i + m),
                    pat@,
                    val@,
                ));
            }
            out.append(val);
            i = i + m;
        } else {
            proof {
                if i + m <= n {
                    assert(tail.take(m as int) =~= s@.subrange(i as int, i + m));
                }
                assert(seq![tail[0]] =~= seq![s@[i as int]]);
                assert(tail.skip(1) =~= s@.skip(i + 1));
                assert(replace_seq(tail, pat@, val@) == seq![s@[i as int]] + replace_seq(
                    s@.skip(i + 1),
                    pat@,
                    val@,
                ));
            }
            let c = s.get_char(i);
            push_char(&mut out, c);
            i = i + 1;
        }
    }
    proof {
        assert(s@.skip(n as int) =~= Seq::<char>::empty());
        assert(replace_seq(s@.skip(n as int), pat@, val@) =~= Seq::<char>::empty());
        assert(out@ =~= out@ + Seq::<char>::empty());
    }
    out
}

/// Character-wise string equality, in terms of the views.
pub fn str_eq(a: &str, b: &str) -> (r: bool)
    ensures
        r == (a@ == b@),
{
    let na = a.unicode_len();
    let nb = b.unicode_len();
    if na != nb {
        proof {
            assert(a@ != b@);
        }
        return false;
    }
    let mut i: usize = 0;
    while i < na
        invariant
            na == a@.len(),
            na == b@.len(),
            i <= na,
            forall|j: int| 0 <= j < i ==> a@[j] == b@[j],
        decreases na - i,
    {
        if a.get_char(i) != b.get_char(i) {
            return false;
        }
        i = i + 1;
    }
    proof {
        assert(a@ =~= b@);
    }
    true
}

} // verus!
