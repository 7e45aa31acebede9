//! Small string helpers shared by the configuration and planning modules.

use vstd::prelude::*;

verus! {

/// Relies on String::push: appends exactly one character at the end.
#[verifier::external_body]
pub(crate) fn push_char(s: &mut String, c: char)
    ensures
        final(s)@ == old(s)@.push(c),
{
    s.push(c);
}

/// Compare two string slices by content.
pub fn str_eq(a: &str, b: &str) -> (r: bool)
    ensures
        r == (a@ == b@),
{
    let x: String = a.to_owned();
    let y: String = b.to_owned();
    x == y
}

/// `s` with every occurrence of `from` replaced by `to`.
pub open spec fn seq_replace(s: Seq<char>, from: char, to: char) -> Seq<char> {
    s.map_values(|c: char| if c == from { to } else { c })
}

/// `s` with every occurrence of `ch` removed; defined left to right over the
/// first `n` characters.
pub open spec fn seq_strip_prefix(s: Seq<char>, ch: char, n: int) -> Seq<char>
    decreases n,
{
    if n <= 0 {
        Seq::empty()
    } else if s[n - 1] == ch {
        seq_strip_prefix(s, ch, n - 1)
    } else {
        seq_strip_prefix(s, ch, n - 1).push(s[n - 1])
    }
}

/// `s` with every occurrence of `ch` removed.
pub open spec fn seq_strip(s: Seq<char>, ch: char) -> Seq<char> {
    seq_strip_prefix(s, ch, s.len() as int)
}

/// `s` ends with `suffix`.
pub open spec fn seq_ends_with(s: Seq<char>, suffix: Seq<char>) -> bool {
    &&& suffix.len() <= s.len()
    &&& s.subrange(s.len() - suffix.len(), s.len() as int) == suffix
}

/// A copy of `s` in which every `from` character is replaced by `to`.
pub fn replace_char(s: &str, from: char, to: char) -> (r: String)
    ensures
        r@ == seq_replace(s@, from, to),
{
    let n: usize = s.unicode_len();
    let mut out: String = String::new();
    let mut i: usize = 0;
    while i < n
        invariant
            n == s@.len(),
            i <= n,
            out@ == seq_replace(s@.subrange(0, i as int), from, to),
        decreases n - i,
    {
        let c = s.get_char(i);
        if c == from {
            push_char(&mut out, to);
        } else {
            push_char(&mut out, c);
        }
        proof {
            assert(seq_replace(s@.subrange(0, i + 1 as int), from, to) =~= seq_replace(
                s@.subrange(0, i as int),
                from,
                to,
            ).push(if s@[i as int] == from {
                to
            } else {
                s@[i as int]
            }));
        }
        i = i + 1;
    }
    proof {
        assert(s@.subrange(0, n as int) =~= s@);
    }
    out
}

/// A copy of `s` with every `ch` character removed.
pub fn strip_char(s: &str, ch: char) -> (r: String)
    ensures
        r@ == seq_strip(s@, ch),
{
    let n: usize = s.unicode_len();
    let mut out: String = String::new();
    let mut i: usize = 0;
    while i < n
        invariant
            n == s@.len(),
            i <= n,
            out@ == seq_strip_prefix(s@, ch, i as int),
        decreases n - i,
    {
        let c = s.get_char(i);
        if c != ch {
            push_char(&mut out, c);
        }
        i = i + 1;
    }
    out
}

} // verus!
