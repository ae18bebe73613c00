//! Whitespace trimming over character sequences.
//!
//! Stored connection addresses, verification tokens and HTTP bodies are all
//! compared after surrounding whitespace is removed; `trimmed` is the single
//! definition of that normalisation, and `trim_of` computes it.

use vstd::prelude::*;

verus! {

/// The whitespace characters that may surround a stored record or an
/// HTTP body: blank, tab, line feed and carriage return.
pub open spec fn is_space(c: char) -> bool {
    c == ' ' || c == '\t' || c == '\n' || c == '\r'
}

/// `s` with every leading whitespace character removed.
pub open spec fn ltrimmed(s: Seq<char>) -> Seq<char>
    decreases s.len(),
{
    if s.len() > 0 && is_space(s[0]) {
        ltrimmed(s.drop_first())
    } else {
        s
    }
}

/// `s` with every trailing whitespace character removed.
pub open spec fn rtrimmed(s: Seq<char>) -> Seq<char>
    decreases s.len(),
{
    if s.len() > 0 && is_space(s[s.len() - 1]) {
        rtrimmed(s.drop_last())
    } else {
        s
    }
}

/// `s` with all surrounding whitespace removed.
pub open spec fn trimmed(s: Seq<char>) -> Seq<char> {
    rtrimmed(ltrimmed(s))
}

proof fn lemma_ltrimmed_subrange(s: Seq<char>, k: int)
    requires
        0 <= k <= s.len(),
        forall|i: int| 0 <= i < k ==> is_space(s[i]),
        k < s.len() ==> !is_space(s[k]),
    ensures
        ltrimmed(s) == s.subrange(k, s.len() as int),
    decreases k,
{
    if k == 0 {
        assert(s.subrange(0, s.len() as int) =~= s);
    } else {
        let rest = s.drop_first();
        assert forall|i: int| 0 <= i < k - 1 implies is_space(rest[i]) by {
            assert(rest[i] == s[i + 1]);
        }
        lemma_ltrimmed_subrange(rest, k - 1);
        assert(rest.subrange(k - 1, rest.len() as int) =~= s.subrange(k, s.len() as int));
    }
}

proof fn lemma_rtrimmed_subrange(s: Seq<char>, k: int)
    requires
        0 <= k <= s.len(),
        forall|i: int| k <= i < s.len() ==> is_space(s[i]),
        k > 0 ==> !is_space(s[k - 1]),
    ensures
        rtrimmed(s) == s.subrange(0, k),
    decreases s.len(),
{
    if k == s.len() {
        assert(s.subrange(0, k) =~= s);
    } else {
        let head = s.drop_last();
        lemma_rtrimmed_subrange(head, k);
        assert(head.subrange(0, k) =~= s.subrange(0, k));
    }
}

/// Removing trailing whitespace keeps a prefix of the sequence.
proof fn lemma_rtrimmed_prefix(s: Seq<char>)
    ensures
        rtrimmed(s).len() <= s.len(),
        rtrimmed(s) == s.subrange(0, rtrimmed(s).len() as int),
    decreases s.len(),
{
    if s.len() > 0 && is_space(s[s.len() - 1]) {
        let head = s.drop_last();
        lemma_rtrimmed_prefix(head);
        assert(head.subrange(0, rtrimmed(head).len() as int) =~= s.subrange(
            0,
            rtrimmed(head).len() as int,
        ));
    } else {
        assert(s.subrange(0, s.len() as int) =~= s);
    }
}

/// A sequence with leading whitespace removed does not start with whitespace.
proof fn lemma_ltrimmed_no_lead(s: Seq<char>)
    ensures
        ltrimmed(s).len() > 0 ==> !is_space(ltrimmed(s)[0]),
    decreases s.len(),
{
    if s.len() > 0 && is_space(s[0]) {
        lemma_ltrimmed_no_lead(s.drop_first());
    }
}

/// A sequence with trailing whitespace removed does not end with whitespace.
proof fn lemma_rtrimmed_no_trail(s: Seq<char>)
    ensures
        rtrimmed(s).len() > 0 ==> !is_space(rtrimmed(s)[rtrimmed(s).len() - 1]),
    decreases s.len(),
{
    if s.len() > 0 && is_space(s[s.len() - 1]) {
        lemma_rtrimmed_no_trail(s.drop_last());
    }
}

/// Trimming is idempotent: a trimmed sequence trims to itself.
pub proof fn lemma_trimmed_idempotent(s: Seq<char>)
    ensures
        trimmed(trimmed(s)) == trimmed(s),
{
    let lt = ltrimmed(s);
    let t = trimmed(s);
    lemma_ltrimmed_no_lead(s);
    lemma_rtrimmed_no_trail(s);
    lemma_rtrimmed_prefix(lt);
    if t.len() > 0 {
        assert(t[0] == lt[0]);
        assert(!is_space(t[0]));
        assert(ltrimmed(t) == t);
        lemma_rtrimmed_no_trail(lt);
        assert(!is_space(t[t.len() - 1]));
        assert(rtrimmed(t) == t);
    } else {
        assert(ltrimmed(t) == t);
        assert(rtrimmed(t) == t);
    }
}

fn is_space_char(c: char) -> (b: bool)
    ensures
        b == is_space(c),
{
    c == ' ' || c == '\t' || c == '\n' || c == '\r'
}

/// A copy of `s` with all surrounding whitespace removed.
pub fn trim_of(s: &str) -> (r: String)
    ensures
        r@ == trimmed(s@),
{
    let n = s.unicode_len();
    let mut lo: usize = 0;
    while lo < n && is_space_char(s.get_char(lo))
        invariant
            n == s@.len(),
            lo <= n,
            forall|i: int| 0 <= i < lo ==> is_space(s@[i]),
        decreases n - lo,
    {
        lo = lo + 1;
    }
    let mut hi: usize = n;
    while hi > lo && is_space_char(s.get_char(hi - 1))
        invariant
            n == s@.len(),
            lo <= hi <= n,
            forall|i: int| hi <= i < n ==> is_space(s@[i]),
        decreases hi,
    {
        hi = hi - 1;
    }
    let sub = s.substring_char(lo, hi);
    proof {
        lemma_ltrimmed_subrange(s@, lo as int);
        let mid = s@.subrange(lo as int, s@.len() as int);
        assert forall|i: int| hi - lo <= i < mid.len() implies is_space(mid[i]) by {
            assert(mid[i] == s@[lo + i]);
        }
        lemma_rtrimmed_subrange(mid, hi - lo);
        assert(mid.subrange(0, hi - lo) =~= s@.subrange(lo as int, hi as int));
    }
    sub.to_owned()
}

} // verus!
