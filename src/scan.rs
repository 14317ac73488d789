//! Byte-level scanners: nesting depth over configurable delimiter classes and
//! plain occurrence counting.

use vstd::prelude::*;

verus! {

/// The byte `(`.
pub const LPAREN: u8 = 0x28;

/// The byte `)`.
pub const RPAREN: u8 = 0x29;

/// The byte `[`.
pub const LBRACKET: u8 = 0x5B;

/// The byte `]`.
pub const RBRACKET: u8 = 0x5D;

/// The byte `{`.
pub const LBRACE: u8 = 0x7B;

/// The byte `}`.
pub const RBRACE: u8 = 0x7D;

/// The byte `<`.
pub const LANGLE: u8 = 0x3C;

/// The byte `>`.
pub const RANGLE: u8 = 0x3E;

/// The byte `#`.
pub const HASH: u8 = 0x23;

/// The byte `!`.
pub const BANG: u8 = 0x21;

/// The byte `|`.
pub const PIPE: u8 = 0x7C;

/// The byte `&`.
pub const AMPERSAND: u8 = 0x26;

/// The byte `"`.
pub const DQUOTE: u8 = 0x22;

/// The byte `:`.
pub const COLON: u8 = 0x3A;

/// The byte `=`.
pub const EQUALS: u8 = 0x3D;

/// The byte `?`.
pub const QUESTION: u8 = 0x3F;

/// One step of the depth tracker: an opener raises the depth, a closer lowers
/// it but never below zero, any other byte leaves it alone.
pub open spec fn depth_step(d: nat, b: u8, opens: Seq<u8>, closes: Seq<u8>) -> nat {
    if opens.contains(b) {
        d + 1
    } else if closes.contains(b) {
        if d > 0 {
            (d - 1) as nat
        } else {
            0
        }
    } else {
        d
    }
}

/// The nesting depth reached after reading all of `t`, starting from depth zero.
pub open spec fn depth_after(t: Seq<u8>, opens: Seq<u8>, closes: Seq<u8>) -> nat
    decreases t.len(),
{
    if t.len() == 0 {
        0
    } else {
        depth_step(depth_after(t.drop_last(), opens, closes), t.last(), opens, closes)
    }
}

/// The largest depth reached at any point while reading `t`.
pub open spec fn max_depth(t: Seq<u8>, opens: Seq<u8>, closes: Seq<u8>) -> nat
    decreases t.len(),
{
    if t.len() == 0 {
        0
    } else {
        let prev = max_depth(t.drop_last(), opens, closes);
        let here = depth_after(t, opens, closes);
        if prev >= here {
            prev
        } else {
            here
        }
    }
}

/// How many bytes of `t` belong to `set`.
pub open spec fn count_in(t: Seq<u8>, set: Seq<u8>) -> nat
    decreases t.len(),
{
    if t.len() == 0 {
        0
    } else {
        count_in(t.drop_last(), set) + if set.contains(t.last()) {
            1nat
        } else {
            0nat
        }
    }
}

/// Whether `n` occurs in `t` starting at byte `i`.
pub open spec fn occurs_at(t: Seq<u8>, n: Seq<u8>, i: int) -> bool {
    0 <= i && i + n.len() <= t.len() && t.subrange(i, i + n.len()) == n
}

/// Leftmost, non-overlapping matches of `n` in `t` from position `i` on: after
/// a match the search resumes right after it. An empty needle has no matches.
pub open spec fn count_from(t: Seq<u8>, n: Seq<u8>, i: int) -> nat
    decreases t.len() + 1 - i,
{
    if n.len() == 0 || i < 0 || i + n.len() > t.len() {
        0
    } else if occurs_at(t, n, i) {
        1 + count_from(t, n, i + n.len())
    } else {
        count_from(t, n, i + 1)
    }
}

/// The number of non-overlapping occurrences of `n` in `t`.
pub open spec fn occurrences(t: Seq<u8>, n: Seq<u8>) -> nat {
    count_from(t, n, 0)
}

/// The primary bracket classes: round, square and curly openers.
pub open spec fn bracket_opens() -> Seq<u8> {
    seq![LPAREN, LBRACKET, LBRACE]
}

/// The closers matching `bracket_opens`.
pub open spec fn bracket_closes() -> Seq<u8> {
    seq![RPAREN, RBRACKET, RBRACE]
}

/// The depth at the end of a text is never above the deepest point reached.
pub proof fn lemma_depth_le_max(t: Seq<u8>, opens: Seq<u8>, closes: Seq<u8>)
    ensures
        depth_after(t, opens, closes) <= max_depth(t, opens, closes),
{
}

/// Reading more text never lowers the deepest point reached so far.
pub proof fn lemma_max_depth_prefix(t: Seq<u8>, j: int, opens: Seq<u8>, closes: Seq<u8>)
    requires
        0 <= j <= t.len(),
    ensures
        max_depth(t.take(j), opens, closes) <= max_depth(t, opens, closes),
    decreases t.len(),
{
    if j < t.len() {
        assert(t.drop_last().take(j) =~= t.take(j));
        lemma_max_depth_prefix(t.drop_last(), j, opens, closes);
    } else {
        assert(t.take(j) =~= t);
    }
}

/// Every depth passed through while reading `t` is at most its deepest point.
pub proof fn lemma_prefix_depth_le_max(t: Seq<u8>, j: int, opens: Seq<u8>, closes: Seq<u8>)
    requires
        0 <= j <= t.len(),
    ensures
        depth_after(t.take(j), opens, closes) <= max_depth(t, opens, closes),
{
    lemma_depth_le_max(t.take(j), opens, closes);
    lemma_max_depth_prefix(t, j, opens, closes);
}

/// Whether `b` is one of the bytes of `set`.
pub fn byte_in(set: &[u8], b: u8) -> (r: bool)
    ensures
        r == set@.contains(b),
{
    let mut i: usize = 0;
    while i < set.len()
        invariant
            i <= set@.len(),
            forall|j: int| 0 <= j < i ==> set@[j] != b,
        decreases set@.len() - i,
    {
        if set[i] == b {
            return true;
        }
        i += 1;
    }
    false
}

/// The deepest nesting reached in `text`, where each byte of `opens` opens a
/// level and each byte of `closes` closes one. Unbalanced closers never take
/// the depth below zero. A byte in both classes counts as an opener.
pub fn max_nesting(text: &[u8], opens: &[u8], closes: &[u8]) -> (r: usize)
    ensures
        r == max_depth(text@, opens@, closes@),
{
    let mut highest: usize = 0;
    let mut current: usize = 0;
    let mut i: usize = 0;
    while i < text.len()
        invariant
            i <= text@.len(),
            current <= i,
            highest <= i,
            current == depth_after(text@.take(i as int), opens@, closes@),
            highest == max_depth(text@.take(i as int), opens@, closes@),
        decreases text@.len() - i,
    {
        let b = text[i];
        proof {
            assert(text@.take(i + 1).drop_last() =~= text@.take(i as int));
        }
        if byte_in(opens, b) {
            current += 1;
            if highest < current {
                highest = current;
            }
        } else if byte_in(closes, b) {
            current = current.saturating_sub(1);
        }
        i += 1;
    }
    proof {
        assert(text@.take(i as int) =~= text@);
    }
    highest
}

/// How many bytes of `text` belong to `set`.
pub fn count_bytes_in(text: &[u8], set: &[u8]) -> (r: usize)
    ensures
        r == count_in(text@, set@),
{
    let mut ct: usize = 0;
    let mut i: usize = 0;
    while i < text.len()
        invariant
            i <= text@.len(),
            ct <= i,
            ct == count_in(text@.take(i as int), set@),
        decreases text@.len() - i,
    {
        proof {
            assert(text@.take(i + 1).drop_last() =~= text@.take(i as int));
        }
        if byte_in(set, text[i]) {
            ct += 1;
        }
        i += 1;
    }
    proof {
        assert(text@.take(i as int) =~= text@);
    }
    ct
}

/// Whether `needle` occurs in `text` starting at byte `i`.
pub fn matches_at(text: &[u8], needle: &[u8], i: usize) -> (r: bool)
    ensures
        r == occurs_at(text@, needle@, i as int),
{
    if i > text.len() || needle.len() > text.len() - i {
        return false;
    }
    let mut k: usize = 0;
    while k < needle.len()
        invariant
            i + needle@.len() <= text@.len(),
            text@.len() == text.len(),
            k <= needle@.len(),
            forall|j: int| 0 <= j < k ==> text@[i + j] == needle@[j],
        decreases needle@.len() - k,
    {
        if text[i + k] != needle[k] {
            proof {
                assert(text@.subrange(i as int, i + needle@.len())[k as int] != needle@[k as int]);
            }
            return false;
        }
        k += 1;
    }
    proof {
        assert(text@.subrange(i as int, i + needle@.len()) =~= needle@);
    }
    true
}

/// The number of non-overlapping occurrences of `needle` in `text`, found
/// from left to right. An empty needle is counted as occurring nowhere.
pub fn count_occurrences(text: &[u8], needle: &[u8]) -> (r: usize)
    ensures
        r == occurrences(text@, needle@),
{
    if needle.len() == 0 {
        return 0;
    }
    let mut ct: usize = 0;
    let mut i: usize = 0;
    while i <= text.len() && needle.len() <= text.len() - i
        invariant
            needle@.len() > 0,
            ct <= i,
            ct + count_from(text@, needle@, i as int) == occurrences(text@, needle@),
        decreases text@.len() + 1 - i,
    {
        if matches_at(text, needle, i) {
            ct += 1;
            i += needle.len();
        } else {
            i += 1;
        }
    }
    ct
}

} // verus!
