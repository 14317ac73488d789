//! Which nesting depths carry macro syntax: a proxy for expansion blowup that,
//! unlike a raw count of macro bytes, tells nested uses from flat ones.

use vstd::prelude::*;
use vstd::string::StringSliceAdditionalSpecFns;
use crate::scan::{BANG, HASH, LBRACE, LBRACKET, LPAREN, RBRACE, RBRACKET, RPAREN, bracket_closes, bracket_opens, depth_after, lemma_depth_le_max, lemma_prefix_depth_le_max, max_depth};

verus! {

/// The bytes that mark macro, attribute or derive syntax.
pub open spec fn is_macro_byte(b: u8) -> bool {
    b == HASH || b == BANG
}

/// Whether, among the first `k` bytes of `t`, a macro byte stands at bracket
/// depth `d`.
pub open spec fn marked_within(t: Seq<u8>, k: int, d: nat) -> bool {
    exists|j: int|
        0 <= j < k && #[trigger] is_macro_byte(t[j]) && depth_after(t.take(j), bracket_opens(), bracket_closes()) == d
}

/// Whether a macro byte stands anywhere in `t` at bracket depth `d`.
pub open spec fn marked_depth(t: Seq<u8>, d: nat) -> bool {
    marked_within(t, t.len() as int, d)
}

/// How many of the depths below `k` are marked in `t`.
pub open spec fn marked_below(t: Seq<u8>, k: nat) -> nat
    decreases k,
{
    if k == 0 {
        0
    } else {
        marked_below(t, (k - 1) as nat) + if marked_depth(t, (k - 1) as nat) {
            1nat
        } else {
            0nat
        }
    }
}

/// The number of distinct bracket depths of `t` at which macro syntax occurs,
/// counted up to the deepest point (no depth beyond it can be marked, see
/// `lemma_marked_depth_within_max`).
pub open spec fn macro_level_count(t: Seq<u8>) -> nat {
    marked_below(t, max_depth(t, bracket_opens(), bracket_closes()) + 1)
}

/// A macro byte never stands deeper than the deepest point of the text.
pub proof fn lemma_marked_depth_within_max(t: Seq<u8>, d: nat)
    requires
        marked_depth(t, d),
    ensures
        d <= max_depth(t, bracket_opens(), bracket_closes()),
{
    let j = choose|j: int|
        0 <= j < t.len() && #[trigger] is_macro_byte(t[j]) && depth_after(t.take(j), bracket_opens(), bracket_closes()) == d;
    lemma_prefix_depth_le_max(t, j, bracket_opens(), bracket_closes());
}

proof fn lemma_marked_step(t: Seq<u8>, i: int, d: nat)
    requires
        0 <= i < t.len(),
    ensures
        marked_within(t, i + 1, d) == (marked_within(t, i, d) || (is_macro_byte(t[i])
            && depth_after(t.take(i), bracket_opens(), bracket_closes()) == d)),
{
    if marked_within(t, i + 1, d) {
        let j = choose|j: int|
            0 <= j < i + 1 && #[trigger] is_macro_byte(t[j]) && depth_after(t.take(j), bracket_opens(), bracket_closes()) == d;
        if j < i {
            assert(marked_within(t, i, d));
        }
    }
    if marked_within(t, i, d) {
        let j = choose|j: int|
            0 <= j < i && #[trigger] is_macro_byte(t[j]) && depth_after(t.take(j), bracket_opens(), bracket_closes()) == d;
        assert(marked_within(t, i + 1, d));
    }
    if is_macro_byte(t[i]) && depth_after(t.take(i), bracket_opens(), bracket_closes()) == d {
        assert(marked_within(t, i + 1, d));
    }
}

/// The number of distinct bracket depths of `input` at which a `#` or `!`
/// occurs.
pub fn unique_macro_levels(input: &str) -> (r: usize)
    ensures
        r == macro_level_count(input.spec_bytes()),
{
    let t = input.as_bytes();
    let ghost s = t@;
    let opens: [u8; 3] = [LPAREN, LBRACKET, LBRACE];
    let closes: [u8; 3] = [RPAREN, RBRACKET, RBRACE];
    proof {
        assert(opens@ =~= bracket_opens());
        assert(closes@ =~= bracket_closes());
    }
    let mut current: usize = 0;
    let mut levels: Vec<bool> = vec![false];
    let mut i: usize = 0;
    while i < t.len()
        invariant
            s == t@,
            i <= s.len(),
            current == depth_after(s.take(i as int), bracket_opens(), bracket_closes()),
            levels@.len() == max_depth(s.take(i as int), bracket_opens(), bracket_closes()) + 1,
            levels@.len() <= i + 1,
            forall|d: int| 0 <= d < levels@.len() ==> levels@[d] == marked_within(s, i as int, d as nat),
        decreases s.len() - i,
    {
        let b = t[i];
        let ghost prev = s.take(i as int);
        let ghost old_levels = levels@;
        let ghost depth = current as nat;
        proof {
            assert(s.take(i + 1).drop_last() =~= prev);
            lemma_depth_le_max(prev, bracket_opens(), bracket_closes());
        }
        if b == LPAREN || b == LBRACKET || b == LBRACE {
            assert(bracket_opens()[0] == LPAREN && bracket_opens()[1] == LBRACKET && bracket_opens()[2] == LBRACE);
            current += 1;
            if current >= levels.len() {
                levels.push(false);
            }
        } else if b == RPAREN || b == RBRACKET || b == RBRACE {
            assert(bracket_closes()[0] == RPAREN && bracket_closes()[1] == RBRACKET && bracket_closes()[2] == RBRACE);
            assert(!bracket_opens().contains(b));
            current = current.saturating_sub(1);
        } else if b == HASH || b == BANG {
            assert(!bracket_opens().contains(b));
            assert(!bracket_closes().contains(b));
            levels.set(current, true);
        } else {
            assert(!bracket_opens().contains(b));
            assert(!bracket_closes().contains(b));
        }
        proof {
            assert forall|d: int| 0 <= d < levels@.len() implies levels@[d] == marked_within(s, i + 1, d as nat) by {
                lemma_marked_step(s, i as int, d as nat);
                if d >= old_levels.len() && marked_within(s, i as int, d as nat) {
                    let j = choose|j: int|
                        0 <= j < i && #[trigger] is_macro_byte(s[j])
                            && depth_after(s.take(j), bracket_opens(), bracket_closes()) == d as nat;
                    assert(s.take(j) =~= prev.take(j));
                    lemma_prefix_depth_le_max(prev, j, bracket_opens(), bracket_closes());
                }
            }
        }
        i += 1;
    }
    proof {
        assert(s.take(i as int) =~= s);
    }
    let mut count: usize = 0;
    let mut k: usize = 0;
    while k < levels.len()
        invariant
            k <= levels@.len(),
            count <= k,
            count == marked_below(s, k as nat),
            levels@.len() == max_depth(s, bracket_opens(), bracket_closes()) + 1,
            forall|d: int| 0 <= d < levels@.len() ==> levels@[d] == marked_depth(s, d as nat),
        decreases levels@.len() - k,
    {
        if levels[k] {
            count += 1;
        }
        k += 1;
    }
    count
}

} // verus!
