//! Properties that hold across inputs and across the components.

use vstd::prelude::*;
use vstd::string::StringSliceAdditionalSpecFns;
use crate::duration::{estimate, Allowance, AMPERSAND_LIMIT};
use crate::gate::{byte_count, names_denied_feature, rejected};
use crate::scan::{
    bracket_closes, bracket_opens, count_from, depth_after, max_depth, occurrences, occurs_at,
    AMPERSAND, LPAREN, RPAREN,
};

verus! {

/// A text made only of openers nests exactly as deep as it is long: every
/// byte opens one more level, and the last one is the deepest.
pub proof fn lemma_openers_only_nest_to_length(t: Seq<u8>, opens: Seq<u8>, closes: Seq<u8>)
    requires
        forall|i: int| 0 <= i < t.len() ==> opens.contains(#[trigger] t[i]),
    ensures
        depth_after(t, opens, closes) == t.len(),
        max_depth(t, opens, closes) == t.len(),
    decreases t.len(),
{
    if t.len() > 0 {
        let u = t.drop_last();
        assert forall|i: int| 0 <= i < u.len() implies opens.contains(#[trigger] u[i]) by {
            assert(u[i] == t[i]);
        }
        lemma_openers_only_nest_to_length(u, opens, closes);
        assert(opens.contains(t[t.len() - 1]));
    }
}

/// Text read after `p` that never takes the depth above the deepest point of
/// `p` leaves the reported maximum unchanged.
pub proof fn lemma_shallow_suffix_keeps_max(p: Seq<u8>, s: Seq<u8>, opens: Seq<u8>, closes: Seq<u8>)
    requires
        forall|k: int| 0 <= k <= s.len() ==> depth_after(#[trigger] (p + s.take(k)), opens, closes)
            <= max_depth(p, opens, closes),
    ensures
        max_depth(p + s, opens, closes) == max_depth(p, opens, closes),
    decreases s.len(),
{
    if s.len() == 0 {
        assert(p + s =~= p);
    } else {
        let u = s.drop_last();
        assert forall|k: int| 0 <= k <= u.len() implies depth_after(#[trigger] (p + u.take(k)), opens, closes)
            <= max_depth(p, opens, closes) by {
            assert(u.take(k) =~= s.take(k));
        }
        lemma_shallow_suffix_keeps_max(p, u, opens, closes);
        assert((p + s).drop_last() =~= p + u);
        assert(s.take(s.len() as int) =~= s);
        assert(depth_after(p + s.take(s.len() as int), opens, closes) <= max_depth(p, opens, closes));
    }
}

/// Text without openers never raises the depth.
proof fn lemma_no_openers_never_deepen(p: Seq<u8>, s: Seq<u8>, opens: Seq<u8>, closes: Seq<u8>)
    requires
        forall|i: int| 0 <= i < s.len() ==> !opens.contains(#[trigger] s[i]),
    ensures
        depth_after(p + s, opens, closes) <= depth_after(p, opens, closes),
    decreases s.len(),
{
    if s.len() == 0 {
        assert(p + s =~= p);
    } else {
        let u = s.drop_last();
        assert forall|i: int| 0 <= i < u.len() implies !opens.contains(#[trigger] u[i]) by {
            assert(u[i] == s[i]);
        }
        lemma_no_openers_never_deepen(p, u, opens, closes);
        assert((p + s).drop_last() =~= p + u);
        assert(!opens.contains(s[s.len() - 1]));
    }
}

/// Text without openers, read after `p`, leaves the reported maximum of `p`
/// unchanged.
pub proof fn lemma_no_openers_keep_max(p: Seq<u8>, s: Seq<u8>, opens: Seq<u8>, closes: Seq<u8>)
    requires
        forall|i: int| 0 <= i < s.len() ==> !opens.contains(#[trigger] s[i]),
    ensures
        max_depth(p + s, opens, closes) == max_depth(p, opens, closes),
{
    assert forall|k: int| 0 <= k <= s.len() implies depth_after(#[trigger] (p + s.take(k)), opens, closes)
        <= max_depth(p, opens, closes) by {
        let w = s.take(k);
        assert forall|i: int| 0 <= i < w.len() implies !opens.contains(#[trigger] w[i]) by {
            assert(w[i] == s[i]);
        }
        lemma_no_openers_never_deepen(p, w, opens, closes);
    }
    lemma_shallow_suffix_keeps_max(p, s, opens, closes);
}

/// `(((` then `)))` nests three deep over the bracket classes, and any
/// following text without openers leaves that maximum at three.
pub proof fn lemma_three_open_three_close(s: Seq<u8>)
    requires
        forall|i: int| 0 <= i < s.len() ==> !bracket_opens().contains(#[trigger] s[i]),
    ensures
        max_depth(seq![LPAREN, LPAREN, LPAREN, RPAREN, RPAREN, RPAREN] + s, bracket_opens(), bracket_closes())
            == 3,
{
    let o = bracket_opens();
    let c = bracket_closes();
    let p = seq![LPAREN, LPAREN, LPAREN, RPAREN, RPAREN, RPAREN];
    assert(o[0] == LPAREN);
    assert(c[0] == RPAREN);
    assert(!o.contains(RPAREN));
    assert(p.take(3).drop_last() =~= p.take(2));
    assert(p.take(2).drop_last() =~= p.take(1));
    assert(p.take(1).drop_last() =~= p.take(0));
    assert(p.take(3) =~= seq![LPAREN, LPAREN, LPAREN]);
    assert forall|i: int| 0 <= i < 3 implies o.contains(#[trigger] p.take(3)[i]) by {
        assert(p.take(3)[i] == o[0]);
    }
    lemma_openers_only_nest_to_length(p.take(3), o, c);
    let q = p.subrange(3, 6);
    assert forall|i: int| 0 <= i < q.len() implies !o.contains(#[trigger] q[i]) by {
        assert(q[i] == RPAREN);
    }
    assert(p.take(3) + q =~= p);
    lemma_no_openers_keep_max(p.take(3), q, o, c);
    lemma_no_openers_keep_max(p, s, o, c);
}

/// A needle that occurs at or after `j` is counted by the search from `j`:
/// an earlier match may overlap it, but then it is counted there.
pub proof fn lemma_occurrence_counted(t: Seq<u8>, n: Seq<u8>, j: int, i: int)
    requires
        n.len() > 0,
        0 <= j <= i,
        occurs_at(t, n, i),
    ensures
        count_from(t, n, j) > 0,
    decreases i - j,
{
    if !occurs_at(t, n, j) {
        lemma_occurrence_counted(t, n, j + 1, i);
    }
}

/// A text that holds `BikeshedIntrinsicFrom` anywhere is rejected, whatever
/// else it holds.
pub proof fn lemma_denied_name_rejects(t: Seq<u8>, i: int)
    requires
        occurs_at(t, "BikeshedIntrinsicFrom".spec_bytes(), i),
    ensures
        rejected(t),
{
    reveal_strlit("BikeshedIntrinsicFrom");
    let chars = "BikeshedIntrinsicFrom"@;
    assert(chars.len() > 0);
    assert("BikeshedIntrinsicFrom".spec_bytes() == vstd::utf8::encode_utf8(chars));
    assert(vstd::utf8::encode_utf8(chars).len() > 0);
    lemma_occurrence_counted(t, "BikeshedIntrinsicFrom".spec_bytes(), 0, i);
    assert(occurrences(t, "BikeshedIntrinsicFrom".spec_bytes()) > 0);
    assert(names_denied_feature(t));
}

/// More `&` than the limit always gets `Skip`, whatever else the text holds.
pub proof fn lemma_many_ampersands_skip(t: Seq<u8>)
    requires
        byte_count(t, AMPERSAND) > AMPERSAND_LIMIT,
    ensures
        estimate(t) == Allowance::Skip,
{
}

} // verus!
