//! Compile-time allowances: which candidates are not worth timing at all, how
//! long the others may take, and whether a measured compile overran.

use vstd::prelude::*;
use vstd::arithmetic::power2::{lemma2_to64_rest, lemma_pow2_strictly_increases, lemma_pow2_unfold, pow2};
use vstd::string::StringSliceAdditionalSpecFns;
use crate::gate::{byte_count, count_byte};
use crate::macro_depth::{macro_level_count, unique_macro_levels};
use crate::scan::{
    bracket_closes, bracket_opens, count_occurrences, max_depth, max_nesting, occurrences, AMPERSAND,
    BANG, LBRACE, LBRACKET, LPAREN, QUESTION, RBRACE, RBRACKET, RPAREN,
};

verus! {

/// More `&` than this makes compile time blow up beyond any useful bound.
pub const AMPERSAND_LIMIT: usize = 300;

/// More `?` than this desugars into too deeply nested matches.
pub const QUESTION_LIMIT: usize = 100;

/// `dyn` and `Fn` counts beyond this, with nesting beyond the same bound, are
/// known to be slow.
pub const DYN_FN_LIMIT: usize = 5;

/// `let` count that is slow together with a `||`.
pub const LET_LIMIT: usize = 10;

/// Distinct macro-marked depths beyond which expansion blows up.
pub const MACRO_LEVEL_LIMIT: usize = 3;

/// `derive` count that blows up together with nested macro syntax.
pub const DERIVE_LIMIT: usize = 3;

/// `!` count that blows up together with `macro_rules`.
pub const MACRO_BANG_LIMIT: usize = 7;

/// Nesting beyond this depth adds no further time.
pub const NESTING_EXPONENT_CAP: usize = 40;

/// Fixed overhead and measurement slack, in microseconds.
pub const BASE_ALLOWANCE_US: u128 = 1_000_000;

/// No candidate is granted more than this many microseconds.
pub const ALLOWANCE_CEILING_US: u128 = 30_000_000;

/// How long a compile of a candidate may take before it counts as anomalous.
#[derive(Clone, Copy, Debug, PartialEq, Eq, Structural)]
pub enum Allowance {
    /// Do not apply anomaly detection to this candidate's compile time.
    Skip,
    /// The compile is expected to finish within this many microseconds.
    Bounded(u64),
}

/// The outcome of comparing a measured compile time with its allowance.
#[derive(Clone, Copy, Debug, PartialEq, Eq, Structural)]
pub enum Verdict {
    /// The compile finished within its allowance.
    Within,
    /// The compile took longer than its allowance.
    Exceeded,
}

/// The hard exclusions: candidates whose cost is reliably extreme.
pub open spec fn excluded(t: Seq<u8>) -> bool {
    ||| byte_count(t, AMPERSAND) > AMPERSAND_LIMIT
    ||| byte_count(t, QUESTION) > QUESTION_LIMIT
    ||| occurrences(t, "const_eval_limit".spec_bytes()) > 0
    ||| (occurrences(t, "dyn".spec_bytes()) > DYN_FN_LIMIT && occurrences(t, "Fn".spec_bytes())
        > DYN_FN_LIMIT && max_depth(t, bracket_opens(), bracket_closes()) > DYN_FN_LIMIT)
    ||| (occurrences(t, "||".spec_bytes()) > 0 && occurrences(t, "let".spec_bytes()) > LET_LIMIT)
    ||| (occurrences(t, "macro_rules".spec_bytes()) > 0 && macro_level_count(t) > MACRO_LEVEL_LIMIT)
    ||| (occurrences(t, "derive".spec_bytes()) > DERIVE_LIMIT && macro_level_count(t)
        > MACRO_LEVEL_LIMIT)
    ||| (occurrences(t, "macro_rules".spec_bytes()) > 0 && byte_count(t, BANG) > MACRO_BANG_LIMIT)
}

/// The nesting exponent: bracket depth, capped.
pub open spec fn nesting_exponent(t: Seq<u8>) -> nat {
    let d = max_depth(t, bracket_opens(), bracket_closes());
    if d < NESTING_EXPONENT_CAP {
        d
    } else {
        NESTING_EXPONENT_CAP as nat
    }
}

/// The cost formula, in microseconds: quadratic and linear terms in the size,
/// a fixed overhead, a quadratic term in the `&` count and an exponential term
/// in the capped nesting depth.
pub open spec fn allowance_formula(t: Seq<u8>) -> int {
    let size = t.len() as int;
    let amps = byte_count(t, AMPERSAND) as int;
    size * size / 4 + 5000 * size + BASE_ALLOWANCE_US + 5 * amps * amps + 200 * pow2(
        nesting_exponent(t),
    )
}

/// The allowance of a candidate: skipped when excluded or when the formula
/// exceeds the ceiling, else the formula's value.
pub open spec fn estimate(t: Seq<u8>) -> Allowance {
    if excluded(t) || allowance_formula(t) > ALLOWANCE_CEILING_US {
        Allowance::Skip
    } else {
        Allowance::Bounded(allowance_formula(t) as u64)
    }
}

/// The verdict on a compile that took `elapsed` microseconds against an
/// allowance of `allowed` microseconds.
pub open spec fn verdict(elapsed: int, allowed: int) -> Verdict {
    if elapsed > allowed {
        Verdict::Exceeded
    } else {
        Verdict::Within
    }
}

/// The deepest nesting over round, square and curly brackets together.
pub fn highest_nesting_normal_delims(input: &str) -> (r: usize)
    ensures
        r == max_depth(input.spec_bytes(), bracket_opens(), bracket_closes()),
{
    let opens: [u8; 3] = [LPAREN, LBRACKET, LBRACE];
    let closes: [u8; 3] = [RPAREN, RBRACKET, RBRACE];
    proof {
        assert(opens@ =~= bracket_opens());
        assert(closes@ =~= bracket_closes());
    }
    max_nesting(input.as_bytes(), opens.as_slice(), closes.as_slice())
}

/// Whether `needle` occurs anywhere in `text`.
fn mentions(text: &[u8], needle: &str) -> (r: bool)
    ensures
        r == (occurrences(text@, needle.spec_bytes()) > 0),
{
    count_occurrences(text, needle.as_bytes()) > 0
}

/// Whether the candidate falls under one of the hard exclusions.
pub fn is_excluded(input: &str) -> (r: bool)
    ensures
        r == excluded(input.spec_bytes()),
{
    let t = input.as_bytes();
    if count_byte(t, AMPERSAND) > AMPERSAND_LIMIT {
        return true;
    }
    if count_byte(t, QUESTION) > QUESTION_LIMIT {
        return true;
    }
    if mentions(t, "const_eval_limit") {
        return true;
    }
    if count_occurrences(t, "dyn".as_bytes()) > DYN_FN_LIMIT && count_occurrences(t, "Fn".as_bytes())
        > DYN_FN_LIMIT && highest_nesting_normal_delims(input) > DYN_FN_LIMIT {
        return true;
    }
    if mentions(t, "||") && count_occurrences(t, "let".as_bytes()) > LET_LIMIT {
        return true;
    }
    let has_macro_rules = mentions(t, "macro_rules");
    if has_macro_rules && unique_macro_levels(input) > MACRO_LEVEL_LIMIT {
        return true;
    }
    if count_occurrences(t, "derive".as_bytes()) > DERIVE_LIMIT && unique_macro_levels(input)
        > MACRO_LEVEL_LIMIT {
        return true;
    }
    has_macro_rules && count_byte(t, BANG) > MACRO_BANG_LIMIT
}

/// Two to the power `e`, for exponents up to the nesting cap.
fn pow2_capped(e: usize) -> (r: u128)
    requires
        e <= NESTING_EXPONENT_CAP,
    ensures
        r == pow2(e as nat),
        r <= 0x100_0000_0000,
{
    proof {
        lemma2_to64_rest();
    }
    let mut p: u128 = 1;
    let mut k: usize = 0;
    proof {
        reveal(vstd::arithmetic::power::pow);
    }
    while k < e
        invariant
            k <= e <= NESTING_EXPONENT_CAP,
            p == pow2(k as nat),
            pow2(NESTING_EXPONENT_CAP as nat) == 0x100_0000_0000,
        decreases e - k,
    {
        proof {
            lemma_pow2_unfold((k + 1) as nat);
            if k + 1 < NESTING_EXPONENT_CAP {
                lemma_pow2_strictly_increases((k + 1) as nat, NESTING_EXPONENT_CAP as nat);
            }
        }
        p = p * 2;
        k += 1;
    }
    proof {
        if e < NESTING_EXPONENT_CAP {
            lemma_pow2_strictly_increases(e as nat, NESTING_EXPONENT_CAP as nat);
        }
    }
    p
}

/// The cost formula applied to a candidate, or `None` when it falls under a
/// hard exclusion. The value is not yet held against the ceiling.
pub fn raw_allowance(input: &str) -> (r: Option<u128>)
    ensures
        excluded(input.spec_bytes()) ==> r is None,
        !excluded(input.spec_bytes()) ==> r == Some(allowance_formula(input.spec_bytes()) as u128)
            && allowance_formula(input.spec_bytes()) <= u128::MAX,
{
    if is_excluded(input) {
        return None;
    }
    let t = input.as_bytes();
    let amps = count_byte(t, AMPERSAND) as u128;
    let depth = highest_nesting_normal_delims(input);
    let e: usize = if depth < NESTING_EXPONENT_CAP {
        depth
    } else {
        NESTING_EXPONENT_CAP
    };
    let p = pow2_capped(e);
    let size = t.len() as u128;
    proof {
        assert(size * size <= 0xFFFF_FFFF_FFFF_FFFE_0000_0000_0000_0001) by (nonlinear_arith)
            requires
                size <= 0xFFFF_FFFF_FFFF_FFFF,
        ;
        assert(amps * amps <= 90_000) by (nonlinear_arith)
            requires
                amps <= 300,
        ;
    }
    let quadratic = size * size / 4;
    let linear = 5000 * size;
    let ampersand_term = 5 * (amps * amps);
    let nesting_term = 200 * p;
    let allowance = quadratic + linear + BASE_ALLOWANCE_US + ampersand_term + nesting_term;
    proof {
        assert(5 * amps * amps == 5 * (amps * amps)) by (nonlinear_arith);
    }
    Some(allowance)
}

/// The allowance of a candidate: `Skip` when it falls under a hard exclusion
/// or when the cost formula exceeds the ceiling, else the formula's value in
/// microseconds.
pub fn expected_dur(input: &str) -> (r: Allowance)
    ensures
        r == estimate(input.spec_bytes()),
{
    match raw_allowance(input) {
        None => Allowance::Skip,
        Some(us) => {
            if us > ALLOWANCE_CEILING_US {
                Allowance::Skip
            } else {
                Allowance::Bounded(us as u64)
            }
        },
    }
}

/// Whether a compile that took `elapsed_us` microseconds overran an allowance
/// of `allowance_us` microseconds.
pub fn check_dur(elapsed_us: u128, allowance_us: u64) -> (r: Verdict)
    ensures
        r == verdict(elapsed_us as int, allowance_us as int),
{
    if elapsed_us > allowance_us as u128 {
        Verdict::Exceeded
    } else {
        Verdict::Within
    }
}

} // verus!
