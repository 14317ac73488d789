//! The structural gate: cheap checks, made before any parsing, that keep
//! dangerous programs away from the compiler. Each check targets one kind of
//! known compiler defect, and a program is rejected when any of them holds.

use vstd::prelude::*;
use vstd::string::StringSliceAdditionalSpecFns;
use crate::scan::{
    count_bytes_in, count_in, count_occurrences, max_depth, max_nesting, occurrences, AMPERSAND,
    BANG, COLON, DQUOTE, EQUALS, HASH, LANGLE, LBRACE, LBRACKET, LPAREN, PIPE, RANGLE, RBRACE,
};

verus! {

/// More delimiter bytes than this risk exhausting the parser's stack.
pub const GROSS_DELIMITER_LIMIT: usize = 400;

/// Deepest angle-bracket nesting allowed.
pub const ANGLE_NESTING_LIMIT: usize = 30;

/// Curly nesting that becomes dangerous together with many colons.
pub const CURLY_NESTING_LIMIT: usize = 12;

/// Colon count that becomes dangerous together with deep curly nesting.
pub const COLON_LIMIT: usize = 12;

/// `#` count of the joint symbol-density bound.
pub const HASH_LIMIT: usize = 21;

/// `!` count of the joint symbol-density bound.
pub const BANG_LIMIT: usize = 7;

/// `=` count of the joint symbol-density bound.
pub const EQUALS_LIMIT: usize = 7;

/// `{` count of the joint symbol-density bound.
pub const BRACE_LIMIT: usize = 7;

/// The bytes that each push the parser one level deeper in the worst case.
pub open spec fn gross_delimiters() -> Seq<u8> {
    seq![LPAREN, LBRACKET, LBRACE, PIPE, AMPERSAND, DQUOTE]
}

/// Gross-delimiter bound: too many bytes that may open a nested construct.
pub open spec fn nests_too_deep(t: Seq<u8>) -> bool {
    count_in(t, gross_delimiters()) > GROSS_DELIMITER_LIMIT
}

/// The nesting depth of `<` / `>` in `t`.
pub open spec fn angle_depth(t: Seq<u8>) -> nat {
    max_depth(t, seq![LANGLE], seq![RANGLE])
}

/// The nesting depth of `{` / `}` in `t`.
pub open spec fn curly_depth(t: Seq<u8>) -> nat {
    max_depth(t, seq![LBRACE], seq![RBRACE])
}

/// How many times the byte `b` occurs in `t`.
pub open spec fn byte_count(t: Seq<u8>, b: u8) -> nat {
    count_in(t, seq![b])
}

/// Angle-bracket bound: deeply nested generics.
pub open spec fn angles_too_deep(t: Seq<u8>) -> bool {
    angle_depth(t) > ANGLE_NESTING_LIMIT
}

/// Joint curly and colon bound: deep blocks full of paths.
pub open spec fn curly_colon_too_dense(t: Seq<u8>) -> bool {
    curly_depth(t) > CURLY_NESTING_LIMIT && byte_count(t, COLON) > COLON_LIMIT
}

/// Joint symbol-density bound: many attributes, macros, assignments and blocks.
pub open spec fn symbols_too_dense(t: Seq<u8>) -> bool {
    &&& byte_count(t, HASH) > HASH_LIMIT
    &&& byte_count(t, BANG) > BANG_LIMIT
    &&& byte_count(t, EQUALS) > EQUALS_LIMIT
    &&& byte_count(t, LBRACE) > BRACE_LIMIT
}

/// Whether `t` must not even be handed to a parser.
pub open spec fn unparseable(t: Seq<u8>) -> bool {
    nests_too_deep(t) || angles_too_deep(t) || curly_colon_too_dense(t) || symbols_too_dense(t)
}

/// Whether `t` names a feature or intrinsic that reliably destabilises the
/// compiler.
pub open spec fn names_denied_feature(t: Seq<u8>) -> bool {
    ||| occurrences(t, "generic_const_exprs".spec_bytes()) > 0
    ||| occurrences(t, "adt_const_params".spec_bytes()) > 0
    ||| occurrences(t, "specialization".spec_bytes()) > 0
    ||| occurrences(t, "rustc_peek".spec_bytes()) > 0
    ||| occurrences(t, "BikeshedIntrinsicFrom".spec_bytes()) > 0
}

/// Whether `t` must never be compiled.
pub open spec fn rejected(t: Seq<u8>) -> bool {
    unparseable(t) || names_denied_feature(t)
}

/// How many times the byte `b` occurs in `text`.
pub fn count_byte(text: &[u8], b: u8) -> (r: usize)
    ensures
        r == byte_count(text@, b),
{
    let set: [u8; 1] = [b];
    proof {
        assert(set@ =~= seq![b]);
    }
    count_bytes_in(text, set.as_slice())
}

/// Whether the program holds more bytes that may open a nested construct than
/// the parser's stack is trusted with.
pub fn might_nest_too_deep(prog: &str) -> (r: bool)
    ensures
        r == nests_too_deep(prog.spec_bytes()),
{
    let set: [u8; 6] = [LPAREN, LBRACKET, LBRACE, PIPE, AMPERSAND, DQUOTE];
    proof {
        assert(set@ =~= gross_delimiters());
    }
    count_bytes_in(prog.as_bytes(), set.as_slice()) > GROSS_DELIMITER_LIMIT
}

/// The deepest nesting of `<` / `>` in the input.
pub fn highest_nesting_angle_brackets(input: &str) -> (r: usize)
    ensures
        r == angle_depth(input.spec_bytes()),
{
    let opens: [u8; 1] = [LANGLE];
    let closes: [u8; 1] = [RANGLE];
    proof {
        assert(opens@ =~= seq![LANGLE]);
        assert(closes@ =~= seq![RANGLE]);
    }
    max_nesting(input.as_bytes(), opens.as_slice(), closes.as_slice())
}

/// The deepest nesting of `{` / `}` in the input.
pub fn highest_nesting_curly(input: &str) -> (r: usize)
    ensures
        r == curly_depth(input.spec_bytes()),
{
    let opens: [u8; 1] = [LBRACE];
    let closes: [u8; 1] = [RBRACE];
    proof {
        assert(opens@ =~= seq![LBRACE]);
        assert(closes@ =~= seq![RBRACE]);
    }
    max_nesting(input.as_bytes(), opens.as_slice(), closes.as_slice())
}

/// Whether the angle-bracket nesting is too deep.
pub fn angle_nesting_too_deep(prog: &str) -> (r: bool)
    ensures
        r == angles_too_deep(prog.spec_bytes()),
{
    highest_nesting_angle_brackets(prog) > ANGLE_NESTING_LIMIT
}

/// Whether deep curly nesting meets many colons.
pub fn curly_and_colons_too_dense(prog: &str) -> (r: bool)
    ensures
        r == curly_colon_too_dense(prog.spec_bytes()),
{
    highest_nesting_curly(prog) > CURLY_NESTING_LIMIT && count_byte(prog.as_bytes(), COLON) > COLON_LIMIT
}

/// Whether `#`, `!`, `=` and `{` are all frequent at once.
pub fn symbol_density_too_high(prog: &str) -> (r: bool)
    ensures
        r == symbols_too_dense(prog.spec_bytes()),
{
    let t = prog.as_bytes();
    count_byte(t, HASH) > HASH_LIMIT && count_byte(t, BANG) > BANG_LIMIT && count_byte(t, EQUALS)
        > EQUALS_LIMIT && count_byte(t, LBRACE) > BRACE_LIMIT
}

/// Whether the program names a feature or intrinsic on the deny list.
pub fn mentions_denied_feature(prog: &str) -> (r: bool)
    ensures
        r == names_denied_feature(prog.spec_bytes()),
{
    let t = prog.as_bytes();
    count_occurrences(t, "generic_const_exprs".as_bytes()) > 0
        || count_occurrences(t, "adt_const_params".as_bytes()) > 0
        || count_occurrences(t, "specialization".as_bytes()) > 0
        || count_occurrences(t, "rustc_peek".as_bytes()) > 0
        || count_occurrences(t, "BikeshedIntrinsicFrom".as_bytes()) > 0
}

/// Whether the program must not even be fed to a parser: any of the
/// structural bounds is exceeded.
pub fn do_not_even_parse(prog: &str) -> (r: bool)
    ensures
        r == unparseable(prog.spec_bytes()),
{
    if might_nest_too_deep(prog) {
        return true;
    }
    if angle_nesting_too_deep(prog) {
        return true;
    }
    if curly_and_colons_too_dense(prog) {
        return true;
    }
    symbol_density_too_high(prog)
}

/// Whether the program must never be compiled: it must not be parsed, or it
/// names a feature or intrinsic on the deny list.
pub fn do_not_compile(prog: &str) -> (r: bool)
    ensures
        r == rejected(prog.spec_bytes()),
{
    if do_not_even_parse(prog) {
        return true;
    }
    mentions_denied_feature(prog)
}

} // verus!
