use fuzz_gate::{count_bytes_in, count_occurrences, max_nesting, unique_macro_levels};

const OPENS: &[u8] = b"([{";
const CLOSES: &[u8] = b")]}";

#[test]
fn empty_text_has_no_nesting() {
    assert_eq!(max_nesting(b"", OPENS, CLOSES), 0);
}

#[test]
fn openers_only_nest_to_their_count() {
    for n in [1usize, 5, 64] {
        let text = vec![b'['; n];
        assert_eq!(max_nesting(&text, OPENS, CLOSES), n);
    }
    assert_eq!(max_nesting(b"([{([{", OPENS, CLOSES), 6);
}

#[test]
fn closing_then_plain_text_keeps_maximum() {
    assert_eq!(max_nesting(b"((()))abc def", OPENS, CLOSES), 3);
    assert_eq!(max_nesting(b"((()))()(())", OPENS, CLOSES), 3);
    assert_eq!(max_nesting(b"((()))((()))", OPENS, CLOSES), 3);
}

#[test]
fn unbalanced_closers_floor_at_zero() {
    assert_eq!(max_nesting(b")))((", OPENS, CLOSES), 2);
    assert_eq!(max_nesting(b"}}}}", OPENS, CLOSES), 0);
}

#[test]
fn nesting_uses_only_the_given_classes() {
    assert_eq!(max_nesting(b"<<(<>)>>", b"<", b">"), 3);
    assert_eq!(max_nesting(b"{{(}}", b"{", b"}"), 2);
}

#[test]
fn occurrences_are_non_overlapping() {
    assert_eq!(count_occurrences(b"aaaa", b"aa"), 2);
    assert_eq!(count_occurrences(b"aaa", b"aa"), 1);
    assert_eq!(count_occurrences(b"let x; let y; lettuce", b"let"), 3);
    assert_eq!(count_occurrences(b"abc", b"abcd"), 0);
}

#[test]
fn empty_needle_occurs_nowhere() {
    assert_eq!(count_occurrences(b"abc", b""), 0);
    assert_eq!(count_occurrences(b"", b""), 0);
}

#[test]
fn byte_counts_use_the_whole_set() {
    assert_eq!(count_bytes_in(b"a(b[c{d|e&f\"", b"([{|&\""), 6);
    assert_eq!(count_bytes_in(b"xyz", b"([{"), 0);
}

#[test]
fn macro_levels_count_distinct_depths() {
    assert_eq!(unique_macro_levels(""), 0);
    assert_eq!(unique_macro_levels("!!!##"), 1);
    assert_eq!(unique_macro_levels("#[a] fn f() { x!(); }"), 2);
    assert_eq!(unique_macro_levels("a!(b!(c!(d!())))"), 4);
    assert_eq!(unique_macro_levels("(((x)))"), 0);
}

#[test]
fn scanning_twice_gives_the_same_answer() {
    let text = "fn f() { g!([1, (2)]) }";
    assert_eq!(unique_macro_levels(text), unique_macro_levels(text));
    assert_eq!(
        max_nesting(text.as_bytes(), OPENS, CLOSES),
        max_nesting(text.as_bytes(), OPENS, CLOSES)
    );
}
