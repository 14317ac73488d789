use fuzz_gate::duration::raw_allowance;
use fuzz_gate::{check_dur, expected_dur, Allowance, Verdict};

#[test]
fn empty_text_gets_overhead_and_flat_nesting_term() {
    assert_eq!(expected_dur(""), Allowance::Bounded(1_000_200));
}

#[test]
fn formula_gives_exact_values() {
    assert_eq!(expected_dur("ab"), Allowance::Bounded(1_010_201));
    assert_eq!(expected_dur("("), Allowance::Bounded(1_005_400));
    assert_eq!(expected_dur("&&"), Allowance::Bounded(1_010_221));
    assert_eq!(expected_dur("fn main() { let x = &y; }"), Allowance::Bounded(1_125_561));
    assert_eq!(raw_allowance("ab"), Some(1_010_201));
}

#[test]
fn many_ampersands_are_skipped() {
    assert_eq!(expected_dur(&"&".repeat(301)), Allowance::Skip);
    assert_eq!(expected_dur(&format!("{}fn main() {{}}", "& ".repeat(301))), Allowance::Skip);
    assert_eq!(raw_allowance(&"&".repeat(301)), None);
    assert_eq!(expected_dur(&"&".repeat(300)), Allowance::Bounded(2_972_700));
}

#[test]
fn many_question_marks_are_skipped() {
    assert_eq!(expected_dur(&"?".repeat(101)), Allowance::Skip);
    assert!(matches!(expected_dur(&"?".repeat(100)), Allowance::Bounded(_)));
}

#[test]
fn const_eval_limit_is_skipped() {
    assert_eq!(expected_dur("#![feature(const_eval_limit)]"), Allowance::Skip);
}

#[test]
fn dyn_fn_with_nesting_is_skipped() {
    let text = format!("{}{}{}", "dyn ".repeat(6), "Fn ".repeat(6), "(".repeat(6));
    assert_eq!(expected_dur(&text), Allowance::Skip);
    let text = format!("{}{}{}", "dyn ".repeat(6), "Fn ".repeat(6), "(".repeat(5));
    assert!(matches!(expected_dur(&text), Allowance::Bounded(_)));
}

#[test]
fn closures_with_many_lets_are_skipped() {
    let text = format!("||{}", "let ".repeat(11));
    assert_eq!(expected_dur(&text), Allowance::Skip);
    let text = format!("||{}", "let ".repeat(10));
    assert!(matches!(expected_dur(&text), Allowance::Bounded(_)));
}

#[test]
fn nested_macros_are_skipped() {
    assert_eq!(expected_dur("macro_rules! a { (b!(c!(d!()))) }"), Allowance::Skip);
    let derives = "#[derive(A)] #[derive(B)] #[derive(C)] #[derive(D)]";
    assert_eq!(expected_dur(&format!("{} (!(!(!)))", derives)), Allowance::Skip);
    assert!(matches!(expected_dur(derives), Allowance::Bounded(_)));
}

#[test]
fn macro_rules_with_many_bangs_is_skipped() {
    assert_eq!(expected_dur("macro_rules! a {} !!!!!!!"), Allowance::Skip);
    assert!(matches!(expected_dur("macro_rules! a {} !!!!!!"), Allowance::Bounded(_)));
}

#[test]
fn allowance_over_ceiling_is_skipped() {
    assert_eq!(expected_dur(&"(".repeat(17)), Allowance::Bounded(27_299_472));
    assert_eq!(expected_dur(&"(".repeat(18)), Allowance::Skip);
    assert_eq!(raw_allowance(&"(".repeat(18)), Some(53_518_881));
}

#[test]
fn overrun_is_reported() {
    assert_eq!(check_dur(5_000_000, 3_000_000), Verdict::Exceeded);
    assert_eq!(check_dur(2_000_000, 3_000_000), Verdict::Within);
    assert_eq!(check_dur(3_000_000, 3_000_000), Verdict::Within);
    assert_eq!(check_dur(3_000_001, 3_000_000), Verdict::Exceeded);
}

#[test]
fn estimating_twice_gives_the_same_answer() {
    let text = "fn main() { let x = &(&[1, 2]); }";
    assert_eq!(expected_dur(text), expected_dur(text));
    assert_eq!(check_dur(7, 5), check_dur(7, 5));
}
