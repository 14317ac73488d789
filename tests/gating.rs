use fuzz_gate::{do_not_compile, do_not_even_parse};

#[test]
fn many_open_parens_are_rejected() {
    let text = "(".repeat(401);
    assert!(do_not_even_parse(&text));
    assert!(do_not_compile(&text));
}

#[test]
fn fewer_open_parens_pass() {
    let text = "(".repeat(399);
    assert!(!do_not_even_parse(&text));
    assert!(!do_not_compile(&text));
    assert!(!do_not_compile(&"(".repeat(400)));
}

#[test]
fn gross_delimiters_count_together() {
    let text = "([{|&\"".repeat(67);
    assert!(do_not_even_parse(&text));
    let text = "([{|&\"".repeat(66);
    assert!(!do_not_even_parse(&text));
}

#[test]
fn deep_angle_brackets_are_rejected() {
    assert!(do_not_even_parse(&"<".repeat(31)));
    assert!(!do_not_even_parse(&"<".repeat(30)));
    assert!(!do_not_even_parse(&"<>".repeat(100)));
}

#[test]
fn deep_braces_with_many_colons_are_rejected() {
    let deep = "{".repeat(13);
    assert!(do_not_even_parse(&format!("{}{}", deep, ":".repeat(13))));
    assert!(!do_not_even_parse(&format!("{}{}", deep, ":".repeat(12))));
    assert!(!do_not_even_parse(&format!("{}{}", "{".repeat(12), ":".repeat(13))));
}

#[test]
fn dense_symbols_are_rejected() {
    let text = format!("{}{}{}{}", "#".repeat(22), "!".repeat(8), "=".repeat(8), "{}".repeat(8));
    assert!(do_not_even_parse(&text));
    let text = format!("{}{}{}{}", "#".repeat(21), "!".repeat(8), "=".repeat(8), "{}".repeat(8));
    assert!(!do_not_even_parse(&text));
}

#[test]
fn bikeshed_intrinsic_is_rejected_anywhere() {
    assert!(do_not_compile("BikeshedIntrinsicFrom"));
    assert!(do_not_compile("fn main() { let x: BikeshedIntrinsicFrom<A, B>; }"));
    assert!(!do_not_even_parse("BikeshedIntrinsicFrom"));
    assert!(!do_not_compile("BikeshedIntrinsic From"));
}

#[test]
fn denied_features_are_rejected() {
    for name in ["generic_const_exprs", "adt_const_params", "specialization", "rustc_peek"] {
        let text = format!("#![feature({})]\nfn main() {{}}", name);
        assert!(do_not_compile(&text));
        assert!(!do_not_even_parse(&text));
    }
}

#[test]
fn ordinary_program_passes_the_gate() {
    let text = "fn main() { let v: Vec<Vec<u8>> = vec![]; println!(\"{}\", v.len()); }";
    assert!(!do_not_even_parse(text));
    assert!(!do_not_compile(text));
    assert!(!do_not_compile(""));
}

#[test]
fn gate_twice_gives_the_same_answer() {
    let text = format!("{}BikeshedIntrinsicFrom", "<".repeat(20));
    assert_eq!(do_not_compile(&text), do_not_compile(&text));
    assert_eq!(do_not_even_parse(&text), do_not_even_parse(&text));
}
