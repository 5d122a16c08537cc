use bene::engine::{collect_tokens, group_token, scan, scan_normalized};
use bene::matcher::pattern_for;
use bene::value::same_text;
use bene::{Hit, Malformed, Matcher, Target};

fn short(text: &str) -> Hit {
    Hit { short: Some(String::from(text)), long: None }
}

fn long(text: &str) -> Hit {
    Hit { short: None, long: Some(String::from(text)) }
}

#[test]
fn set_value_goes_to_the_borrowed_variable() {
    let mut n: u32 = 1;
    let mut target = Target::U32(&mut n);
    assert_eq!(target.set_value("77"), Ok(()));
    assert_eq!(target.set_value("x"), Err(Malformed));
    assert_eq!(n, 77);

    let mut b = false;
    assert_eq!(Target::Bool(&mut b).set_value("true"), Ok(()));
    assert_eq!(b, true);

    let mut c = 'a';
    assert_eq!(Target::Char(&mut c).set_value("z"), Ok(()));
    assert_eq!(c, 'z');

    let mut s = String::new();
    assert_eq!(Target::Text(&mut s).set_value("word"), Ok(()));
    assert_eq!(s, "word");
}

#[test]
fn set_value_reaches_every_integer_type() {
    let (mut a, mut b, mut c, mut d, mut e, mut f) = (0u8, 0u16, 0u32, 0u64, 0u128, 0usize);
    let (mut g, mut h, mut i, mut j, mut k, mut l) = (0i8, 0i16, 0i32, 0i64, 0i128, 0isize);
    assert_eq!(Target::U8(&mut a).set_value("1"), Ok(()));
    assert_eq!(Target::U16(&mut b).set_value("2"), Ok(()));
    assert_eq!(Target::U32(&mut c).set_value("3"), Ok(()));
    assert_eq!(Target::U64(&mut d).set_value("4"), Ok(()));
    assert_eq!(Target::U128(&mut e).set_value("5"), Ok(()));
    assert_eq!(Target::Usize(&mut f).set_value("6"), Ok(()));
    assert_eq!(Target::I8(&mut g).set_value("-1"), Ok(()));
    assert_eq!(Target::I16(&mut h).set_value("-2"), Ok(()));
    assert_eq!(Target::I32(&mut i).set_value("-3"), Ok(()));
    assert_eq!(Target::I64(&mut j).set_value("-4"), Ok(()));
    assert_eq!(Target::I128(&mut k).set_value("-5"), Ok(()));
    assert_eq!(Target::Isize(&mut l).set_value("-6"), Ok(()));
    assert_eq!((a, b, c, d, e, f), (1, 2, 3, 4, 5, 6));
    assert_eq!((g, h, i, j, k, l), (-1, -2, -3, -4, -5, -6));
}

fn words(tokens: &[&str]) -> Vec<String> {
    tokens.iter().map(|t| String::from(*t)).collect()
}

#[test]
fn assign_without_tokens_changes_nothing() {
    let mut n: i32 = 9;
    Target::I32(&mut n).assign(&vec![]);
    assert_eq!(n, 9);
}

#[test]
fn assign_takes_the_last_well_formed_token() {
    let mut n: i32 = 9;
    Target::I32(&mut n).assign(&words(&["1", "2", "x"]));
    assert_eq!(n, 2);
    Target::I32(&mut n).assign(&words(&["x", "y", ""]));
    assert_eq!(n, 2);
    Target::I32(&mut n).assign(&words(&["7"]));
    assert_eq!(n, 7);
}

#[test]
fn assign_reads_the_presence_token_for_booleans_only() {
    let mut lib = false;
    Target::Bool(&mut lib).assign(&words(&["true"]));
    assert_eq!(lib, true);

    let mut n: i32 = 9;
    Target::I32(&mut n).assign(&words(&["true"]));
    assert_eq!(n, 9);
}

#[test]
fn assigning_the_same_tokens_again_changes_nothing() {
    let mut n: i32 = 9;
    let tokens = words(&["4", "bad", "6", "true"]);
    Target::I32(&mut n).assign(&tokens);
    assert_eq!(n, 6);
    Target::I32(&mut n).assign(&tokens);
    assert_eq!(n, 6);
}

#[test]
fn collect_tokens_of_no_hits_is_empty() {
    assert_eq!(collect_tokens(&vec![]), Vec::<String>::new());
}

#[test]
fn collect_tokens_keeps_the_order_of_the_hits() {
    let hits = vec![short("-f 1"), long("--frames 2"), short("-f x")];
    assert_eq!(collect_tokens(&hits), words(&["1", "2", "x"]));
}

#[test]
fn collect_tokens_reads_the_short_group_before_the_long_one() {
    let both = Hit { short: Some(String::from("-f 1")), long: Some(String::from("--frames 2")) };
    assert_eq!(collect_tokens(&vec![both]), words(&["1", "2"]));
}

#[test]
fn collect_tokens_reads_a_bare_flag_as_true() {
    assert_eq!(collect_tokens(&vec![short("-L "), long("--lib ")]), words(&["true", "true"]));
}

#[test]
fn collect_tokens_passes_over_text_without_a_space() {
    let hits = vec![short("-L"), Hit { short: None, long: None }, long("--x y")];
    assert_eq!(collect_tokens(&hits), words(&["y"]));
}

#[test]
fn scan_reads_the_tokens_of_a_flag() {
    let matcher = Matcher::new(&pattern_for('f', "frames")).unwrap();
    assert_eq!(
        scan(&matcher, "  -f 1 --frames two -f --frames 4.5  "),
        words(&["1", "two", "true", "4"])
    );
    assert_eq!(scan(&matcher, "-g 1 --frame 2"), Vec::<String>::new());
    assert_eq!(scan(&matcher, ""), Vec::<String>::new());
    assert_eq!(scan_normalized(&matcher, "-f"), Vec::<String>::new());
    assert_eq!(scan_normalized(&matcher, "-f "), words(&["true"]));
}

#[test]
fn group_token_reads_a_captured_group() {
    assert_eq!(group_token(&Some(String::from("-f 20"))), Some(String::from("20")));
    assert_eq!(group_token(&Some(String::from("-f "))), Some(String::from("true")));
    assert_eq!(group_token(&Some(String::from("-f"))), None);
    assert_eq!(group_token(&None), None);
}

#[test]
fn same_text_compares_character_by_character() {
    assert!(same_text("true", "true"));
    assert!(same_text("", ""));
    assert!(!same_text("true", "True"));
    assert!(!same_text("true", "tru"));
    assert!(!same_text("", " "));
}
