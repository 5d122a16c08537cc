use bene::{ArgValue, Malformed};

#[test]
fn booleans_read_true_and_false_only() {
    let mut b = false;
    assert_eq!(b.set_value("true"), Ok(()));
    assert_eq!(b, true);
    assert_eq!(b.set_value("false"), Ok(()));
    assert_eq!(b, false);
    b = true;
    for bad in ["", "True", "TRUE", "1", "0", "yes", "true ", " true", "truee", "fals"] {
        assert_eq!(b.set_value(bad), Err(Malformed));
        assert_eq!(b, true);
    }
}

#[test]
fn malformed_numbers_leave_the_variable() {
    let mut n: i32 = 41;
    let malformed =
        ["", "notanumber", "1.5", "1e3", "0x10", " 1", "1 ", "+", "-", "2147483648", "-2147483649"];
    for bad in malformed {
        assert_eq!(n.set_value(bad), Err(Malformed));
        assert_eq!(n, 41);
    }
}

#[test]
fn numbers_are_read_exactly() {
    let mut n: i32 = 0;
    assert_eq!(n.set_value("20"), Ok(()));
    assert_eq!(n, 20);
    assert_eq!(n.set_value("-20"), Ok(()));
    assert_eq!(n, -20);
    assert_eq!(n.set_value("+0020"), Ok(()));
    assert_eq!(n, 20);
    assert_eq!(n.set_value("2147483647"), Ok(()));
    assert_eq!(n, i32::MAX);
    assert_eq!(n.set_value("-2147483648"), Ok(()));
    assert_eq!(n, i32::MIN);
}

#[test]
fn every_unsigned_type_reads_its_bounds() {
    let mut a: u8 = 1;
    assert_eq!(a.set_value(&u8::MAX.to_string()), Ok(()));
    assert_eq!(a, u8::MAX);
    assert_eq!(a.set_value("256"), Err(Malformed));
    assert_eq!(a.set_value("-1"), Err(Malformed));
    assert_eq!(a.set_value("0"), Ok(()));
    assert_eq!(a, 0);

    let mut b: u16 = 1;
    assert_eq!(b.set_value(&u16::MAX.to_string()), Ok(()));
    assert_eq!(b, u16::MAX);
    assert_eq!(b.set_value("65536"), Err(Malformed));

    let mut c: u32 = 1;
    assert_eq!(c.set_value(&u32::MAX.to_string()), Ok(()));
    assert_eq!(c, u32::MAX);
    assert_eq!(c.set_value("4294967296"), Err(Malformed));

    let mut d: u64 = 1;
    assert_eq!(d.set_value(&u64::MAX.to_string()), Ok(()));
    assert_eq!(d, u64::MAX);
    assert_eq!(d.set_value("18446744073709551616"), Err(Malformed));

    let mut e: u128 = 1;
    assert_eq!(e.set_value(&u128::MAX.to_string()), Ok(()));
    assert_eq!(e, u128::MAX);
    assert_eq!(e.set_value("340282366920938463463374607431768211456"), Err(Malformed));

    let mut f: usize = 1;
    assert_eq!(f.set_value(&usize::MAX.to_string()), Ok(()));
    assert_eq!(f, usize::MAX);
    assert_eq!(f.set_value(&format!("{}0", usize::MAX)), Err(Malformed));
    assert_eq!(f, usize::MAX);
}

#[test]
fn every_signed_type_reads_its_bounds() {
    let mut a: i8 = 1;
    assert_eq!(a.set_value("127"), Ok(()));
    assert_eq!(a, i8::MAX);
    assert_eq!(a.set_value("-128"), Ok(()));
    assert_eq!(a, i8::MIN);
    assert_eq!(a.set_value("128"), Err(Malformed));
    assert_eq!(a.set_value("-129"), Err(Malformed));
    assert_eq!(a, i8::MIN);

    let mut b: i16 = 1;
    assert_eq!(b.set_value(&i16::MAX.to_string()), Ok(()));
    assert_eq!(b, i16::MAX);
    assert_eq!(b.set_value(&i16::MIN.to_string()), Ok(()));
    assert_eq!(b, i16::MIN);
    assert_eq!(b.set_value("32768"), Err(Malformed));

    let mut c: i64 = 1;
    assert_eq!(c.set_value(&i64::MAX.to_string()), Ok(()));
    assert_eq!(c, i64::MAX);
    assert_eq!(c.set_value(&i64::MIN.to_string()), Ok(()));
    assert_eq!(c, i64::MIN);
    assert_eq!(c.set_value("9223372036854775808"), Err(Malformed));

    let mut d: i128 = 1;
    assert_eq!(d.set_value(&i128::MAX.to_string()), Ok(()));
    assert_eq!(d, i128::MAX);
    assert_eq!(d.set_value(&i128::MIN.to_string()), Ok(()));
    assert_eq!(d, i128::MIN);
    assert_eq!(d.set_value("170141183460469231731687303715884105728"), Err(Malformed));
    assert_eq!(d.set_value("-170141183460469231731687303715884105729"), Err(Malformed));
    assert_eq!(d, i128::MIN);

    let mut e: isize = 1;
    assert_eq!(e.set_value(&isize::MAX.to_string()), Ok(()));
    assert_eq!(e, isize::MAX);
    assert_eq!(e.set_value(&isize::MIN.to_string()), Ok(()));
    assert_eq!(e, isize::MIN);
}

#[test]
fn integers_agree_with_the_standard_grammar() {
    let samples = [
        "", "0", "-0", "+0", "00", "1", "-1", "+1", "127", "128", "-128", "-129", "255", "256",
        "+255", "-255", "0255", "+", "-", "++1", "--1", "+-1", "1+", "1-", " 1", "1 ", "1_000",
        "1,000", "1.0", "1e1", "0x1f", "a", "٣", "１２",
        "99999999999999999999999999999999999999999",
        "-99999999999999999999999999999999999999999", "32767", "32768", "-32768", "-32769",
        "65535", "65536", "true",
    ];
    for s in samples {
        let mut a: u8 = 3;
        assert_eq!(a.set_value(s).is_ok(), s.parse::<u8>().is_ok());
        assert_eq!(a, s.parse::<u8>().unwrap_or(3));
        let mut b: i8 = 3;
        assert_eq!(b.set_value(s).is_ok(), s.parse::<i8>().is_ok());
        assert_eq!(b, s.parse::<i8>().unwrap_or(3));
        let mut c: u16 = 3;
        assert_eq!(c.set_value(s).is_ok(), s.parse::<u16>().is_ok());
        assert_eq!(c, s.parse::<u16>().unwrap_or(3));
        let mut d: i16 = 3;
        assert_eq!(d.set_value(s).is_ok(), s.parse::<i16>().is_ok());
        assert_eq!(d, s.parse::<i16>().unwrap_or(3));
        let mut e: u128 = 3;
        assert_eq!(e.set_value(s).is_ok(), s.parse::<u128>().is_ok());
        assert_eq!(e, s.parse::<u128>().unwrap_or(3));
        let mut f: i128 = 3;
        assert_eq!(f.set_value(s).is_ok(), s.parse::<i128>().is_ok());
        assert_eq!(f, s.parse::<i128>().unwrap_or(3));
        let mut g = true;
        assert_eq!(g.set_value(s).is_ok(), s.parse::<bool>().is_ok());
        let mut h = 'q';
        assert_eq!(h.set_value(s).is_ok(), s.parse::<char>().is_ok());
        assert_eq!(h, s.parse::<char>().unwrap_or('q'));
    }
}

#[test]
fn characters_read_a_single_character() {
    let mut c = 'a';
    assert_eq!(c.set_value("b"), Ok(()));
    assert_eq!(c, 'b');
    assert_eq!(c.set_value("é"), Ok(()));
    assert_eq!(c, 'é');
    assert_eq!(c.set_value(""), Err(Malformed));
    assert_eq!(c.set_value("ab"), Err(Malformed));
    assert_eq!(c, 'é');
}

#[test]
fn text_reads_any_token() {
    let mut s = String::from("old");
    assert_eq!(s.set_value("new"), Ok(()));
    assert_eq!(s, "new");
    assert_eq!(s.set_value(""), Ok(()));
    assert_eq!(s, "");
    assert_eq!(s.set_value("two words"), Ok(()));
    assert_eq!(s, "two words");
}
