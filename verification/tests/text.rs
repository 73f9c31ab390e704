use stim_sequencer::text::{append_decimal, append_joined, append_signed};

#[test]
fn append_decimal_writes_without_leading_zeros() {
    let mut text = String::from("n=");
    append_decimal(&mut text, 0);
    assert_eq!(text, "n=0");
    append_decimal(&mut text, 9);
    append_decimal(&mut text, 10);
    append_decimal(&mut text, 1005);
    assert_eq!(text, "n=09101005");
    let mut text = String::new();
    append_decimal(&mut text, u64::MAX);
    assert_eq!(text, "18446744073709551615");
}

#[test]
fn append_signed_writes_the_sign() {
    let mut text = String::new();
    append_signed(&mut text, -1);
    append_signed(&mut text, 0);
    append_signed(&mut text, 25);
    assert_eq!(text, "-1025");
    let mut text = String::new();
    append_signed(&mut text, i64::MIN);
    assert_eq!(text, "-9223372036854775808");
}

#[test]
fn append_joined_separates_the_numbers() {
    let mut text = String::from("[");
    append_joined(&mut text, &vec![3, 4, 10], ", ");
    assert_eq!(text, "[3, 4, 10");
    let mut text = String::new();
    append_joined(&mut text, &Vec::new(), "_");
    assert_eq!(text, "");
    append_joined(&mut text, &vec![7], "_");
    assert_eq!(text, "7");
    append_joined(&mut text, &vec![0, 4294967295], "");
    assert_eq!(text, "704294967295");
}
