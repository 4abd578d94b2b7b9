use lib::text::{push_decimal, push_hex, push_str};

#[test]
fn decimal_and_hex_digits() {
    let mut out = Vec::new();
    push_decimal(&mut out, 0);
    push_str(&mut out, " ");
    push_decimal(&mut out, 4294967295);
    push_str(&mut out, " ");
    push_hex(&mut out, 0xabc, 8);
    push_str(&mut out, " ");
    push_hex(&mut out, 0x1234_5678, 2);
    assert_eq!(String::from_utf8(out).unwrap(), "0 4294967295 00000abc 78");
}
