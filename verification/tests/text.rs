use hexosynth::dsp::text::{push_decimal, str_eq};

#[test]
fn str_eq_compares_by_content() {
    assert!(str_eq("", ""));
    assert!(str_eq("sin", "sin"));
    assert!(str_eq(&String::from("neg_att"), "neg_att"));
    assert!(!str_eq("sin", "sine"));
    assert!(!str_eq("sine", "sin"));
    assert!(!str_eq("sin", "son"));
    assert!(!str_eq("sin", "Sin"));
    assert!(!str_eq("", "a"));
    assert!(str_eq("größe", "größe"));
    assert!(!str_eq("größe", "grösse"));
    assert!(!str_eq("e\u{301}", "\u{e9}"));
}

#[test]
fn push_decimal_writes_every_byte_without_leading_zeros() {
    for n in 0..=255_u8 {
        let mut s = String::from("n=");
        push_decimal(&mut s, n);
        assert_eq!(s, format!("n={}", n));
    }
    let mut s = String::new();
    push_decimal(&mut s, 7);
    push_decimal(&mut s, 40);
    push_decimal(&mut s, 200);
    assert_eq!(s, "740200");
}
