use ghommit::json::JsonText;
use ghommit::text::{decimal_text, octal_mode_text};

#[test]
fn decimal_numbers() {
    assert_eq!(decimal_text(0), "0");
    assert_eq!(decimal_text(9), "9");
    assert_eq!(decimal_text(10), "10");
    assert_eq!(decimal_text(1234567890), "1234567890");
    assert_eq!(decimal_text(u128::MAX), u128::MAX.to_string());
}

#[test]
fn octal_modes() {
    assert_eq!(octal_mode_text(0), "000000");
    assert_eq!(octal_mode_text(7), "000007");
    assert_eq!(octal_mode_text(0o040000), "040000");
    assert_eq!(octal_mode_text(0o100644), "100644");
    assert_eq!(octal_mode_text(u32::MAX), format!("{:0>6o}", u32::MAX));
}

#[test]
fn string_literals() {
    assert_eq!(JsonText::string("").into_string(), "\"\"");
    assert_eq!(JsonText::string("a/b").into_string(), "\"a/b\"");
    assert_eq!(
        JsonText::string("\"\\\u{8}\u{c}\n\r\t\0\u{1b}").into_string(),
        "\"\\\"\\\\\\b\\f\\n\\r\\t\\u0000\\u001b\""
    );
    assert_eq!(JsonText::string("\u{7f}\u{20ac}").into_string(), "\"\u{7f}\u{20ac}\"");
}

#[test]
fn every_ascii_character_reads_back() {
    for code in 0u8..128 {
        let text = (code as char).to_string();
        let literal = JsonText::string(&text).into_string();
        let back: String = serde_json::from_str(&literal).unwrap();
        assert_eq!(back, text);
    }
}

#[test]
fn composite_values() {
    let json = JsonText::object(vec![
        ("n", JsonText::null()),
        ("k\n", JsonText::array(vec![JsonText::number(7), JsonText::string("x")])),
        ("o", JsonText::object(Vec::new())),
        ("s", JsonText::optional_string(&Some("y".to_owned()))),
        ("t", JsonText::optional_string(&None)),
    ]);

    assert_eq!(
        json.into_string(),
        "{\"n\":null,\"k\\n\":[7,\"x\"],\"o\":{},\"s\":\"y\",\"t\":null}"
    );
}

#[test]
fn different_values_have_different_texts() {
    let nested = JsonText::array(vec![JsonText::array(vec![JsonText::number(12)])]).into_string();
    let flat = JsonText::array(vec![JsonText::number(1), JsonText::number(2)]).into_string();
    let text = JsonText::string("[1,2]").into_string();

    assert_eq!(nested, "[[12]]");
    assert_eq!(flat, "[1,2]");
    assert_eq!(text, "\"[1,2]\"");
}
