use neko_tts::text::{push_decimal, push_milli, push_signed, quick_xml_escape, split_bar};

#[test]
fn xml_escape_ampersand() {
    assert_eq!(quick_xml_escape("A & B"), "A &amp; B");
}

#[test]
fn xml_escape_angle_brackets() {
    assert_eq!(quick_xml_escape("<hello>"), "&lt;hello&gt;");
}

#[test]
fn xml_escape_quotes() {
    assert_eq!(quick_xml_escape(r#"say "hi""#), "say &quot;hi&quot;");
    assert_eq!(quick_xml_escape("it's"), "it&apos;s");
}

#[test]
fn xml_escape_combined() {
    assert_eq!(
        quick_xml_escape(r#"A & B < C > D "E" F'G"#),
        "A &amp; B &lt; C &gt; D &quot;E&quot; F&apos;G"
    );
}

#[test]
fn xml_escape_no_special_chars() {
    assert_eq!(quick_xml_escape("Hello world 123"), "Hello world 123");
}

#[test]
fn xml_escape_empty_string() {
    assert_eq!(quick_xml_escape(""), "");
}

#[test]
fn xml_escape_unicode() {
    assert_eq!(quick_xml_escape("你好 & 世界"), "你好 &amp; 世界");
}

#[test]
fn decimal_notation() {
    let mut s = String::from("n=");
    push_decimal(&mut s, 0);
    assert_eq!(s, "n=0");
    let mut s = String::new();
    push_decimal(&mut s, 17493);
    assert_eq!(s, "17493");
    let mut s = String::new();
    push_decimal(&mut s, u64::MAX);
    assert_eq!(s, "18446744073709551615");
}

#[test]
fn signed_decimal_notation() {
    let mut s = String::new();
    push_signed(&mut s, -42);
    assert_eq!(s, "-42");
    let mut s = String::new();
    push_signed(&mut s, i32::MIN);
    assert_eq!(s, "-2147483648");
    let mut s = String::new();
    push_signed(&mut s, 7);
    assert_eq!(s, "7");
}

#[test]
fn milli_decimal_notation() {
    let mut s = String::new();
    push_milli(&mut s, 1250);
    assert_eq!(s, "1.250");
    let mut s = String::new();
    push_milli(&mut s, -500);
    assert_eq!(s, "-0.500");
    let mut s = String::new();
    push_milli(&mut s, 7);
    assert_eq!(s, "0.007");
}

#[test]
fn split_at_first_bar() {
    assert_eq!(split_bar("Zira|en-US"), ("Zira".to_string(), Some("en-US".to_string())));
    assert_eq!(split_bar("a|b|c"), ("a".to_string(), Some("b|c".to_string())));
    assert_eq!(split_bar("NoCulture"), ("NoCulture".to_string(), None));
    assert_eq!(split_bar("|x"), ("".to_string(), Some("x".to_string())));
}
