use runtime_emulator::text::{chars_of, concat2, split_fields, str_ends_with};

#[test]
fn chars_of_keeps_every_character() {
    assert_eq!(chars_of("a\u{e9}\u{1F600}"), vec!['a', '\u{e9}', '\u{1F600}']);
    assert_eq!(chars_of(""), Vec::<char>::new());
}

#[test]
fn split_fields_is_split_of_std() {
    for s in ["", ":", "a", "a:b", ":a", "a:", "a::b", "arn:aws:lambda:us-east-1:1:function:f"] {
        let expected: Vec<String> = s.split(':').map(String::from).collect();
        assert_eq!(split_fields(s, ':'), expected, "{:?}", s);
    }
}

#[test]
fn split_fields_of_empty_text_is_one_empty_field() {
    assert_eq!(split_fields("", '.'), vec![String::new()]);
}

#[test]
fn ends_with_is_that_of_std() {
    let cases = [("", ""), ("a", ""), ("", "a"), ("abc", "bc"), ("abc", "abc"), ("abc", "xabc"),
        ("abc", "ab"), ("\u{e9}x", "x"), ("x\u{e9}", "\u{e9}")];
    for (s, suffix) in cases {
        assert_eq!(str_ends_with(s, suffix), s.ends_with(suffix), "{:?} {:?}", s, suffix);
    }
}

#[test]
fn concat2_joins() {
    assert_eq!(concat2("cargo-", "lambda"), "cargo-lambda");
}
