use mail_tm::json::{credentials_body, json_string};

#[test]
fn plain_string_is_quoted() {
    assert_eq!(json_string("abc"), "\"abc\"");
    assert_eq!(json_string(""), "\"\"");
}

#[test]
fn special_characters_are_escaped() {
    assert_eq!(json_string("a\"b\\c"), "\"a\\\"b\\\\c\"");
    assert_eq!(json_string("\n\r\t\u{8}\u{c}"), "\"\\n\\r\\t\\b\\f\"");
    assert_eq!(json_string("\u{1}\u{1f}"), "\"\\u0001\\u001f\"");
}

#[test]
fn non_ascii_and_slash_stand_as_they_are() {
    assert_eq!(json_string("caf\u{e9}/x\u{7f}"), "\"caf\u{e9}/x\u{7f}\"");
}

#[test]
fn credentials_object() {
    assert_eq!(
        credentials_body("abc123@example.com", "p@ss13charslong"),
        "{\"address\":\"abc123@example.com\",\"password\":\"p@ss13charslong\"}"
    );
}

#[test]
fn credentials_object_escapes_password() {
    assert_eq!(
        credentials_body("a@b.c", "q\"uote"),
        "{\"address\":\"a@b.c\",\"password\":\"q\\\"uote\"}"
    );
}
