use stress_fleet::provision::{
    auth_file_path, credential_json, login_url, synthetic_username, Credential,
};
use stress_fleet::textfmt::i32_to_string;

#[test]
fn renders_zero() {
    assert_eq!(i32_to_string(0), "0");
}

#[test]
fn renders_positive_numbers() {
    assert_eq!(i32_to_string(7), "7");
    assert_eq!(i32_to_string(42), "42");
    assert_eq!(i32_to_string(12345), "12345");
    assert_eq!(i32_to_string(i32::MAX), "2147483647");
}

#[test]
fn renders_negative_numbers() {
    assert_eq!(i32_to_string(-1), "-1");
    assert_eq!(i32_to_string(-105), "-105");
    assert_eq!(i32_to_string(i32::MIN), "-2147483648");
}

#[test]
fn builds_synthetic_usernames() {
    assert_eq!(synthetic_username("user", 101), "user101");
    assert_eq!(synthetic_username("load-", 5), "load-5");
    assert_eq!(synthetic_username("", 0), "0");
    assert_eq!(synthetic_username("tester", -3), "tester-3");
}

#[test]
fn builds_login_url() {
    assert_eq!(
        login_url("https://backend.example/"),
        "https://backend.example/api-token-auth/"
    );
    assert_eq!(login_url(""), "api-token-auth/");
}

#[test]
fn builds_auth_file_path() {
    assert_eq!(auth_file_path("cfg"), "./cfg/auth.json");
    assert_eq!(auth_file_path("deep/dir"), "./deep/dir/auth.json");
}

#[test]
fn renders_plain_credential_file() {
    assert_eq!(credential_json("abc123"), "{\n  \"token\": \"abc123\"\n}");
    assert_eq!(credential_json(""), "{\n  \"token\": \"\"\n}");
    let credential = Credential {
        token: "abc123".to_string(),
    };
    assert_eq!(credential.to_json(), "{\n  \"token\": \"abc123\"\n}");
}

#[test]
fn escapes_quotes_and_backslashes() {
    assert_eq!(
        credential_json("a\"b\\c"),
        "{\n  \"token\": \"a\\\"b\\\\c\"\n}"
    );
}

#[test]
fn escapes_control_characters() {
    assert_eq!(
        credential_json("line\nbreak\ttab\rret"),
        "{\n  \"token\": \"line\\nbreak\\ttab\\rret\"\n}"
    );
    assert_eq!(
        credential_json("\u{8}\u{c}\u{1}\u{1f}"),
        "{\n  \"token\": \"\\b\\f\\u0001\\u001f\"\n}"
    );
}

#[test]
fn credential_file_matches_standard_pretty_json() {
    for token in [
        "plain",
        "",
        "with \"quotes\" and \\slashes\\",
        "control\u{1}\u{1f}\nchars\t",
        "unicode \u{e9}\u{4e16}\u{754c}",
    ] {
        let mut object = serde_json::Map::new();
        object.insert(
            "token".to_string(),
            serde_json::Value::String(token.to_string()),
        );
        let expected = serde_json::to_string_pretty(&serde_json::Value::Object(object)).unwrap();
        assert_eq!(credential_json(token), expected);
    }
}
