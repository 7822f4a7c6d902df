use taurcord::encoding::{js_b64, js_b64_expression, quote_js_name};

#[test]
fn js_b64_wraps_standard_base64_of_ascii() {
    assert_eq!(js_b64("hi"), "decodeURIComponent(escape(atob('aGk=')))");
}

#[test]
fn js_b64_encodes_utf8_bytes() {
    // "é" is the two bytes C3 A9.
    assert_eq!(js_b64("é"), "decodeURIComponent(escape(atob('w6k=')))");
}

#[test]
fn js_b64_of_empty_text() {
    assert_eq!(js_b64(""), "decodeURIComponent(escape(atob('')))");
}

#[test]
fn js_b64_hides_quotes_and_script_ends() {
    let expr = js_b64("');</script><script>alert(1)//");
    let payload = &expr["decodeURIComponent(escape(atob('".len()..expr.len() - "')))".len()];
    assert!(payload.chars().all(|c| c.is_ascii_alphanumeric() || c == '+' || c == '/' || c == '='));
    assert_eq!(payload, "Jyk7PC9zY3JpcHQ+PHNjcmlwdD5hbGVydCgxKS8v");
}

#[test]
fn js_b64_expression_wraps_text() {
    assert_eq!(js_b64_expression("QQ=="), "decodeURIComponent(escape(atob('QQ==')))");
}

#[test]
fn quote_js_name_plain() {
    assert_eq!(quote_js_name("midnight.theme.css"), "'midnight.theme.css'");
}

#[test]
fn quote_js_name_escapes_quote_and_backslash() {
    assert_eq!(quote_js_name("it's a\\b"), "'it\\'s a\\\\b'");
}

#[test]
fn quote_js_name_backslash_before_quote() {
    // A backslash followed by a quote must not turn into an escaped quote that closes nothing.
    assert_eq!(quote_js_name("\\'"), "'\\\\\\''");
}

#[test]
fn quote_js_name_keeps_unicode() {
    assert_eq!(quote_js_name("thème ✨.css"), "'thème ✨.css'");
}

#[test]
fn quote_js_name_empty() {
    assert_eq!(quote_js_name(""), "''");
}

#[test]
fn js_b64_payload_length_is_padded_length() {
    for (text, len) in [("", 0), ("a", 4), ("ab", 4), ("abc", 4), ("abcd", 8), ("é", 4), ("ééé", 8)] {
        let expr = js_b64(text);
        let payload_len = expr.len() - "decodeURIComponent(escape(atob('".len() - "')))".len();
        assert_eq!(payload_len, len, "{text}");
    }
}
