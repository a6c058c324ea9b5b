//! Rendering tests: JSON string escaping, decimal text, and the error
//! description.

use waifuvault::api::WaifuError;
use waifuvault::render::dec_string;
use waifuvault::render::quoted;

#[test]
fn quoting_escapes_quotes_and_backslashes() {
    assert_eq!(quoted("plain"), "\"plain\"");
    assert_eq!(quoted("a\"b"), "\"a\\\"b\"");
    assert_eq!(quoted("a\\b"), "\"a\\\\b\"");
    assert_eq!(quoted(""), "\"\"");
}

#[test]
fn quoting_escapes_control_characters() {
    assert_eq!(quoted("a\nb"), "\"a\\u000ab\"");
    assert_eq!(quoted("\t"), "\"\\u0009\"");
    assert_eq!(quoted("\u{1f}"), "\"\\u001f\"");
}

#[test]
fn quoting_passes_other_text_through() {
    assert_eq!(quoted("pässword €"), "\"pässword €\"");
}

#[test]
fn decimal_rendering_is_exact() {
    assert_eq!(dec_string(0), "0");
    assert_eq!(dec_string(7), "7");
    assert_eq!(dec_string(404), "404");
    assert_eq!(dec_string(18_446_744_073_709_551_615), "18446744073709551615");
}

#[test]
fn error_description_carries_name_status_and_message() {
    let e = WaifuError {
        name: "NotFoundException".to_string(),
        message: "no such token".to_string(),
        status: 404,
    };
    assert_eq!(
        e.describe(),
        "WaifuError NotFoundException (404)\nMessage: no such token"
    );
}
