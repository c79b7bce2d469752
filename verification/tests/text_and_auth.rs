use copilot_api_server::config::Config;
use copilot_api_server::error::AppError;
use copilot_api_server::middleware::auth;
use copilot_api_server::text::{is_white_space_char, strip_prefix, text_eq, trim};

fn config_with_key(key: &str) -> Config {
    let mut c = Config::default();
    c.api_key = key.to_string();
    c
}

#[test]
fn default_config_matches_documented_defaults() {
    let c = Config::default();
    assert_eq!(c.host, "127.0.0.1");
    assert_eq!(c.port, 8080);
    assert_eq!(c.api_key, "");
    assert_eq!(c.default_model, "auto");
}

#[test]
fn trim_removes_unicode_white_space_at_both_ends() {
    assert_eq!(trim("  abc \t\n"), "abc");
    assert_eq!(trim("\u{3000}a b\u{00A0}\u{2003}"), "a b");
    assert_eq!(trim("   "), "");
    assert_eq!(trim(""), "");
    assert_eq!(trim("x"), "x");
    assert_eq!(trim(trim(" \u{2028}a\t")), trim(" \u{2028}a\t"));
    for s in ["  abc \t\n", "\u{3000}a b\u{00A0}", " \u{85}\u{1680}z\u{205f}", "none"] {
        assert_eq!(trim(s), s.trim());
    }
}

#[test]
fn white_space_class_matches_std() {
    for c in ['\t', '\n', '\u{b}', '\u{c}', '\r', ' ', '\u{85}', '\u{a0}', '\u{1680}', '\u{2000}',
        '\u{200a}', '\u{2028}', '\u{2029}', '\u{202f}', '\u{205f}', '\u{3000}', 'a', '\u{200b}', '_']
    {
        assert_eq!(is_white_space_char(c), c.is_whitespace(), "{:?}", c);
    }
}

#[test]
fn strip_prefix_and_text_eq() {
    assert_eq!(strip_prefix("Bearer abc", "Bearer "), Some("abc"));
    assert_eq!(strip_prefix("Bearer", "Bearer "), None);
    assert_eq!(strip_prefix("bearer abc", "Bearer "), None);
    assert_eq!(strip_prefix("é-x", "é"), Some("-x"));
    assert!(text_eq("user", "user"));
    assert!(!text_eq("user", "users"));
    assert!(!text_eq("user", "usex"));
}

#[test]
fn auth_token_is_none_for_blank_keys() {
    assert_eq!(config_with_key("").auth_token(), None);
    assert_eq!(config_with_key("   ").auth_token(), None);
    assert_eq!(config_with_key("\t\u{3000}\n").auth_token(), None);
    assert_eq!(config_with_key("secret").auth_token(), Some("secret".to_string()));
    assert_eq!(config_with_key(" secret ").auth_token(), Some(" secret ".to_string()));
}

#[test]
fn auth_off_admits_every_request() {
    let c = config_with_key("  ");
    assert!(auth(&c, None).is_ok());
    assert!(auth(&c, Some("garbage")).is_ok());
    assert!(auth(&c, Some("Bearer x")).is_ok());
}

#[test]
fn auth_on_checks_the_bearer_token() {
    let c = config_with_key("secret");
    assert!(auth(&c, Some("Bearer secret")).is_ok());
    assert!(auth(&c, Some("Bearer   secret \t")).is_ok());
    assert!(matches!(auth(&c, None), Err(AppError::Unauthorized)));
    assert!(matches!(auth(&c, Some("")), Err(AppError::Unauthorized)));
    assert!(matches!(auth(&c, Some("Bearer ")), Err(AppError::Unauthorized)));
    assert!(matches!(auth(&c, Some("Bearer wrong")), Err(AppError::Unauthorized)));
    assert!(matches!(auth(&c, Some("bearer secret")), Err(AppError::Unauthorized)));
    assert!(matches!(auth(&c, Some("Basic secret")), Err(AppError::Unauthorized)));
    assert!(matches!(auth(&c, Some("Bearer secretx")), Err(AppError::Unauthorized)));
}

#[test]
fn auth_key_with_outer_space_matches_its_trimmed_form() {
    let c = config_with_key(" secret ");
    assert!(auth(&c, Some("Bearer  secret ")).is_ok());
    assert!(auth(&c, Some("Bearer secret")).is_ok());
    assert!(auth(&c, Some("Bearer \u{3000}secret")).is_ok());
    assert!(auth(&c, Some("Bearer secre")).is_err());
}

#[test]
fn error_status_codes() {
    assert_eq!(AppError::BadRequest("x".to_string()).status_code(), 400);
    assert_eq!(AppError::Unauthorized.status_code(), 401);
    assert_eq!(AppError::Upstream("y".to_string()).status_code(), 502);
    assert_eq!(AppError::Internal("z".to_string()).status_code(), 500);
    assert_eq!(AppError::BadRequest("x".to_string()).error_type(), "invalid_request_error");
    assert_eq!(AppError::Unauthorized.error_type(), "authentication_error");
    assert_eq!(AppError::Upstream("y".to_string()).error_type(), "upstream_error");
    assert_eq!(AppError::Internal("z".to_string()).error_type(), "internal_error");
    assert_eq!(AppError::BadRequest("x".to_string()).message(), "x");
    assert_eq!(AppError::Unauthorized.message(), "unauthorized");
    assert_eq!(AppError::Upstream("y".to_string()).message(), "y");
}
