use control_system::config::{parse_unsigned, Config, ConfigError, DEFAULT_REFRESH_SECS};

fn vars(user: Option<&str>, refresh: Option<&str>, reduced: Option<&str>) -> Result<Config, ConfigError> {
    Config::from_vars(
        None,
        user.map(|s| s.to_string()),
        refresh.map(|s| s.to_string()),
        reduced.map(|s| s.to_string()),
        "./control-system-cache.json".to_string(),
    )
}

#[test]
fn the_user_is_required() {
    let error = vars(None, Some("5"), Some("true")).unwrap_err();
    assert_eq!(error, ConfigError::MissingUser);
    assert_eq!(error.message(), "GITHUB_USER environment variable is required");
}

#[test]
fn defaults_apply_where_nothing_is_set() {
    let config = vars(Some("testuser"), None, None).unwrap();
    assert_eq!(config.github_user, "testuser");
    assert_eq!(config.refresh_secs, 60);
    assert_eq!(DEFAULT_REFRESH_SECS, 60);
    assert!(!config.reduced_motion);
    assert!(!config.has_token());
    assert_eq!(config.cache_path, "./control-system-cache.json");
}

#[test]
fn refresh_seconds_are_read_or_defaulted() {
    assert_eq!(vars(Some("u"), Some("5"), None).unwrap().refresh_secs, 5);
    assert_eq!(vars(Some("u"), Some("+120"), None).unwrap().refresh_secs, 120);
    assert_eq!(vars(Some("u"), Some("0"), None).unwrap().refresh_secs, 0);
    assert_eq!(vars(Some("u"), Some(""), None).unwrap().refresh_secs, 60);
    assert_eq!(vars(Some("u"), Some("abc"), None).unwrap().refresh_secs, 60);
    assert_eq!(vars(Some("u"), Some("-5"), None).unwrap().refresh_secs, 60);
    assert_eq!(vars(Some("u"), Some(" 5"), None).unwrap().refresh_secs, 60);
    assert_eq!(vars(Some("u"), Some("99999999999999999999"), None).unwrap().refresh_secs, 60);
}

#[test]
fn reduced_motion_is_true_or_one() {
    assert!(vars(Some("u"), None, Some("true")).unwrap().reduced_motion);
    assert!(vars(Some("u"), None, Some("1")).unwrap().reduced_motion);
    assert!(!vars(Some("u"), None, Some("TRUE")).unwrap().reduced_motion);
    assert!(!vars(Some("u"), None, Some("yes")).unwrap().reduced_motion);
    assert!(!vars(Some("u"), None, Some("0")).unwrap().reduced_motion);
    assert!(!vars(Some("u"), None, Some("")).unwrap().reduced_motion);
}

#[test]
fn a_token_is_kept() {
    let config = Config::from_vars(
        Some("a-token".to_string()),
        Some("u".to_string()),
        None,
        None,
        "c".to_string(),
    )
    .unwrap();
    assert!(config.has_token());
    let copy = config.clone();
    assert_eq!(copy.github_token.as_deref(), Some("a-token"));
    assert_eq!(copy.github_user, "u");
}

#[test]
fn parse_unsigned_reads_what_the_standard_parser_reads() {
    let texts = [
        "0", "7", "007", "+7", "++7", "+", "", "-0", "-7", "7 ", " 7", "1_000", "18446744073709551615",
        "18446744073709551616", "+18446744073709551615", "99999999999999999999999", "12a", "٣", "1.5",
        "0x10",
    ];
    for text in texts {
        assert_eq!(parse_unsigned(text), text.parse::<u64>().ok(), "{:?}", text);
    }
}
