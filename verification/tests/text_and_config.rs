use portfolio::config::{ConfigValue, EnvVarError, ServerConfig, server_config};
use portfolio::text::{decimal_string, parse_env_line, parse_u16, sanitize_filename, str_eq, trim};

#[test]
fn sanitize_keeps_only_safe_characters() {
    assert_eq!(sanitize_filename("my photo!.jpg"), "myphoto.jpg");
    assert_eq!(sanitize_filename("../../etc/passwd"), "....etcpasswd");
    assert_eq!(sanitize_filename("Ünïcödé_-.png"), "ncd_-.png");
    assert_eq!(sanitize_filename(""), "");
}

#[test]
fn sanitize_is_idempotent_on_examples() {
    for name in ["a b c.txt", "x/y\\z.JPG", "ok_name-1.png", "???"] {
        let once = sanitize_filename(name);
        assert_eq!(sanitize_filename(&once), once);
    }
}

#[test]
fn parse_u16_follows_std() {
    assert_eq!(parse_u16("8080"), Some(8080));
    assert_eq!(parse_u16("+5"), Some(5));
    assert_eq!(parse_u16("0"), Some(0));
    assert_eq!(parse_u16("65535"), Some(65535));
    assert_eq!(parse_u16("65536"), None);
    assert_eq!(parse_u16("-5"), None);
    assert_eq!(parse_u16("+"), None);
    assert_eq!(parse_u16(""), None);
    assert_eq!(parse_u16("12a"), None);
    assert_eq!(parse_u16(" 1"), None);
    for s in ["8080", "+5", "65536", "-5", "+", "", "007", "99999999999"] {
        assert_eq!(parse_u16(s), s.parse::<u16>().ok());
    }
}

#[test]
fn decimal_reads_back() {
    for n in [0u16, 7, 10, 99, 100, 1234, 65535] {
        let text = decimal_string(n as u64);
        assert_eq!(text, n.to_string());
        assert_eq!(parse_u16(&text), Some(n));
    }
}

#[test]
fn trim_matches_std() {
    for s in ["  a b \t", "\u{3000}x\u{2028}", "", "   ", "abc"] {
        assert_eq!(trim(s), s.trim());
        assert_eq!(trim(&trim(s)), trim(s));
    }
}

#[test]
fn env_lines() {
    assert_eq!(parse_env_line("HOST = 127.0.0.1 "), Some(("HOST".to_string(), "127.0.0.1".to_string())));
    assert_eq!(parse_env_line("A=b=c"), Some(("A".to_string(), "b=c".to_string())));
    assert_eq!(parse_env_line("# comment = x"), None);
    assert_eq!(parse_env_line("   "), None);
    assert_eq!(parse_env_line("NO_EQUALS"), None);
    assert_eq!(parse_env_line(" #not a comment=1"), Some(("#not a comment".to_string(), "1".to_string())));
}

#[test]
fn str_eq_compares_text() {
    assert!(str_eq("abc", "abc"));
    assert!(!str_eq("abc", "abd"));
    assert!(!str_eq("abc", "ab"));
}

#[test]
fn config_values_as_text() {
    assert_eq!(ConfigValue::StringValue("0.0.0.0".to_string()).to_string(), "0.0.0.0");
    assert_eq!(ConfigValue::NumberValue(8080).to_string(), "8080");
    assert_eq!(ConfigValue::PathValue("/srv/db.sqlite".to_string()).to_string(), "/srv/db.sqlite");
    assert_eq!(ConfigValue::StringValue("h".to_string()).as_str(), "h");
    assert_eq!(ConfigValue::NumberValue(3).as_num(), 3);
    assert_eq!(ConfigValue::PathValue("p".to_string()).as_path_buf(), "p");
}

fn ok(s: &str) -> Result<String, EnvVarError> {
    Ok(s.to_string())
}

#[test]
fn server_config_from_environment() {
    let c = server_config(ok("127.0.0.1"), ok("8080"), ok("data/site.db"), ok("secret"), "/srv".to_string())
        .unwrap();
    assert_eq!(c.host, "127.0.0.1");
    assert_eq!(c.port, 8080);
    assert_eq!(c.db, "/srv/data/site.db");
    assert_eq!(c.pwd, "secret");
    assert_eq!(c.root_dir, "/srv");

    let c = server_config(ok("h"), ok("1"), ok("/abs/site.db"), ok("p"), "/srv".to_string()).unwrap();
    assert_eq!(c.db, "/abs/site.db");
}

#[test]
fn server_config_reports_first_missing_variable() {
    let r = server_config(Err(EnvVarError::NotPresent), Err(EnvVarError::NotUnicode), ok("d"), ok("p"), "/".to_string());
    assert!(matches!(r, Err(EnvVarError::NotPresent)));
    let r = server_config(ok("h"), Err(EnvVarError::NotUnicode), ok("d"), ok("p"), "/".to_string());
    assert!(matches!(r, Err(EnvVarError::NotUnicode)));
    let r = server_config(ok("h"), ok("80"), Err(EnvVarError::NotPresent), ok("p"), "/".to_string());
    assert!(matches!(r, Err(EnvVarError::NotPresent)));
    let r = server_config(ok("h"), ok("80"), ok("d"), Err(EnvVarError::NotPresent), "/".to_string());
    assert!(matches!(r, Err(EnvVarError::NotPresent)));
}

#[test]
fn server_config_lookup_by_name() {
    let c = ServerConfig {
        host: "h".to_string(),
        port: 9,
        db: "/d".to_string(),
        pwd: "p".to_string(),
        root_dir: "/r".to_string(),
    };
    assert!(matches!(c.get("host"), Some(ConfigValue::StringValue(s)) if s == "h"));
    assert!(matches!(c.get("port"), Some(ConfigValue::NumberValue(9))));
    assert!(matches!(c.get("db"), Some(ConfigValue::PathValue(s)) if s == "/d"));
    assert!(matches!(c.get("pwd"), Some(ConfigValue::StringValue(s)) if s == "p"));
    assert!(matches!(c.get("root_dir"), Some(ConfigValue::PathValue(s)) if s == "/r"));
    assert!(c.get("other").is_none());
}
