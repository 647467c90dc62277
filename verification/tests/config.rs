use ticket_backend::config::{parse_number, Config};
use ticket_backend::database::{ConfigError, DatabaseConfig};

#[test]
fn numbers_are_read_as_the_language_reads_them() {
    for text in ["0", "7", "3000", "65535", "+80", "007", "65536", "", "+", "-1", " 1", "1 ", "1_0", "12a", "٣"] {
        let expected = text.parse::<u16>().ok().map(|n| n as u64);
        assert_eq!(parse_number(text, 65535), expected, "text {:?}", text);
    }
    for text in ["4294967295", "4294967296", "99999999999999999999999", "+0010"] {
        let expected = text.parse::<u32>().ok().map(|n| n as u64);
        assert_eq!(parse_number(text, 4294967295), expected, "text {:?}", text);
    }
    assert_eq!(parse_number("18446744073709551615", u64::MAX), Some(u64::MAX));
    assert_eq!(parse_number("18446744073709551616", u64::MAX), None);
    assert_eq!(parse_number("5", 4), None);
    assert_eq!(parse_number("4", 4), Some(4));
}

#[test]
fn port_falls_back_to_the_default() {
    assert_eq!(Config::from_port_text(None), Config { port: 3000 });
    assert_eq!(Config::from_port_text(Some("8080")), Config { port: 8080 });
    assert_eq!(Config::from_port_text(Some("eighty")), Config { port: 3000 });
    assert_eq!(Config::from_port_text(Some("70000")), Config { port: 3000 });
    assert_eq!(Config::from_port_text(Some("")), Config { port: 3000 });
}

#[test]
fn store_settings() {
    assert_eq!(DatabaseConfig::from_values(None, None), Err(ConfigError::MissingUrl));
    assert_eq!(
        DatabaseConfig::from_values(None, Some("x".to_string())),
        Err(ConfigError::MissingUrl)
    );
    assert_eq!(
        DatabaseConfig::from_values(Some("postgres://db".to_string()), None),
        Ok(DatabaseConfig { url: "postgres://db".to_string(), max_connections: 10 })
    );
    assert_eq!(
        DatabaseConfig::from_values(Some("postgres://db".to_string()), Some("25".to_string())),
        Ok(DatabaseConfig { url: "postgres://db".to_string(), max_connections: 25 })
    );
    assert_eq!(
        DatabaseConfig::from_values(Some("postgres://db".to_string()), Some("many".to_string())),
        Err(ConfigError::InvalidMaxConnections)
    );
    assert_eq!(ConfigError::MissingUrl.message(), "DATABASE_URL 环境变量未设置");
    assert_eq!(
        ConfigError::InvalidMaxConnections.message(),
        "DATABASE_MAX_CONNECTIONS 必须是有效的数字"
    );
}
