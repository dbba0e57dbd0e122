use crumb::config::{
    build_config, from_raw_string, parse_bool, parse_compression, parse_env_line, parse_port,
    CompressionType, Config, ConfigError, EnvLine,
};

#[test]
fn raw_empty_string() {
    let raw = from_raw_string(r#""#);
    assert_eq!("", raw);
}

#[test]
fn raw_empty_string_with_double_quotes() {
    let not_raw = from_raw_string("\"\"");
    assert_eq!("", not_raw);
}

#[test]
fn raw_empty_string_with_single_quotes() {
    let not_raw = from_raw_string("\'\'");
    assert_eq!("", not_raw);
}

#[test]
fn raw_empty_string_with_many_double_quotes() {
    let raw = from_raw_string(r#"s"t"u"ff"""#);
    assert_ne!("stuff", raw);
}

#[test]
fn raw_empty_string_with_many_single_quotes() {
    let raw = from_raw_string(r#"s't'u'ff''"#);
    assert_ne!("stuff", raw);
}

#[test]
fn compression_type_from_str() {
    assert_eq!(CompressionType::Zstd, "zstd".parse().unwrap());
    assert_eq!(CompressionType::Gzip, "gzip".parse().unwrap());
    assert_eq!(CompressionType::Uncompressed, "none".parse().unwrap());
    assert_eq!(CompressionType::Zstd, "ZSTD".parse().unwrap());
    assert_eq!(CompressionType::Gzip, "GZIP".parse().unwrap());
    assert_eq!(CompressionType::Uncompressed, "NONE".parse().unwrap());
}

#[test]
fn bad_compression_type_rejected() {
    assert_eq!(
        parse_compression(""),
        Err("Invalid compression type.")
    );
    assert_eq!(
        parse_compression("gzipper"),
        Err("Invalid compression type.")
    );
}

#[test]
fn raw_string_keeps_inner_spaces() {
    assert_eq!("x", from_raw_string("  \"x\"  "));
    assert_eq!(" x ", from_raw_string("\" x \""));
    assert_eq!("its/just/a/test.pem", from_raw_string("\"its/just/a/test.pem\""));
}

#[test]
fn raw_string_trims_unicode_space() {
    assert_eq!("abc", from_raw_string("\u{2000}abc\u{3000}"));
    assert_eq!("abc", from_raw_string("\t 'abc' \r"));
}

#[test]
fn port_parsing_exact() {
    assert_eq!(Some(55555), parse_port("55555"));
    assert_eq!(Some(123), parse_port("+123"));
    assert_eq!(Some(65535), parse_port("65535"));
    assert_eq!(Some(50), parse_port("0050"));
    assert_eq!(None, parse_port("65536"));
    assert_eq!(None, parse_port(""));
    assert_eq!(None, parse_port("+"));
    assert_eq!(None, parse_port("12a"));
    assert_eq!(None, parse_port("woops"));
    assert_eq!(None, parse_port("\"55555\""));
}

#[test]
fn bool_parsing_exact() {
    assert_eq!(Some(true), parse_bool("true"));
    assert_eq!(Some(false), parse_bool("false"));
    assert_eq!(None, parse_bool("TRUE"));
    assert_eq!(None, parse_bool("farse"));
    assert_eq!(None, parse_bool(""));
}

#[test]
fn config_default_values() {
    let c = Config::default();
    assert_eq!(c.host, "127.0.0.1");
    assert_eq!(c.port, 50505);
    assert_eq!(c.compression_type, CompressionType::Zstd);
    assert!(c.reliable);
    assert_eq!(c.pem_path, "cert.pem");
    assert_eq!(c.proto_path, "message.proto");
}

#[test]
fn config_from_full_values() {
    let config = build_config(
        Some("1.2.3.4".to_string()),
        Some("55555".to_string()),
        Some("gzip".to_string()),
        Some("false".to_string()),
        Some("\"its/just/a/test.pem\"".to_string()),
        Some("\"testing/tests/stuff.proto\"".to_string()),
    )
    .unwrap();
    assert_eq!(config.host, "1.2.3.4".to_owned());
    assert_eq!(config.port, 55555);
    assert_eq!(config.compression_type, CompressionType::Gzip);
    assert_eq!(config.reliable, false);
    assert_eq!(config.pem_path, "its/just/a/test.pem".to_owned());
    assert_eq!(config.proto_path, "testing/tests/stuff.proto".to_owned());
}

#[test]
fn config_from_unset_values() {
    let config = build_config(None, None, None, None, None, Some("message.proto".to_string()))
        .unwrap();
    assert_eq!(config.host, "127.0.0.1");
    assert_eq!(config.port, 0);
    assert_eq!(config.compression_type, CompressionType::Zstd);
    assert_eq!(config.reliable, false);
    assert_eq!(config.pem_path, "");
    assert_eq!(config.proto_path, "message.proto");
}

#[test]
fn config_from_bad_values() {
    let config = build_config(
        Some("1234".to_string()),
        Some("\"woops\"".to_string()),
        Some("gzipper".to_string()),
        Some("farse".to_string()),
        Some("1".to_string()),
        Some("1000".to_string()),
    )
    .unwrap();
    assert_eq!(config.port, 0);
    assert_eq!(config.compression_type, CompressionType::Zstd);
    assert_eq!(config.reliable, false);
}

#[test]
fn config_needs_proto_path() {
    let r = build_config(None, None, None, None, None, None);
    assert!(matches!(r, Err(ConfigError::MissingProtoPath)));
}

#[test]
fn env_line_blank_and_comment() {
    assert_eq!(parse_env_line(""), EnvLine::Skip);
    assert_eq!(parse_env_line("   "), EnvLine::Skip);
    assert_eq!(parse_env_line("# only a comment"), EnvLine::Skip);
    assert_eq!(parse_env_line("  # indented comment"), EnvLine::Skip);
}

#[test]
fn env_line_plain_pair() {
    assert_eq!(
        parse_env_line("CRUMB_PORT=55555"),
        EnvLine::Pair("CRUMB_PORT".to_string(), "55555".to_string())
    );
    assert_eq!(
        parse_env_line("  KEY =  value "),
        EnvLine::Pair("KEY".to_string(), "value".to_string())
    );
}

#[test]
fn env_line_quotes_and_comments() {
    // Quote characters vanish; an unquoted `#` cuts the rest off; a quoted
    // `#` stays.
    assert_eq!(
        parse_env_line("CRUMB_HOST=\"1.2.3.4\" # a comment"),
        EnvLine::Pair("CRUMB_HOST".to_string(), "1.2.3.4".to_string())
    );
    assert_eq!(
        parse_env_line("CRUMB_PEM_PATH=\"#its/just/a/test.pem\" # and this goes"),
        EnvLine::Pair("CRUMB_PEM_PATH".to_string(), "#its/just/a/test.pem".to_string())
    );
}

#[test]
fn env_line_malformed_and_invalid() {
    assert_eq!(parse_env_line("no equals sign"), EnvLine::Malformed);
    assert_eq!(parse_env_line("x # = hidden"), EnvLine::Malformed);
    assert_eq!(parse_env_line("=value"), EnvLine::Invalid);
    assert_eq!(parse_env_line("key="), EnvLine::Invalid);
    assert_eq!(parse_env_line(" = "), EnvLine::Invalid);
}
