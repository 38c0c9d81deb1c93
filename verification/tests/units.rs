use ghost::format_log_line;
use ghost::generate;
use ghost::normalize;
use ghost::parse_u16;
use ghost::u16_to_string;
use ghost::AccessLogRecord;
use ghost::NumError;
use ghost::ServerConfig;

#[test]
fn normalize_passes_open_interval_through() {
    assert_eq!(normalize(201), 201);
    assert_eq!(normalize(418), 418);
    assert_eq!(normalize(599), 599);
}

#[test]
fn normalize_clamps_everything_else() {
    assert_eq!(normalize(0), 200);
    assert_eq!(normalize(42), 200);
    assert_eq!(normalize(200), 200);
    assert_eq!(normalize(600), 200);
    assert_eq!(normalize(65535), 200);
}

#[test]
fn generate_length_and_alphabet() {
    let s = generate(0);
    assert_eq!(s, "");
    let s = generate(255);
    assert_eq!(s.chars().count(), 255);
    assert!(s.chars().all(|c| c.is_ascii_alphanumeric()));
}

#[test]
fn generate_largest_length() {
    let s = generate(65535);
    assert_eq!(s.chars().count(), 65535);
    assert!(s.chars().all(|c| c.is_ascii_alphanumeric()));
}

#[test]
fn u16_to_string_renders_decimal() {
    assert_eq!(u16_to_string(0), "0");
    assert_eq!(u16_to_string(7), "7");
    assert_eq!(u16_to_string(418), "418");
    assert_eq!(u16_to_string(65535), "65535");
}

#[test]
fn parse_u16_cases() {
    assert_eq!(parse_u16("8000"), Ok(8000));
    assert_eq!(parse_u16("+8000"), Ok(8000));
    assert_eq!(parse_u16("0"), Ok(0));
    assert_eq!(parse_u16("65535"), Ok(65535));
    assert_eq!(parse_u16(""), Err(NumError::Empty));
    assert_eq!(parse_u16("+"), Err(NumError::InvalidDigit));
    assert_eq!(parse_u16("str"), Err(NumError::InvalidDigit));
    assert_eq!(parse_u16("65536"), Err(NumError::PosOverflow));
    assert_eq!(parse_u16("00000065535"), Ok(65535));
    assert_eq!(parse_u16("65536x"), Err(NumError::PosOverflow));
    assert_eq!(parse_u16("12x3"), Err(NumError::InvalidDigit));
}

#[test]
fn server_config_validates_port() {
    let ok = ServerConfig::new(8000, true, "static".to_string(), "release".to_string());
    let cfg = ok.unwrap();
    assert_eq!(cfg.port, 8000);
    assert!(cfg.local);
    let err = ServerConfig::new(32768, false, "static".to_string(), "release".to_string());
    assert_eq!(err.unwrap_err(), "value should be less than 32768");
}

fn record() -> AccessLogRecord {
    AccessLogRecord {
        remote_ip: "127.0.0.1".to_string(),
        timestamp: "2024-01-01T00:00:00".to_string(),
        method: "GET".to_string(),
        path: "/healthcheck".to_string(),
        version: "HTTP/1.1".to_string(),
        status: 200,
        referer: None,
        user_agent: Some("curl/8.0".to_string()),
        host: Some("localhost:8000".to_string()),
        elapsed: "1.2ms".to_string(),
    }
}

#[test]
fn log_line_full_record() {
    let line = format_log_line(&record());
    assert_eq!(
        line,
        "127.0.0.1 - - 2024-01-01T00:00:00 \"GET /healthcheck HTTP/1.1\" 200 \"-\" \"curl/8.0\" \"localhost:8000\" 1.2ms"
    );
}

#[test]
fn log_line_missing_optionals_render_as_dash() {
    let mut r = record();
    r.user_agent = None;
    r.host = None;
    r.status = 404;
    let line = format_log_line(&r);
    assert_eq!(
        line,
        "127.0.0.1 - - 2024-01-01T00:00:00 \"GET /healthcheck HTTP/1.1\" 404 \"-\" \"-\" \"-\" 1.2ms"
    );
}
