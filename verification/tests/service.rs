use ttn_ingest::config::{Config, ConfigError, Variables};
use ttn_ingest::health::HealthStatus;
use ttn_ingest::http::{health_response, is_health_request, respond, respond_to};
use ttn_ingest::reconnect::{delay_secs, stayed_connected, Backoff};

const SEC: u64 = 1_000_000_000;

fn variables() -> Variables {
    Variables {
        influxdb_url: None,
        influxdb_token: Some("token".to_string()),
        influxdb_org: None,
        influxdb_bucket: None,
        ttn_app_id: None,
        ttn_api_key: Some("key".to_string()),
        ttn_region: None,
        ttn_cursor_file: None,
    }
}

fn configured(vars: Variables) -> Config {
    match Config::from_variables(vars) {
        Ok(c) => c,
        Err(_) => panic!("refused"),
    }
}

fn refused(vars: Variables) -> ConfigError {
    match Config::from_variables(vars) {
        Ok(_) => panic!("accepted"),
        Err(e) => e,
    }
}

#[test]
fn missing_variables_have_defaults() {
    let c = configured(variables());
    assert_eq!(c.influx_url, "http://localhost:8086");
    assert_eq!(c.influx_token, "token");
    assert_eq!(c.influx_org, "victron-monitoring");
    assert_eq!(c.bucket, "victron-data");
    assert_eq!(c.ttn_app_id, "vanman");
    assert_eq!(c.ttn_api_key, "key");
    assert_eq!(c.ttn_region, "eu1");
    assert_eq!(c.cursor_path, "/var/lib/ttn-ingest/cursor");
}

#[test]
fn variables_replace_the_defaults() {
    let mut vars = variables();
    vars.influxdb_url = Some("http://db".to_string());
    vars.influxdb_org = Some("org".to_string());
    vars.influxdb_bucket = Some(String::new());
    vars.ttn_app_id = Some("app".to_string());
    vars.ttn_region = Some("nam1".to_string());
    vars.ttn_cursor_file = Some("cursor".to_string());
    let c = configured(vars);
    assert_eq!(c.influx_url, "http://db");
    assert_eq!(c.influx_org, "org");
    assert_eq!(c.bucket, "");
    assert_eq!(c.ttn_app_id, "app");
    assert_eq!(c.ttn_region, "nam1");
    assert_eq!(c.cursor_path, "cursor");
}

#[test]
fn token_and_key_have_no_default() {
    let mut vars = variables();
    vars.ttn_api_key = None;
    assert_eq!(refused(vars), ConfigError::TtnApiKey);
    let mut vars = variables();
    vars.influxdb_token = None;
    vars.ttn_api_key = None;
    assert_eq!(refused(vars), ConfigError::InfluxToken);
    assert_eq!(ConfigError::InfluxToken.message(), "INFLUXDB_TOKEN not set");
    assert_eq!(ConfigError::TtnApiKey.message(), "TTN_API_KEY not set");
}

#[test]
fn a_message_is_good_for_five_minutes() {
    let mut h = HealthStatus::new(0);
    assert!(h.is_healthy(300 * SEC - 1));
    assert!(!h.is_healthy(300 * SEC));
    h.update_message_received(400 * SEC);
    assert!(h.is_healthy(700 * SEC - 1));
    assert!(!h.is_healthy(700 * SEC));
    assert!(h.is_healthy(0));
}

#[test]
fn the_status_tells_what_happened() {
    let mut h = HealthStatus::new(5 * SEC);
    h.update_reconnect();
    h.update_reconnect();
    h.update_message_received(10 * SEC + 1);
    let r = h.get_status(13 * SEC);
    assert_eq!(r.status, "healthy");
    assert_eq!(r.last_message_ago_secs, 2);
    assert_eq!(r.messages_processed, 1);
    assert_eq!(r.reconnect_count, 2);
    assert_eq!(r.uptime_secs, 8);
    assert_eq!(h.get_status(400 * SEC).status, "unhealthy");
}

#[test]
fn counters_start_again() {
    let mut h = HealthStatus::new(0);
    h.messages_processed = u64::MAX;
    h.reconnect_count = u64::MAX;
    h.update_message_received(1);
    h.update_reconnect();
    assert_eq!(h.messages_processed, 0);
    assert_eq!(h.reconnect_count, 0);
}

#[test]
fn a_lost_time_stays_unhealthy() {
    let mut h = HealthStatus::new(0);
    h.last_message_time = None;
    h.update_message_received(7);
    assert_eq!(h.messages_processed, 1);
    assert_eq!(h.last_message_time, None);
    assert!(!h.is_healthy(7));
    let r = h.get_status(9 * SEC);
    assert_eq!(r.status, "unhealthy");
    assert_eq!(r.last_message_ago_secs, 0);
}

#[test]
fn the_health_is_answered() {
    let request = b"GET /health HTTP/1.1\r\nHost: x\r\n\r\n";
    assert_eq!(
        respond(request, true, Some("{\"a\":\"\u{e9}\"}")).unwrap(),
        "HTTP/1.1 200 OK\r\nContent-Type: application/json\r\nContent-Length: 10\r\n\r\n{\"a\":\"\u{e9}\"}"
    );
    assert_eq!(
        respond(request, false, None).unwrap(),
        "HTTP/1.1 503 Service Unavailable\r\nContent-Type: application/json\r\nContent-Length: 2\r\n\r\n{}"
    );
    assert_eq!(health_response(false, ""), "HTTP/1.1 503 Service Unavailable\r\nContent-Type: application/json\r\nContent-Length: 0\r\n\r\n");
}

#[test]
fn other_requests_are_not_found() {
    let not_found = "HTTP/1.1 404 Not Found\r\nContent-Length: 9\r\n\r\nNot Found";
    assert_eq!(respond(b"GET / HTTP/1.1\r\n\r\n", true, Some("{}")).unwrap(), not_found);
    assert_eq!(respond(b"POST /health", true, Some("{}")).unwrap(), not_found);
    assert_eq!(respond(b"\xff\xfe", true, Some("{}")).unwrap(), not_found);
    assert_eq!(respond(b"", true, Some("{}")), None);
}

#[test]
fn the_text_of_a_request_is_answered() {
    assert_eq!(respond_to("GET /health", true, Some("{}")), health_response(true, "{}"));
    assert_eq!(respond_to("GET /health", false, None), health_response(false, "{}"));
    let not_found = "HTTP/1.1 404 Not Found\r\nContent-Length: 9\r\n\r\nNot Found";
    assert_eq!(respond_to("", true, Some("{}")), not_found);
    assert_eq!(respond_to("\u{e9}", true, None), not_found);
    assert_eq!(
        respond("\u{e9}GET /health".as_bytes(), true, Some("{}")).unwrap(),
        respond_to("\u{e9}GET /health", true, Some("{}"))
    );
}

#[test]
fn the_path_may_stand_anywhere() {
    assert!(is_health_request("GET /healthz"));
    assert!(is_health_request("x\nGET /health"));
    assert!(!is_health_request("GET /healt"));
    assert!(!is_health_request("get /health"));
    assert_eq!(
        respond(b"\xffGET /health", true, Some("")).unwrap(),
        health_response(true, "")
    );
}

#[test]
fn the_wait_doubles_up_to_five_minutes() {
    let waits: Vec<u64> = (0..12).map(delay_secs).collect();
    assert_eq!(waits, vec![2, 2, 4, 8, 16, 32, 64, 128, 256, 300, 300, 300]);
    assert_eq!(delay_secs(u32::MAX), 300);
}

#[test]
fn a_stream_that_stayed_up_resets_the_wait() {
    let mut h = HealthStatus::new(0);
    let mut b = Backoff::new();
    assert_eq!(b.stream_ended(&mut h, true, None, 5, Some(999)), 2_999);
    assert_eq!(b.stream_ended(&mut h, true, Some(10), 60 * SEC + 9, Some(1_000)), 4_000);
    assert_eq!(b.stream_ended(&mut h, false, None, 5, None), 8_000);
    assert_eq!(b.attempt, 3);
    assert_eq!(h.reconnect_count, 2);
    assert_eq!(b.stream_ended(&mut h, true, Some(10), 60 * SEC + 10, Some(123_456_789)), 2_789);
    assert_eq!(b.attempt, 0);
    assert_eq!(h.reconnect_count, 3);
    b.attempt = u32::MAX;
    assert_eq!(b.stream_ended(&mut h, false, None, 5, None), 300_000);
    assert_eq!(b.attempt, u32::MAX);
}

#[test]
fn a_stream_stays_up_for_a_minute() {
    assert!(!stayed_connected(None, u64::MAX));
    assert!(!stayed_connected(Some(0), 60 * SEC - 1));
    assert!(stayed_connected(Some(0), 60 * SEC));
    assert!(!stayed_connected(Some(9), 0));
}
