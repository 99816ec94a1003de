use ocmapi::config::{configuration, probe_address_of, RawConfig};
use ocmapi::logs::{log_data, log_entry_of, log_file_line_of, log_file_path_of, server_event_of};
use ocmapi::number::parse_i32_of;
use ocmapi::reply::LogRecord;
use ocmapi::text::decimal_of;

fn vdata() -> Vec<String> {
    vec![
        "10.0.0.5".to_string(),
        "https".to_string(),
        "/v1/pods/getState".to_string(),
        "api.local:8443".to_string(),
        "\"curl/8.5.0\"".to_string(),
    ]
}

fn chars(s: &str) -> Vec<char> {
    s.chars().collect()
}

#[test]
fn log_data_gives_the_ten_cef_fields() {
    let f = log_data(400, "Bad Request", 4, "DELETE", vdata(), "192.168.1.2", "8443");
    assert_eq!(
        f,
        vec![
            "CEF:1|oCMAPI|API|1.0|400|Bad Request|4|startTime=<starttime>".to_string(),
            "10.0.0.5".to_string(),
            "TCP".to_string(),
            "https".to_string(),
            "192.168.1.2".to_string(),
            "8443".to_string(),
            "/v1/pods/getState".to_string(),
            "DELETE".to_string(),
            "api.local:8443".to_string(),
            "\"curl/8.5.0\"".to_string(),
        ]
    );
}

#[test]
fn log_data_writes_negative_numbers() {
    let f = log_data(-1, "Odd", -8, "GET", vdata(), "ip", "port");
    assert_eq!(f[0], "CEF:1|oCMAPI|API|1.0|-1|Odd|-8|startTime=<starttime>");
}

#[test]
fn log_entry_joins_the_fields() {
    let rec = LogRecord {
        code: 200,
        status: "Request OK".to_string(),
        severity: 0,
        method: "DELETE".to_string(),
        extra: " oCMAPIDeleteID=web oCMAPIDeleteType=container".to_string(),
    };
    let line = log_entry_of(&rec, vdata(), "0.0.0.0", "8080");
    assert_eq!(
        line,
        "CEF:1|oCMAPI|API|1.0|200|Request OK|0|startTime=<starttime> src=10.0.0.5 proto=TCP scheme=https dst=0.0.0.0 dpt=8080 path=/v1/pods/getState requestMethod=DELETE Request=api.local:8443 requestClientApplication=\"curl/8.5.0\" oCMAPIDeleteID=web oCMAPIDeleteType=container"
    );
    assert!(line.starts_with("CEF:1|oCMAPI|API|1.0|"));
}

#[test]
fn log_file_path_uses_the_trimmed_directory() {
    assert_eq!(log_file_path_of("  /var/log/ocmapi ", "/opt/ocmapi", "20240102"), "/var/log/ocmapi/ocmapi_20240102.log");
    assert_eq!(log_file_path_of("   ", "/opt/ocmapi", "20240102"), "/opt/ocmapi/ocmapi_20240102.log");
    assert_eq!(log_file_path_of("", "/usr/local/bin", "19991231"), "/usr/local/bin/ocmapi_19991231.log");
}

#[test]
fn log_file_line_fills_in_the_start_time() {
    let line = log_file_line_of(
        "Jan  2 10:00:00",
        Some("box".to_string()),
        "CEF:1|x|startTime=<starttime> a=<starttime>",
        "2024-01-02 10:00:00 +01:00",
    );
    assert_eq!(
        line,
        "Jan  2 10:00:00 box CEF:1|x|startTime=2024-01-02 10:00:00 +01:00 a=2024-01-02 10:00:00 +01:00"
    );
    let unnamed = log_file_line_of("s", None, "e", "n");
    assert_eq!(unnamed, "s ErrorNoHostname e");
}

#[test]
fn server_events_are_cef_lines() {
    assert_eq!(
        server_event_of(true, false, "8080"),
        "CEF:1|oCMAPI|API|1.0|100|Server Started|0|startTime=<starttime> src=127.0.0.1 dpt=8080 proto=TCP app=HTTP msg=Server started and is listening for incoming traffic"
    );
    assert_eq!(
        server_event_of(false, true, "8443"),
        "CEF:1|oCMAPI|API|1.0|100|Server Stopped|0|startTime=<starttime> src=127.0.0.1 dpt=8443 proto=TCP app=HTTPS msg=Server stopped and is no longer listening for incoming traffic"
    );
}

fn raw() -> RawConfig {
    RawConfig {
        listen: " 0.0.0.0 ".to_string(),
        port: "8080\n".to_string(),
        ssl: "no".to_string(),
        certfile: String::new(),
        keyfile: String::new(),
        cookiename: "ocmapi".to_string(),
        salt: " pepper ".to_string(),
        username: "admin".to_string(),
        password: " secret ".to_string(),
        logpath: " ".to_string(),
        envpath: "/srv/env".to_string(),
        secpath: "/srv/sec".to_string(),
        common_security_key: "k1".to_string(),
        containers_security_key: "k2".to_string(),
        pods_security_key: "k3".to_string(),
        networks_security_key: "k4".to_string(),
    }
}

#[test]
fn configuration_trims_every_value() {
    let s = configuration(&raw()).expect("complete configuration");
    assert_eq!(s.server_address, "0.0.0.0:8080");
    assert_eq!(s.server_ip, "0.0.0.0");
    assert_eq!(s.server_port, "8080");
    assert_eq!(s.use_ssl, "no");
    assert_eq!(s.cred_salt, "pepper");
    assert_eq!(s.cred_passwd, "secret");
    assert_eq!(s.log_path, "");
    assert_eq!(s.networks_key, "k4");
}

#[test]
fn configuration_refuses_a_missing_value() {
    let mut c = raw();
    c.pods_security_key = "  ".to_string();
    assert!(configuration(&c).is_none());
    let mut c = raw();
    c.username = String::new();
    assert!(configuration(&c).is_none());
}

#[test]
fn configuration_wants_certificates_for_ssl() {
    let mut c = raw();
    c.ssl = " yes ".to_string();
    assert!(configuration(&c).is_none());
    c.certfile = "/etc/cert.pem".to_string();
    assert!(configuration(&c).is_none());
    c.keyfile = "/etc/key.pem".to_string();
    let s = configuration(&c).expect("complete configuration");
    assert_eq!(s.use_ssl, "yes");
    assert_eq!(s.cert_path, "/etc/cert.pem");
}

#[test]
fn probe_address_for_all_interfaces() {
    assert_eq!(probe_address_of("0.0.0.0:8080", "8080"), "127.0.0.1:8080");
    assert_eq!(probe_address_of("10.1.1.1:9000", "9000"), "10.1.1.1:9000");
}

#[test]
fn parse_reads_what_str_parse_reads() {
    let cases = ["1", "+5", "-12", "007", "2147483647", "-2147483648", "2147483648", "-2147483649", "", "-", "+", "1a", " 1", "99999999999999999999"];
    for c in cases {
        assert_eq!(parse_i32_of(&chars(c)), c.parse::<i32>().ok(), "case {:?}", c);
    }
}

#[test]
fn decimal_text_matches_display() {
    for n in [0i64, 7, 10, 1234567890, -1, -99, i64::MIN, i64::MAX] {
        assert_eq!(decimal_of(n).into_iter().collect::<String>(), n.to_string());
    }
}
