use ocmapi::auth::{hash_string, secure_compare, validator, Credentials};
use ocmapi::checks::{
    refuses, IMAGE_REF_PATTERN, LABELS_PATTERN, NAME_PATTERN, PASSWORD_PATTERN, REPOSITORY_PATTERN,
    VERSION_PATTERN,
};
use ocmapi::common::{api_headers, rand_number};

fn creds() -> Credentials {
    Credentials::new("admin".to_string(), "pepper".to_string(), "secret")
}

#[test]
fn hash_is_deterministic_and_salted() {
    let a = hash_string("secret", "pepper");
    let b = hash_string("secret", "pepper");
    let c = hash_string("secret", "salt");
    let d = hash_string("secrets", "pepper");
    assert_eq!(a, b);
    assert_ne!(a, c);
    assert_ne!(a, d);
    assert_eq!(a.len(), 32);
}

#[test]
fn configured_login_is_accepted() {
    let c = creds();
    assert!(secure_compare("admin", "secret", &c));
    let (ok, log) = validator("admin", Some("secret"), &c);
    assert!(ok);
    assert_eq!(log.code, 200);
    assert_eq!(log.status, "Login Succesfully");
    assert_eq!(log.severity, 0);
    assert_eq!(log.method, "POST");
    assert_eq!(log.extra, "");
}

#[test]
fn other_logins_are_refused() {
    let c = creds();
    assert!(!secure_compare("admin", "Secret", &c));
    assert!(!secure_compare("root", "secret", &c));
    assert!(!secure_compare("admin", "", &c));
    let (ok, log) = validator("root", Some("secret"), &c);
    assert!(!ok);
    assert_eq!(log.code, 401);
    assert_eq!(log.status, "Unauthorized");
    assert_eq!(log.severity, 10);
    assert_eq!(log.extra, " oCMAPIUserLogin=root");
    let (ok, _) = validator("admin", None, &c);
    assert!(!ok);
}

#[test]
fn name_check_allows_plain_names() {
    assert!(!refuses(NAME_PATTERN, "web_01-a"));
    assert!(!refuses(NAME_PATTERN, ""));
    assert!(refuses(NAME_PATTERN, "web 01"));
    assert!(refuses(NAME_PATTERN, "a;rm"));
    assert!(refuses(NAME_PATTERN, "a.b"));
}

#[test]
fn other_checks_allow_their_characters() {
    assert!(!refuses(IMAGE_REF_PATTERN, "docker.io/library/nginx:1.25"));
    assert!(refuses(IMAGE_REF_PATTERN, "nginx latest"));
    assert!(!refuses(REPOSITORY_PATTERN, "quay.io/org"));
    assert!(refuses(REPOSITORY_PATTERN, "quay.io:443"));
    assert!(!refuses(VERSION_PATTERN, "1.2.3-rc_1"));
    assert!(refuses(VERSION_PATTERN, "1.2/3"));
    assert!(refuses(PASSWORD_PATTERN, "pa'ss"));
    assert!(refuses(PASSWORD_PATTERN, "a=b"));
    assert!(!refuses(PASSWORD_PATTERN, "S3cr3t!#"));
    assert!(!refuses(LABELS_PATTERN, "env=prod,tier=web"));
    assert!(refuses(LABELS_PATTERN, "env prod"));
}

#[test]
fn headers_are_version_json_and_html() {
    assert_eq!(
        api_headers(),
        vec!["1".to_string(), "application/json".to_string(), "text/html; charset=utf-8".to_string()]
    );
}

#[test]
fn random_numbers_are_decimal_u32() {
    let a = rand_number();
    assert!(a.parse::<u32>().is_ok());
    assert_eq!(a.parse::<u32>().unwrap().to_string(), a);
}

#[test]
fn password_check_refuses_each_banned_character() {
    for c in ['"', '\'', '/', '`', '\u{b4}', '\\', '='] {
        let p = format!("ab{}cd", c);
        assert!(refuses(PASSWORD_PATTERN, p.as_str()), "{:?}", p);
    }
    assert!(!refuses(PASSWORD_PATTERN, "ab cd\u{e9}"));
    assert!(refuses(NAME_PATTERN, "caf\u{e9}"));
    assert!(refuses(LABELS_PATTERN, "a\nb"));
}
