use hook_api::{authenticate, extract_token_auth, split_credentials, token_param, Credentials};

fn creds(user: &str, pass: &str) -> Credentials {
    Credentials { user: user.to_string(), pass: pass.to_string() }
}

fn admin() -> (String, String) {
    ("admin".to_string(), "s3cret".to_string())
}

// "admin:s3cret" in base64
const GOOD_TOKEN: &str = "YWRtaW46czNjcmV0";
// "admin:wrong" in base64
const WRONG_TOKEN: &str = "YWRtaW46d3Jvbmc=";

#[test]
fn token_param_takes_first_token_segment() {
    assert_eq!(token_param("a=1&token=abc&b=2"), Some("abc".to_string()));
    assert_eq!(token_param("token=first&token=second"), Some("first".to_string()));
    assert_eq!(token_param("token="), Some(String::new()));
    assert_eq!(token_param("mytoken=abc&tokenx=1"), None);
    assert_eq!(token_param("toke"), None);
    assert_eq!(token_param(""), None);
    assert_eq!(token_param("&&token=x"), Some("x".to_string()));
}

#[test]
fn credentials_split_at_first_colon() {
    let c = split_credentials("user:pa:ss");
    assert_eq!(c.user, "user");
    assert_eq!(c.pass, "pa:ss");
    let c = split_credentials("user");
    assert_eq!(c.user, "user");
    assert_eq!(c.pass, "");
    let c = split_credentials(":");
    assert_eq!(c.user, "");
    assert_eq!(c.pass, "");
}

#[test]
fn token_is_decoded_from_base64() {
    let c = extract_token_auth(&format!("token={}", GOOD_TOKEN)).unwrap();
    assert_eq!(c.user, "admin");
    assert_eq!(c.pass, "s3cret");
    // "user" alone: the password is empty
    let c = extract_token_auth("x=1&token=dXNlcg==").unwrap();
    assert_eq!(c.user, "user");
    assert_eq!(c.pass, "");
}

#[test]
fn bad_tokens_carry_no_credentials() {
    assert!(extract_token_auth("token=!!!").is_none());
    // a single 0xff byte is not UTF-8
    assert!(extract_token_auth("token=/w==").is_none());
    assert!(extract_token_auth("other=YWRtaW46czNjcmV0").is_none());
}

#[test]
fn correct_basic_credentials_pass() {
    let (u, p) = admin();
    let user = authenticate(Some(creds("admin", "s3cret")), "", &u, &p).unwrap();
    assert_eq!(user.username, "admin");
}

#[test]
fn correct_token_passes() {
    let (u, p) = admin();
    let q = format!("token={}", GOOD_TOKEN);
    let user = authenticate(None, &q, &u, &p).unwrap();
    assert_eq!(user.username, "admin");
}

#[test]
fn missing_or_wrong_credentials_are_refused() {
    let (u, p) = admin();
    assert!(authenticate(None, "", &u, &p).is_none());
    assert!(authenticate(Some(creds("admin", "wrong")), "", &u, &p).is_none());
    assert!(authenticate(Some(creds("root", "s3cret")), "", &u, &p).is_none());
    let q = format!("token={}", WRONG_TOKEN);
    assert!(authenticate(None, &q, &u, &p).is_none());
    // a Basic header is used when present, even if a good token is also given
    let q = format!("token={}", GOOD_TOKEN);
    assert!(authenticate(Some(creds("admin", "wrong")), &q, &u, &p).is_none());
}
