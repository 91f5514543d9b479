use gcloud_core::api_key_credentials::{
    build_api_key_headers, ApiKeyTokenProvider, Builder, Token, API_KEY_HEADER_KEY,
    QUOTA_PROJECT_KEY,
};
use http::{Extensions, HeaderValue};

#[test]
fn debug_token_provider() {
    let expected = ApiKeyTokenProvider {
        api_key: "super-secret-api-key".to_string(),
    };
    let fmt = expected.debug_string();
    assert!(!fmt.contains("super-secret-api-key"), "{fmt}");
}

#[test]
fn debug_text_is_censored() {
    let provider = ApiKeyTokenProvider {
        api_key: "another-key".to_string(),
    };
    assert_eq!(
        provider.debug_string(),
        "ApiKeyCredentials { api_key: \"[censored]\" }"
    );
}

#[test]
fn create_api_key_credentials_basic() {
    let creds = Builder::new("test-api-key").build_with_env(None);
    let token = creds.token(Extensions::new()).unwrap();
    assert_eq!(
        token,
        Token {
            token: "test-api-key".to_string(),
            token_type: String::new(),
            expires_at: None,
            metadata: None,
        }
    );
    let headers = creds.headers(Extensions::new()).unwrap();
    let value = headers.get(API_KEY_HEADER_KEY).unwrap();

    assert_eq!(headers.len(), 1, "{headers:?}");
    assert_eq!(value, HeaderValue::from_static("test-api-key"));
    assert!(value.is_sensitive());
}

#[test]
fn create_api_key_credentials_with_options() {
    let creds = Builder::new("test-api-key")
        .with_quota_project_id("qp-option")
        .build_with_env(None);
    let headers = creds.headers(Extensions::new()).unwrap();
    let api_key = headers.get(API_KEY_HEADER_KEY).unwrap();
    let quota_project = headers.get(QUOTA_PROJECT_KEY).unwrap();

    assert_eq!(headers.len(), 2, "{headers:?}");
    assert_eq!(api_key, HeaderValue::from_static("test-api-key"));
    assert!(api_key.is_sensitive());
    assert_eq!(quota_project, HeaderValue::from_static("qp-option"));
    assert!(!quota_project.is_sensitive());
}

#[test]
fn create_api_key_credentials_with_env() {
    let creds = Builder::new("test-api-key")
        .with_quota_project_id("qp-option")
        .build_with_env(Some("qp-env".to_string()));
    let headers = creds.headers(Extensions::new()).unwrap();
    let api_key = headers.get(API_KEY_HEADER_KEY).unwrap();
    let quota_project = headers.get(QUOTA_PROJECT_KEY).unwrap();

    assert_eq!(headers.len(), 2, "{headers:?}");
    assert_eq!(api_key, HeaderValue::from_static("test-api-key"));
    assert!(api_key.is_sensitive());
    assert_eq!(quota_project, HeaderValue::from_static("qp-env"));
    assert!(!quota_project.is_sensitive());
}

#[test]
fn env_quota_project_without_configured_one() {
    let creds = Builder::new("k").build_with_env(Some("qp-env".to_string()));
    let headers = creds.headers(Extensions::new()).unwrap();
    assert_eq!(headers.len(), 2);
    assert_eq!(
        headers.get(QUOTA_PROJECT_KEY).unwrap(),
        HeaderValue::from_static("qp-env")
    );
}

#[test]
fn last_quota_project_wins() {
    let creds = Builder::new("k")
        .with_quota_project_id("first")
        .with_quota_project_id("second")
        .build_with_env(None);
    let headers = creds.headers(Extensions::new()).unwrap();
    assert_eq!(
        headers.get(QUOTA_PROJECT_KEY).unwrap(),
        HeaderValue::from_static("second")
    );
}

#[test]
fn header_names() {
    assert_eq!(API_KEY_HEADER_KEY, "x-goog-api-key");
    assert_eq!(QUOTA_PROJECT_KEY, "x-goog-user-project");
}

#[test]
fn invalid_api_key_is_a_permanent_error() {
    let creds = Builder::new("bad\nkey").build_with_env(None);
    let err = creds.headers(Extensions::new()).unwrap_err();
    assert!(!err.is_transient());
    // The token itself is still handed out.
    let token = creds.token(Extensions::new()).unwrap();
    assert_eq!(token.token, "bad\nkey");
}

#[test]
fn invalid_quota_project_is_a_permanent_error() {
    let creds = Builder::new("good-key")
        .with_quota_project_id("bad\u{7f}project")
        .build_with_env(None);
    let err = creds.headers(Extensions::new()).unwrap_err();
    assert!(!err.is_transient());
}

#[test]
fn tab_and_non_ascii_values_are_accepted() {
    let token = Token {
        token: "a\tb".to_string(),
        token_type: String::new(),
        expires_at: None,
        metadata: None,
    };
    let headers = build_api_key_headers(&token, &Some("caf\u{e9}".to_string())).unwrap();
    assert_eq!(headers.get(API_KEY_HEADER_KEY).unwrap().as_bytes(), b"a\tb");
    assert_eq!(
        headers.get(QUOTA_PROJECT_KEY).unwrap().as_bytes(),
        "caf\u{e9}".as_bytes()
    );
    assert!(headers.get(API_KEY_HEADER_KEY).unwrap().is_sensitive());
}
