use http::header::AUTHORIZATION;
use http::header::HOST;
use http::HeaderMap;
use http::HeaderValue;

use reqwest_auth::intercept;
use reqwest_auth::pass_through;
use reqwest_auth::ChainError;

fn run(headers: &mut HeaderMap, fetched: Result<String, String>) -> Result<(), ChainError> {
    intercept(headers, fetched).expect("the map is far from its key limit")
}

#[test]
fn test_middleware() {
    let token_value = "Bearer my-token";
    let mut headers = HeaderMap::new();
    let step = run(&mut headers, Ok(token_value.to_string()));
    assert!(step.is_ok());
    assert_eq!(
        headers.get(AUTHORIZATION),
        Some(&HeaderValue::from_static(token_value))
    );
}

#[test]
fn overwrites_any_prior_authorization_value() {
    let mut headers = HeaderMap::new();
    headers.insert(AUTHORIZATION, HeaderValue::from_static("Bearer stale"));
    headers.insert(HOST, HeaderValue::from_static("example.com"));
    let step = run(&mut headers, Ok("Bearer fresh".to_string()));
    assert!(step.is_ok());
    assert_eq!(
        headers.get(AUTHORIZATION),
        Some(&HeaderValue::from_static("Bearer fresh"))
    );
    assert_eq!(headers.get_all(AUTHORIZATION).iter().count(), 1);
    assert_eq!(
        headers.get(HOST),
        Some(&HeaderValue::from_static("example.com"))
    );
}

#[test]
fn fetch_failure_short_circuits() {
    let mut headers = HeaderMap::new();
    headers.insert(HOST, HeaderValue::from_static("example.com"));
    let step = run(&mut headers, Err("token endpoint unreachable".to_string()));
    match step {
        Err(ChainError::CredentialFetchFailed { message }) => {
            assert_eq!(message, "token endpoint unreachable");
        }
        other => panic!("expected a fetch failure, got {other:?}"),
    }
    assert!(headers.get(AUTHORIZATION).is_none());
    assert_eq!(headers.len(), 1);
}

#[test]
fn credential_with_newline_is_rejected() {
    let mut headers = HeaderMap::new();
    let step = run(&mut headers, Ok("Bearer bro\nken".to_string()));
    match step {
        Err(ChainError::InvalidCredentialFormat { message }) => {
            assert_eq!(message, "failed to parse header value");
        }
        other => panic!("expected a format error, got {other:?}"),
    }
    assert!(headers.is_empty());
}

#[test]
fn credential_with_delete_character_is_rejected() {
    let mut headers = HeaderMap::new();
    let step = run(&mut headers, Ok("Bearer \u{7f}".to_string()));
    assert!(matches!(
        step,
        Err(ChainError::InvalidCredentialFormat { .. })
    ));
    assert!(headers.get(AUTHORIZATION).is_none());
}

#[test]
fn tab_and_non_ascii_text_are_carried() {
    let mut headers = HeaderMap::new();
    let step = run(&mut headers, Ok("Bearer a\tb\u{e9}".to_string()));
    assert!(step.is_ok());
    assert_eq!(
        headers.get(AUTHORIZATION).unwrap().as_bytes(),
        "Bearer a\tb\u{e9}".as_bytes()
    );
}

#[test]
fn empty_credential_passes_unvalidated() {
    let mut headers = HeaderMap::new();
    let step = run(&mut headers, Ok(String::new()));
    assert!(step.is_ok());
    assert_eq!(
        headers.get(AUTHORIZATION),
        Some(&HeaderValue::from_static(""))
    );
}

#[test]
fn downstream_outcome_passes_through_unchanged() {
    let mut headers = HeaderMap::new();
    let step = run(&mut headers, Ok("Bearer abc".to_string()));
    assert!(step.is_ok());
    let fixed: Result<String, String> = Ok("200 OK fixed body".to_string());
    assert_eq!(pass_through(fixed.clone()), fixed);
}

#[test]
fn sequential_requests_carry_fresh_credentials() {
    let mut first = HeaderMap::new();
    let mut second = HeaderMap::new();
    assert!(run(&mut first, Ok("Bearer v1".to_string())).is_ok());
    assert!(run(&mut second, Ok("Bearer v2".to_string())).is_ok());
    assert_eq!(
        first.get(AUTHORIZATION),
        Some(&HeaderValue::from_static("Bearer v1"))
    );
    assert_eq!(
        second.get(AUTHORIZATION),
        Some(&HeaderValue::from_static("Bearer v2"))
    );
}

#[test]
fn unchanged_source_gives_same_value_both_times() {
    let mut first = HeaderMap::new();
    let mut second = HeaderMap::new();
    assert!(run(&mut first, Ok("Bearer same".to_string())).is_ok());
    assert!(run(&mut second, Ok("Bearer same".to_string())).is_ok());
    assert_eq!(first.get(AUTHORIZATION), second.get(AUTHORIZATION));
}

#[test]
fn many_requests_each_keep_their_own_credential() {
    let mut requests: Vec<HeaderMap> = Vec::new();
    for i in 0..16 {
        let mut headers = HeaderMap::new();
        let step = run(&mut headers, Ok(format!("Bearer call-{i}")));
        assert!(step.is_ok());
        requests.push(headers);
    }
    for (i, headers) in requests.iter().enumerate() {
        let expected = format!("Bearer call-{i}");
        assert_eq!(
            headers.get(AUTHORIZATION).unwrap().to_str().unwrap(),
            expected
        );
    }
}
