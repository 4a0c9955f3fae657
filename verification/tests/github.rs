use ai_coder::cli::{default_model, mode_name, resolve_host};
use ai_coder::github::app_auth::{
    bearer_header, installation_token_from_response, installation_token_url, AppJwtClaims,
    GitHubAppAuth, InstallationToken,
};
use ai_coder::github::client::{
    base_url, commits_url, decode_file_content, file_content_url, handle_response,
    pull_request_url, resolve_token, reviews_url, text_of_decoded, token_header,
};
use ai_coder::github::errors::GitHubError;
use ai_coder::json::{JsonMember, JsonText, JsonValue};

#[test]
fn github_errors_have_their_messages() {
    assert_eq!(GitHubError::RequestError("timed out".to_string()).to_string(), "Request failed: timed out");
    assert_eq!(GitHubError::AuthenticationError.to_string(), "Authentication failed: invalid token");
    assert_eq!(GitHubError::NotFound("x".to_string()).to_string(), "Not found: x");
    assert_eq!(
        GitHubError::RateLimited { reset_at: Some(1700000000) }.to_string(),
        "Rate limited. Reset at: 1700000000"
    );
    assert_eq!(GitHubError::RateLimited { reset_at: None }.to_string(), "Rate limited by GitHub API");
    assert_eq!(GitHubError::InvalidInput("bad".to_string()).to_string(), "Invalid input: bad");
    assert_eq!(GitHubError::ParseError("eof".to_string()).to_string(), "Parse error: eof");
    assert_eq!(
        GitHubError::ApiError { status: 500, message: "oops".to_string() }.to_string(),
        "GitHub API error (500): oops"
    );
}

#[test]
fn addresses_are_put_together() {
    let base = base_url();
    assert_eq!(base, "https://api.github.com");
    assert_eq!(
        pull_request_url(&base, "rust-lang", "rust", 42),
        "https://api.github.com/repos/rust-lang/rust/pulls/42"
    );
    assert_eq!(
        reviews_url(&base, "o", "r", 7),
        "https://api.github.com/repos/o/r/pulls/7/reviews"
    );
    assert_eq!(
        file_content_url(&base, "o", "r", "src/lib.rs", "main"),
        "https://api.github.com/repos/o/r/contents/src/lib.rs?ref=main"
    );
    assert_eq!(commits_url(&base, "o", "r"), "https://api.github.com/repos/o/r/git/commits");
    assert_eq!(
        installation_token_url(104427264),
        "https://api.github.com/app/installations/104427264/access_tokens"
    );
    assert_eq!(token_header("abc"), "token abc");
    assert_eq!(bearer_header("abc"), "Bearer abc");
}

#[test]
fn token_comes_from_the_argument_first() {
    assert_eq!(resolve_token(Some("a".to_string()), Some("b".to_string())).ok().unwrap(), "a");
    assert_eq!(resolve_token(None, Some("b".to_string())).ok().unwrap(), "b");
    assert!(matches!(resolve_token(None, None), Err(GitHubError::AuthenticationError)));
}

#[test]
fn file_content_is_decoded_from_base64() {
    assert_eq!(decode_file_content(Some("aGVsbG8gd29ybGQ=")).ok().unwrap(), "hello world");
    assert_eq!(decode_file_content(Some("")).ok().unwrap(), "");
    assert_eq!(decode_file_content(Some("w6k=")).ok().unwrap(), "\u{e9}");
}

fn is_content_error(r: Result<String, GitHubError>) -> bool {
    matches!(r, Err(GitHubError::ParseError(m)) if m == "Could not decode file content")
}

#[test]
fn undecodable_file_content_is_a_parse_error() {
    assert!(is_content_error(decode_file_content(None)));
    assert!(is_content_error(decode_file_content(Some("not base64!"))));
    assert!(is_content_error(decode_file_content(Some("aGVsbG8"))));
    assert!(is_content_error(decode_file_content(Some("aGVs\nbG8="))));
    assert!(is_content_error(decode_file_content(Some("/w=="))));
    assert!(is_content_error(text_of_decoded(Some(vec![0xC3]))));
    assert!(is_content_error(text_of_decoded(None)));
    assert_eq!(text_of_decoded(Some(vec![0xE2, 0x82, 0xAC])).ok().unwrap(), "\u{20ac}");
}

#[test]
fn successful_answers_hand_back_their_body() {
    assert_eq!(handle_response(200, Ok("{}".to_string())).ok().unwrap(), "{}");
    assert_eq!(handle_response(299, Ok("x".to_string())).ok().unwrap(), "x");
    assert!(matches!(
        handle_response(201, Err("connection reset".to_string())),
        Err(GitHubError::RequestError(m)) if m == "connection reset"
    ));
}

#[test]
fn failed_answers_become_errors() {
    assert!(matches!(handle_response(401, Ok(String::new())), Err(GitHubError::AuthenticationError)));
    assert!(matches!(
        handle_response(404, Ok(String::new())),
        Err(GitHubError::NotFound(m)) if m == "Resource not found"
    ));
    assert!(matches!(
        handle_response(403, Ok("{\"message\":\"API rate limit exceeded for 1.2.3.4\"}".to_string())),
        Err(GitHubError::RateLimited { reset_at: None })
    ));
    assert!(matches!(
        handle_response(403, Ok("API rate limit exceede".to_string())),
        Err(GitHubError::ApiError { status: 403, message }) if message == "Forbidden"
    ));
    assert!(matches!(
        handle_response(403, Err("gone".to_string())),
        Err(GitHubError::ApiError { status: 403, message }) if message == "Forbidden"
    ));
    assert!(matches!(
        handle_response(500, Ok("oops".to_string())),
        Err(GitHubError::ApiError { status: 500, message }) if message == "oops"
    ));
    assert!(matches!(
        handle_response(199, Err("gone".to_string())),
        Err(GitHubError::ApiError { status: 199, message }) if message == "Unknown error"
    ));
    assert!(matches!(
        handle_response(300, Ok(String::new())),
        Err(GitHubError::ApiError { status: 300, message }) if message.is_empty()
    ));
}

#[test]
fn claims_expire_after_ten_minutes() {
    let claims = AppJwtClaims::issued_at(12345, 1234567890).unwrap();
    assert_eq!(claims, AppJwtClaims { iat: 1234567890, exp: 1234568490, iss: 12345 });
    assert!(AppJwtClaims::issued_at(1, i64::MAX - 599).is_none());
    assert_eq!(AppJwtClaims::issued_at(1, i64::MAX - 600).unwrap().exp, i64::MAX);
    assert_eq!(AppJwtClaims::issued_at(1, -600).unwrap().exp, 0);
    let entries: Vec<(String, i128)> =
        claims.entries().into_iter().map(|e| (e.name, e.value)).collect();
    assert_eq!(
        entries,
        vec![
            ("iat".to_string(), 1234567890),
            ("exp".to_string(), 1234568490),
            ("iss".to_string(), 12345),
        ]
    );
}

#[test]
fn text_that_is_no_key_is_refused() {
    let auth = GitHubAppAuth::new(2665041, "not a key".to_string());
    assert_eq!(auth.app_id(), 2665041);
    assert!(matches!(
        auth.generate_jwt_at(1700000000),
        Err(GitHubError::InvalidInput(m)) if m.starts_with("Invalid private key: ")
    ));
    assert!(matches!(
        auth.generate_jwt(),
        Err(GitHubError::InvalidInput(m)) if m.starts_with("Invalid private key: ")
    ));
    assert!(matches!(
        auth.generate_jwt_at(i64::MAX),
        Err(GitHubError::InvalidInput(m)) if m == "Failed to generate JWT: expiry out of range"
    ));
}

#[test]
fn key_file_that_cannot_be_read_is_an_invalid_input() {
    assert!(matches!(
        GitHubAppAuth::from_key_text(1, Err("No such file".to_string())),
        Err(GitHubError::InvalidInput(m)) if m == "Failed to read private key: No such file"
    ));
    assert_eq!(GitHubAppAuth::from_key_text(7, Ok("pem".to_string())).ok().unwrap().app_id(), 7);
}

const TOKEN_BODY: &str = "{\"token\":\"ghs_abc\",\"expires_at\":\"2026-01-01T00:00:00Z\",\"permissions\":{\"contents\":\"read\"},\"repositories\":null}";

#[test]
fn installation_token_is_read_from_the_answer() {
    assert_eq!(
        installation_token_from_response(201, Ok(TOKEN_BODY.to_string())).ok().unwrap(),
        "ghs_abc"
    );
    assert!(matches!(
        installation_token_from_response(200, Ok("{\"token\":\"t\"}".to_string())),
        Err(GitHubError::RequestError(m)) if m == "error decoding response body"
    ));
    assert!(matches!(
        installation_token_from_response(200, Err("reset".to_string())),
        Err(GitHubError::RequestError(m)) if m == "reset"
    ));
    assert!(matches!(
        installation_token_from_response(401, Ok(TOKEN_BODY.to_string())),
        Err(GitHubError::AuthenticationError)
    ));
    assert!(matches!(
        installation_token_from_response(404, Ok(String::new())),
        Err(GitHubError::NotFound(m)) if m == "Installation not found"
    ));
    assert!(matches!(
        installation_token_from_response(403, Ok("no".to_string())),
        Err(GitHubError::ApiError { status: 403, message }) if message == "no"
    ));
    assert!(matches!(
        installation_token_from_response(500, Err("x".to_string())),
        Err(GitHubError::ApiError { status: 500, message }) if message == "Unknown error"
    ));
}

fn member(key: &str, value: JsonValue) -> JsonMember {
    JsonMember { key: key.to_string(), value }
}

#[test]
fn installation_token_needs_its_members() {
    let full = |repositories: Option<JsonValue>| {
        let mut members = vec![
            member("token", JsonValue::Text("t".to_string())),
            member("expires_at", JsonValue::Text("x".to_string())),
            member("permissions", JsonValue::Object),
        ];
        if let Some(r) = repositories {
            members.push(member("repositories", r));
        }
        JsonText::Object(members)
    };
    let token = InstallationToken::from_json(&full(None)).unwrap();
    assert_eq!(token.token, "t");
    assert_eq!(token.expires_at, "x");
    assert!(InstallationToken::from_json(&full(Some(JsonValue::Null))).is_some());
    assert!(InstallationToken::from_json(&full(Some(JsonValue::Array))).is_some());
    assert!(InstallationToken::from_json(&full(Some(JsonValue::Number))).is_none());
    assert!(InstallationToken::from_json(&JsonText::NotObject).is_none());
    let no_permissions = JsonText::Object(vec![
        member("token", JsonValue::Text("t".to_string())),
        member("expires_at", JsonValue::Text("x".to_string())),
    ]);
    assert!(InstallationToken::from_json(&no_permissions).is_none());
    let bad_expiry = JsonText::Object(vec![
        member("token", JsonValue::Text("t".to_string())),
        member("expires_at", JsonValue::Number),
        member("permissions", JsonValue::Null),
    ]);
    assert!(InstallationToken::from_json(&bad_expiry).is_none());
}

#[test]
fn host_comes_from_the_flag_then_the_environment() {
    assert_eq!(resolve_host(Some("http://a".to_string()), Some("http://b".to_string())), "http://a");
    assert_eq!(resolve_host(None, Some("http://b".to_string())), "http://b");
    assert_eq!(resolve_host(None, None), "http://localhost:11434");
    assert_eq!(mode_name(true), "AGENT");
    assert_eq!(mode_name(false), "CHAT");
    assert_eq!(default_model(), "qwen2.5-coder");
}
