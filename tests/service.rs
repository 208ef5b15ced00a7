use backend::error::ErrorCode;
use backend::service::{
    add_user, create_session, from_header, from_session_id, get_session, issue_session,
    remove_session, Server,
};
use hyper::header::HeaderValue;
use hyper::HeaderMap;

fn server_with_alice() -> Server {
    let mut server = Server::new();
    for i in 0..41 {
        add_user(&mut server, format!("user{}", i), "pw".to_string()).unwrap();
    }
    add_user(&mut server, "alice".to_string(), "s3cret".to_string()).unwrap();
    server
}

fn headers_with(name: &'static str, value: HeaderValue) -> HeaderMap<HeaderValue> {
    let mut headers = HeaderMap::new();
    headers.insert(name, value);
    headers
}

#[test]
fn alice_login_lookup_logout() {
    let mut server = server_with_alice();
    let token = create_session(&mut server, "alice".to_string(), "s3cret".to_string()).unwrap();
    assert_eq!(from_session_id(&server, token.clone()), Ok(42));
    assert_eq!(remove_session(&mut server, token.clone()), Ok(()));
    assert_eq!(from_session_id(&server, token), Err(ErrorCode::NotAuthenticated));
}

#[test]
fn login_resolves_to_user_identity() {
    let mut server = server_with_alice();
    let token = create_session(&mut server, "user7".to_string(), "pw".to_string()).unwrap();
    assert_eq!(from_session_id(&server, token), Ok(8));
}

#[test]
fn token_is_hyphenated_uuid_text() {
    let mut server = server_with_alice();
    let token = create_session(&mut server, "alice".to_string(), "s3cret".to_string()).unwrap();
    assert_eq!(token.len(), 36);
    for (i, c) in token.chars().enumerate() {
        if i == 8 || i == 13 || i == 18 || i == 23 {
            assert_eq!(c, '-');
        } else {
            assert!(c.is_ascii_digit() || ('a'..='f').contains(&c));
        }
    }
    assert_eq!(token.chars().nth(14), Some('4'));
}

#[test]
fn empty_username_never_gets_a_token() {
    let mut server = server_with_alice();
    assert_eq!(
        create_session(&mut server, String::new(), "pw".to_string()),
        Err(ErrorCode::NotAuthenticated)
    );
    assert_eq!(
        create_session(&mut server, String::new(), String::new()),
        Err(ErrorCode::NotAuthenticated)
    );
}

#[test]
fn revoked_token_stays_revoked() {
    let mut server = server_with_alice();
    let token = create_session(&mut server, "alice".to_string(), "s3cret".to_string()).unwrap();
    remove_session(&mut server, token.clone()).unwrap();
    let other = create_session(&mut server, "alice".to_string(), "s3cret".to_string()).unwrap();
    assert_ne!(other, token);
    add_user(&mut server, "bob".to_string(), "pw".to_string()).unwrap();
    create_session(&mut server, "bob".to_string(), "pw".to_string()).unwrap();
    remove_session(&mut server, other).unwrap();
    assert_eq!(from_session_id(&server, token), Err(ErrorCode::NotAuthenticated));
}

#[test]
fn unknown_token_is_rejected() {
    let mut server = server_with_alice();
    assert_eq!(
        from_session_id(&server, "never-issued".to_string()),
        Err(ErrorCode::NotAuthenticated)
    );
    create_session(&mut server, "alice".to_string(), "s3cret".to_string()).unwrap();
    assert_eq!(from_session_id(&server, String::new()), Err(ErrorCode::NotAuthenticated));
}

#[test]
fn wrong_password_is_rejected() {
    let mut server = server_with_alice();
    assert_eq!(
        create_session(&mut server, "alice".to_string(), "wrong".to_string()),
        Err(ErrorCode::NotAuthenticated)
    );
}

#[test]
fn unknown_user_is_rejected() {
    let mut server = server_with_alice();
    assert_eq!(
        create_session(&mut server, "bob".to_string(), "s3cret".to_string()),
        Err(ErrorCode::NotAuthenticated)
    );
}

#[test]
fn remove_twice_succeeds() {
    let mut server = server_with_alice();
    let token = create_session(&mut server, "alice".to_string(), "s3cret".to_string()).unwrap();
    assert_eq!(remove_session(&mut server, token.clone()), Ok(()));
    assert_eq!(remove_session(&mut server, token.clone()), Ok(()));
    assert_eq!(from_session_id(&server, token), Err(ErrorCode::NotAuthenticated));
}

#[test]
fn remove_unknown_token_succeeds() {
    let mut server = Server::new();
    assert_eq!(remove_session(&mut server, "nothing".to_string()), Ok(()));
}

#[test]
fn two_logins_give_distinct_tokens() {
    let mut server = server_with_alice();
    let t1 = create_session(&mut server, "alice".to_string(), "s3cret".to_string()).unwrap();
    let t2 = create_session(&mut server, "alice".to_string(), "s3cret".to_string()).unwrap();
    assert_ne!(t1, t2);
    assert_eq!(from_session_id(&server, t1.clone()), Ok(42));
    assert_eq!(from_session_id(&server, t2.clone()), Ok(42));
    remove_session(&mut server, t1.clone()).unwrap();
    assert_eq!(from_session_id(&server, t1), Err(ErrorCode::NotAuthenticated));
    assert_eq!(from_session_id(&server, t2), Ok(42));
}

#[test]
fn issue_refuses_live_token() {
    let mut server = server_with_alice();
    assert_eq!(issue_session(&mut server, 42, "tok".to_string()), Ok("tok".to_string()));
    assert_eq!(issue_session(&mut server, 42, "tok".to_string()), Err(ErrorCode::DataStoreError));
    assert_eq!(issue_session(&mut server, 3, "tok".to_string()), Err(ErrorCode::DataStoreError));
    assert_eq!(from_session_id(&server, "tok".to_string()), Ok(42));
    remove_session(&mut server, "tok".to_string()).unwrap();
    assert_eq!(issue_session(&mut server, 3, "tok".to_string()), Ok("tok".to_string()));
    assert_eq!(from_session_id(&server, "tok".to_string()), Ok(3));
}

#[test]
fn add_user_refuses_duplicate_and_empty_names() {
    let mut server = server_with_alice();
    assert_eq!(
        add_user(&mut server, "alice".to_string(), "other".to_string()),
        Err(ErrorCode::DataStoreError)
    );
    assert_eq!(
        add_user(&mut server, String::new(), "pw".to_string()),
        Err(ErrorCode::DataStoreError)
    );
    assert_eq!(
        create_session(&mut server, "alice".to_string(), "other".to_string()),
        Err(ErrorCode::NotAuthenticated)
    );
    assert_eq!(add_user(&mut server, "bob".to_string(), "pw".to_string()), Ok(()));
    let token = create_session(&mut server, "bob".to_string(), "pw".to_string()).unwrap();
    assert_eq!(from_session_id(&server, token), Ok(43));
}

#[test]
fn header_absent_is_rejected() {
    let server = server_with_alice();
    let headers = HeaderMap::new();
    assert_eq!(from_header(&server, &headers), Err(ErrorCode::NotAuthenticated));
    assert_eq!(get_session(&headers), Err(ErrorCode::NotAuthenticated));
    let other = headers_with("cookie", HeaderValue::from_static("abc"));
    assert_eq!(from_header(&server, &other), Err(ErrorCode::NotAuthenticated));
}

#[test]
fn header_with_issued_token_matches_session_id() {
    let mut server = server_with_alice();
    let token = create_session(&mut server, "alice".to_string(), "s3cret".to_string()).unwrap();
    let headers = headers_with("authorization", HeaderValue::from_str(&token).unwrap());
    assert_eq!(get_session(&headers), Ok(token.clone()));
    assert_eq!(from_header(&server, &headers), from_session_id(&server, token.clone()));
    assert_eq!(from_header(&server, &headers), Ok(42));
    remove_session(&mut server, token).unwrap();
    assert_eq!(from_header(&server, &headers), Err(ErrorCode::NotAuthenticated));
}

#[test]
fn header_name_is_case_insensitive() {
    let mut server = server_with_alice();
    let token = create_session(&mut server, "alice".to_string(), "s3cret".to_string()).unwrap();
    let headers = headers_with("Authorization", HeaderValue::from_str(&token).unwrap());
    assert_eq!(from_header(&server, &headers), Ok(42));
}

#[test]
fn header_with_unknown_token_is_rejected() {
    let server = server_with_alice();
    let headers = headers_with("authorization", HeaderValue::from_static("not-a-session"));
    assert_eq!(get_session(&headers), Ok("not-a-session".to_string()));
    assert_eq!(from_header(&server, &headers), Err(ErrorCode::NotAuthenticated));
}

#[test]
fn header_that_is_not_text_is_rejected() {
    let server = server_with_alice();
    let headers = headers_with("authorization", HeaderValue::from_bytes(b"tok\x80en").unwrap());
    assert_eq!(get_session(&headers), Err(ErrorCode::NotAuthenticated));
    assert_eq!(from_header(&server, &headers), Err(ErrorCode::NotAuthenticated));
}

#[test]
fn header_first_value_is_used() {
    let mut server = server_with_alice();
    let token = create_session(&mut server, "alice".to_string(), "s3cret".to_string()).unwrap();
    let mut headers = HeaderMap::new();
    headers.append("authorization", HeaderValue::from_str(&token).unwrap());
    headers.append("authorization", HeaderValue::from_static("second"));
    assert_eq!(get_session(&headers), Ok(token));
    assert_eq!(from_header(&server, &headers), Ok(42));
}
