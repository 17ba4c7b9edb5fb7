use engagement::api::{status_title, ApiError, StatusResponse};
use engagement::posts::{post_exists_from_status, MockPostsClient, PostsApi};
use engagement::users::{introspection_outcome, FetchUserError, MockUsersClient, User, UsersApi};

#[test]
fn status_titles_cover_the_emitted_codes() {
    assert_eq!(status_title(200), "200 OK");
    assert_eq!(status_title(201), "201 Created");
    assert_eq!(status_title(400), "400 Bad Request");
    assert_eq!(status_title(401), "401 Unauthorized");
    assert_eq!(status_title(404), "404 Not Found");
    assert_eq!(status_title(409), "409 Conflict");
    assert_eq!(status_title(500), "500 Internal Server Error");
    assert_eq!(status_title(418), "Unknown Status");
}

#[test]
fn status_response_constructors() {
    let bare = StatusResponse::new(201);
    assert_eq!(bare.status, 201);
    assert_eq!(bare.title, "201 Created");
    assert!(bare.detail.is_none());

    let detailed = StatusResponse::with_detail(400, Some("Invalid post ID".to_string()));
    assert_eq!(detailed.status, 400);
    assert_eq!(detailed.title, "400 Bad Request");
    assert_eq!(detailed.detail.as_deref(), Some("Invalid post ID"));
}

#[test]
fn errors_map_to_their_envelope() {
    let bad = ApiError::BadRequest(Some("nope".to_string())).to_status_response();
    assert_eq!(bad.status, 400);
    assert_eq!(bad.detail.as_deref(), Some("nope"));

    let conflict = ApiError::Conflict(None).to_status_response();
    assert_eq!(conflict.status, 409);
    assert!(conflict.detail.is_none());

    let unauthorized = ApiError::Unauthorized(Some("who?".to_string())).to_status_response();
    assert_eq!(unauthorized.status, 401);
    assert_eq!(unauthorized.detail.as_deref(), Some("who?"));
}

#[test]
fn internal_error_detail_is_never_returned_to_the_client() {
    let internal =
        ApiError::InternalServerError(Some("secret stack trace".to_string())).to_status_response();
    assert_eq!(internal.status, 500);
    assert_eq!(internal.title, "500 Internal Server Error");
    assert!(internal.detail.is_none());
}

#[test]
fn fetch_user_errors_convert_to_the_matching_api_error() {
    assert!(matches!(
        ApiError::from(FetchUserError::InvalidAuthorization),
        ApiError::Unauthorized(None)
    ));
    match ApiError::from(FetchUserError::Unknown(Some("timeout".to_string()))) {
        ApiError::InternalServerError(detail) => assert_eq!(detail.as_deref(), Some("timeout")),
        _ => panic!("expected a server error"),
    }
}

#[test]
fn mock_validator_uses_the_length_rule() {
    assert_eq!(MockPostsClient.validate_post_id("abcdefghij").unwrap(), true);
    assert_eq!(MockPostsClient.validate_post_id("abcdefghi").unwrap(), false);
    assert_eq!(MockPostsClient.validate_post_id("").unwrap(), false);
    assert_eq!(
        MockPostsClient.validate_post_id("a-rather-long-post-id").unwrap(),
        true
    );
}

#[test]
fn mock_directory_uses_the_length_rule() {
    let resolved = MockUsersClient.fetch_user("0123456789").unwrap();
    assert_eq!(resolved.unwrap().id, "1234567890");
    assert!(MockUsersClient.fetch_user("012345678").unwrap().is_none());
}

#[test]
fn mock_directory_validate_agrees_with_fetch_user() {
    assert_eq!(MockUsersClient.validate("0123456789").unwrap(), true);
    assert_eq!(MockUsersClient.validate("012345678").unwrap(), false);
    assert_eq!(MockUsersClient.validate("").unwrap(), false);
}

#[test]
fn post_existence_follows_the_upstream_status() {
    assert!(post_exists_from_status(200));
    assert!(!post_exists_from_status(404));
    assert!(!post_exists_from_status(500));
}

#[test]
fn introspection_status_400_means_unknown_credential() {
    let r = introspection_outcome(400, None, None);
    assert!(r.unwrap().is_none());
    // Even a parsed body does not rescue a 400: the credential is unknown.
    let r = introspection_outcome(400, Some(User { id: "u".to_string() }), None);
    assert!(r.unwrap().is_none());
}

#[test]
fn introspection_success_needs_a_parsed_user() {
    let r = introspection_outcome(200, Some(User { id: "u-5".to_string() }), None);
    assert_eq!(r.unwrap().unwrap().id, "u-5");

    let r = introspection_outcome(200, None, Some("bad json".to_string()));
    match r {
        Err(FetchUserError::Unknown(detail)) => assert_eq!(detail.as_deref(), Some("bad json")),
        _ => panic!("expected an unknown failure"),
    }
}
