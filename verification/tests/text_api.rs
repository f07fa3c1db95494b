//! Tests of the text utilities and of the request/response-side
//! decisions: counter parsing and rendering, case-insensitive comparison,
//! error status codes, and the response classification helpers.
use trovo::api::{
    first_user, users_from_error, ApiError, ErrorStatus, RequestError,
};
use trovo::auth::{AccessToken, ClientId, ClientIdProvider};
use trovo::entities::{AudienceType, ChannelInfo, User};
use trovo::text::{eq_nocase, parse_u64, str_eq, u64_to_dec};

#[test]
fn parse_u64_accepts_decimal_counters() {
    assert_eq!(parse_u64("0"), Some(0));
    assert_eq!(parse_u64("1"), Some(1));
    assert_eq!(parse_u64("007"), Some(7));
    assert_eq!(parse_u64("+7"), Some(7));
    assert_eq!(parse_u64("18446744073709551615"), Some(u64::MAX));
}

#[test]
fn parse_u64_rejects_everything_else() {
    assert_eq!(parse_u64(""), None);
    assert_eq!(parse_u64("+"), None);
    assert_eq!(parse_u64("-2"), None);
    assert_eq!(parse_u64("1a"), None);
    assert_eq!(parse_u64(" 1"), None);
    assert_eq!(parse_u64("1.0"), None);
    assert_eq!(parse_u64("18446744073709551616"), None);
}

#[test]
fn u64_to_dec_renders_decimal() {
    assert_eq!(u64_to_dec(0), "0");
    assert_eq!(u64_to_dec(7), "7");
    assert_eq!(u64_to_dec(30), "30");
    assert_eq!(u64_to_dec(1234567890), "1234567890");
    assert_eq!(u64_to_dec(u64::MAX), "18446744073709551615");
    assert_eq!(parse_u64(&u64_to_dec(987654321)), Some(987654321));
}

#[test]
fn case_insensitive_comparison() {
    assert!(eq_nocase("pong", "PONG"));
    assert!(eq_nocase("ChAt", "chat"));
    assert!(eq_nocase("", ""));
    assert!(!eq_nocase("PING", "PONG"));
    assert!(!eq_nocase("PING", "PINGS"));
    assert!(str_eq("abc", "abc"));
    assert!(!str_eq("abc", "abd"));
}

#[test]
fn error_status_codes_round_trip() {
    assert_eq!(ErrorStatus::InvalidParameters.code(), 1002);
    assert_eq!(ErrorStatus::InternalFetch.code(), -1201);
    assert_eq!(ErrorStatus::Unknown.code(), 20000);
    assert_eq!(ErrorStatus::of_code(11714), Some(ErrorStatus::AccessTokenExpired));
    assert_eq!(ErrorStatus::of_code(-1000), Some(ErrorStatus::InternalTimeout));
    assert_eq!(ErrorStatus::of_code(1), None);
    assert_eq!(
        ErrorStatus::of_code(ErrorStatus::SlowMode.code()),
        Some(ErrorStatus::SlowMode)
    );
}

#[test]
fn friendly_error_status_codes() {
    assert!(ApiError::can_handle_code(400));
    assert!(ApiError::can_handle_code(401));
    assert!(ApiError::can_handle_code(500));
    assert!(!ApiError::can_handle_code(200));
    assert!(!ApiError::can_handle_code(404));
    assert!(!ApiError::can_handle_code(502));
}

#[test]
fn default_api_error_is_unknown() {
    let e = ApiError::default();
    assert_eq!(e.status, ErrorStatus::Unknown);
    assert_eq!(e.message, "Unknown or uncategorized error");
}

#[test]
fn invalid_parameters_means_no_users() {
    let r = users_from_error(ApiError {
        status: ErrorStatus::InvalidParameters,
        message: "bad".to_string(),
    });
    assert!(matches!(r, Ok(v) if v.is_empty()));
    let r = users_from_error(ApiError {
        status: ErrorStatus::InvalidUser,
        message: "no".to_string(),
    });
    match r {
        Err(RequestError::ApiError(e)) => assert_eq!(e.status, ErrorStatus::InvalidUser),
        other => panic!("expected the error record back, got {:?}", other),
    }
}

fn sample_user(name: &str) -> User {
    User {
        user_id: "u".to_string(),
        channel_id: "c".to_string(),
        username: name.to_string(),
        nickname: name.to_string(),
    }
}

#[test]
fn first_user_takes_the_head() {
    assert_eq!(first_user(vec![]), None);
    let r = first_user(vec![sample_user("a"), sample_user("b")]);
    assert_eq!(r.unwrap().username, "a");
}

#[test]
fn blank_username_means_no_channel() {
    let channel = ChannelInfo {
        is_live: false,
        category_id: String::new(),
        category_name: String::new(),
        live_title: String::new(),
        audi_type: AudienceType::FamilyFriendly,
        language_code: String::new(),
        thumbnail: String::new(),
        current_viewers: 0,
        followers: 0,
        streamer_info: String::new(),
        profile_pic: String::new(),
        channel_url: String::new(),
        created_at: 0,
        subscriber_num: 0,
        username: String::new(),
        social_links: vec![],
        started_at: 0,
        ended_at: 0,
    };
    assert_eq!(trovo::api::channel_if_found(channel), None);

    let found = ChannelInfo {
        username: "streamer".to_string(),
        is_live: true,
        category_id: String::new(),
        category_name: String::new(),
        live_title: String::new(),
        audi_type: AudienceType::Teen,
        language_code: String::new(),
        thumbnail: String::new(),
        current_viewers: 3,
        followers: 4,
        streamer_info: String::new(),
        profile_pic: String::new(),
        channel_url: String::new(),
        created_at: 5,
        subscriber_num: 6,
        social_links: vec![],
        started_at: 7,
        ended_at: 8,
    };
    let r = trovo::api::channel_if_found(found).unwrap();
    assert_eq!(r.username, "streamer");
    assert_eq!(r.followers, 4);
}

#[test]
fn client_id_wraps_the_string() {
    let id = ClientId::new("my-client".to_string());
    assert_eq!(id.client_id(), "my-client");
    assert_eq!(id.0, "my-client");
}

#[test]
fn access_token_from_string() {
    let t = AccessToken::from("tok".to_string());
    assert!(matches!(t, AccessToken::Token(s) if s == "tok"));
}
