//! The request/response side's error model: the service's numeric error
//! statuses, the error record its responses carry, and the error types of
//! the calls built on them. The verified pieces here are the decisions the
//! calls make once a response is in hand; the requests themselves are
//! plain I/O and live outside this crate.
use vstd::prelude::*;

verus! {

use crate::entities::{ChannelInfo, User};
use crate::errors::ChatConnectError;

/// The HTTP client's error type, declared opaquely so a request failure
/// can be carried in the library's error types as its own diagnostic
/// cause.
#[verifier::external_type_specification]
#[verifier::external_body]
pub struct ExReqwestError(reqwest::Error);

/// Error statuses returned by the service.
#[derive(Debug, PartialEq, Eq, Structural, Clone, Copy)]
pub enum ErrorStatus {
    /// Internal service failed to fetch data; try again.
    InternalFetch,
    /// Internal server error, mostly a timeout of an internal service; try again.
    InternalTimeout,
    /// The server received invalid parameters.
    InvalidParameters,
    /// Unknown or uncategorized internal server error.
    InternalUnknown,
    /// Conflict; try again.
    Conflict,
    /// The user does not exist.
    InvalidUser,
    /// Authorization failed; check the token or the auth status.
    AuthorizationFailed,
    /// Authorization code doesn't exist or has expired.
    InvalidAuthCode1,
    /// The same message cannot be repeated, or sent too often, in a channel.
    MessageSpam,
    /// The category does not exist.
    InvalidCategory,
    /// Content conflicts with a moderation rule.
    Moderated1,
    /// Content conflicts with a moderation rule.
    Moderated2,
    /// The user account has been blocked.
    AccountBlocked,
    /// Error in the request header.
    InvalidHeader,
    /// Try again with a valid scope.
    InvalidScope,
    /// Check whether the access token passed in is valid.
    InvalidAccessToken,
    /// API rate limit exceeded.
    RateLimitExceeded,
    /// No permission to send chats to this channel.
    MissingChatPermission,
    /// Invalid shard value.
    InvalidShardValue,
    /// No permission to get the sharding token.
    MissingShardTokenPermission,
    /// Authorization code doesn't exist or has expired.
    InvalidAuthCode2,
    /// Authorization code has been used.
    UsedAuthCode,
    /// Refresh token has expired.
    RefreshTokenExpired,
    /// Invalid refresh token.
    InvalidRefreshToken,
    /// Access token has expired.
    AccessTokenExpired,
    /// Invalid grant type.
    InvalidGrantType,
    /// Invalid redirect URI.
    InvalidRedirectUri,
    /// Invalid client secret.
    InvalidClientSecret,
    /// Too many live access tokens; wait for old ones to expire.
    AccessTokenLimit,
    /// Scope is not authorized by the user.
    UnauthorizedScope,
    /// The user is banned from chatting in this channel.
    BannedInChannel,
    /// The channel is in slow mode.
    SlowMode,
    /// The channel is in follower-only chat.
    FollowerOnly,
    /// No permission to send hyperlinks in this channel.
    UnauthorizedHyperlink,
    /// The message conflicts with the channel's moderation settings.
    ModeratedMessage,
    /// Unknown or uncategorized error.
    Unknown,
}

/// The numeric code an error status is carried as.
pub open spec fn status_code(s: ErrorStatus) -> int {
    match s {
        ErrorStatus::InternalFetch => -1201,
        ErrorStatus::InternalTimeout => -1000,
        ErrorStatus::InvalidParameters => 1002,
        ErrorStatus::InternalUnknown => 1111,
        ErrorStatus::Conflict => 1203,
        ErrorStatus::InvalidUser => 10505,
        ErrorStatus::AuthorizationFailed => 10703,
        ErrorStatus::InvalidAuthCode1 => 10710,
        ErrorStatus::MessageSpam => 10908,
        ErrorStatus::InvalidCategory => 11000,
        ErrorStatus::Moderated1 => 11101,
        ErrorStatus::Moderated2 => 11103,
        ErrorStatus::AccountBlocked => 11400,
        ErrorStatus::InvalidHeader => 11701,
        ErrorStatus::InvalidScope => 11703,
        ErrorStatus::InvalidAccessToken => 11704,
        ErrorStatus::RateLimitExceeded => 11706,
        ErrorStatus::MissingChatPermission => 11707,
        ErrorStatus::InvalidShardValue => 11708,
        ErrorStatus::MissingShardTokenPermission => 11709,
        ErrorStatus::InvalidAuthCode2 => 11710,
        ErrorStatus::UsedAuthCode => 11711,
        ErrorStatus::RefreshTokenExpired => 11712,
        ErrorStatus::InvalidRefreshToken => 11713,
        ErrorStatus::AccessTokenExpired => 11714,
        ErrorStatus::InvalidGrantType => 11715,
        ErrorStatus::InvalidRedirectUri => 11716,
        ErrorStatus::InvalidClientSecret => 11717,
        ErrorStatus::AccessTokenLimit => 11718,
        ErrorStatus::UnauthorizedScope => 11730,
        ErrorStatus::BannedInChannel => 12400,
        ErrorStatus::SlowMode => 12401,
        ErrorStatus::FollowerOnly => 12402,
        ErrorStatus::UnauthorizedHyperlink => 12905,
        ErrorStatus::ModeratedMessage => 12906,
        ErrorStatus::Unknown => 20000,
    }
}

/// The error status a numeric code denotes, if any.
pub open spec fn spec_status_of_code(c: int) -> Option<ErrorStatus> {
    if c == -1201 {
        Some(ErrorStatus::InternalFetch)
    } else
    if c == -1000 {
        Some(ErrorStatus::InternalTimeout)
    } else
    if c == 1002 {
        Some(ErrorStatus::InvalidParameters)
    } else
    if c == 1111 {
        Some(ErrorStatus::InternalUnknown)
    } else
    if c == 1203 {
        Some(ErrorStatus::Conflict)
    } else
    if c == 10505 {
        Some(ErrorStatus::InvalidUser)
    } else
    if c == 10703 {
        Some(ErrorStatus::AuthorizationFailed)
    } else
    if c == 10710 {
        Some(ErrorStatus::InvalidAuthCode1)
    } else
    if c == 10908 {
        Some(ErrorStatus::MessageSpam)
    } else
    if c == 11000 {
        Some(ErrorStatus::InvalidCategory)
    } else
    if c == 11101 {
        Some(ErrorStatus::Moderated1)
    } else
    if c == 11103 {
        Some(ErrorStatus::Moderated2)
    } else
    if c == 11400 {
        Some(ErrorStatus::AccountBlocked)
    } else
    if c == 11701 {
        Some(ErrorStatus::InvalidHeader)
    } else
    if c == 11703 {
        Some(ErrorStatus::InvalidScope)
    } else
    if c == 11704 {
        Some(ErrorStatus::InvalidAccessToken)
    } else
    if c == 11706 {
        Some(ErrorStatus::RateLimitExceeded)
    } else
    if c == 11707 {
        Some(ErrorStatus::MissingChatPermission)
    } else
    if c == 11708 {
        Some(ErrorStatus::InvalidShardValue)
    } else
    if c == 11709 {
        Some(ErrorStatus::MissingShardTokenPermission)
    } else
    if c == 11710 {
        Some(ErrorStatus::InvalidAuthCode2)
    } else
    if c == 11711 {
        Some(ErrorStatus::UsedAuthCode)
    } else
    if c == 11712 {
        Some(ErrorStatus::RefreshTokenExpired)
    } else
    if c == 11713 {
        Some(ErrorStatus::InvalidRefreshToken)
    } else
    if c == 11714 {
        Some(ErrorStatus::AccessTokenExpired)
    } else
    if c == 11715 {
        Some(ErrorStatus::InvalidGrantType)
    } else
    if c == 11716 {
        Some(ErrorStatus::InvalidRedirectUri)
    } else
    if c == 11717 {
        Some(ErrorStatus::InvalidClientSecret)
    } else
    if c == 11718 {
        Some(ErrorStatus::AccessTokenLimit)
    } else
    if c == 11730 {
        Some(ErrorStatus::UnauthorizedScope)
    } else
    if c == 12400 {
        Some(ErrorStatus::BannedInChannel)
    } else
    if c == 12401 {
        Some(ErrorStatus::SlowMode)
    } else
    if c == 12402 {
        Some(ErrorStatus::FollowerOnly)
    } else
    if c == 12905 {
        Some(ErrorStatus::UnauthorizedHyperlink)
    } else
    if c == 12906 {
        Some(ErrorStatus::ModeratedMessage)
    } else
    if c == 20000 {
        Some(ErrorStatus::Unknown)
    } else {
        None
    }
}

impl ErrorStatus {
    /// The numeric code this status is carried as on the wire.
    pub fn code(&self) -> (c: i16)
        ensures
            c as int == status_code(*self),
    {
        match self {
            ErrorStatus::InternalFetch => -1201,
            ErrorStatus::InternalTimeout => -1000,
            ErrorStatus::InvalidParameters => 1002,
            ErrorStatus::InternalUnknown => 1111,
            ErrorStatus::Conflict => 1203,
            ErrorStatus::InvalidUser => 10505,
            ErrorStatus::AuthorizationFailed => 10703,
            ErrorStatus::InvalidAuthCode1 => 10710,
            ErrorStatus::MessageSpam => 10908,
            ErrorStatus::InvalidCategory => 11000,
            ErrorStatus::Moderated1 => 11101,
            ErrorStatus::Moderated2 => 11103,
            ErrorStatus::AccountBlocked => 11400,
            ErrorStatus::InvalidHeader => 11701,
            ErrorStatus::InvalidScope => 11703,
            ErrorStatus::InvalidAccessToken => 11704,
            ErrorStatus::RateLimitExceeded => 11706,
            ErrorStatus::MissingChatPermission => 11707,
            ErrorStatus::InvalidShardValue => 11708,
            ErrorStatus::MissingShardTokenPermission => 11709,
            ErrorStatus::InvalidAuthCode2 => 11710,
            ErrorStatus::UsedAuthCode => 11711,
            ErrorStatus::RefreshTokenExpired => 11712,
            ErrorStatus::InvalidRefreshToken => 11713,
            ErrorStatus::AccessTokenExpired => 11714,
            ErrorStatus::InvalidGrantType => 11715,
            ErrorStatus::InvalidRedirectUri => 11716,
            ErrorStatus::InvalidClientSecret => 11717,
            ErrorStatus::AccessTokenLimit => 11718,
            ErrorStatus::UnauthorizedScope => 11730,
            ErrorStatus::BannedInChannel => 12400,
            ErrorStatus::SlowMode => 12401,
            ErrorStatus::FollowerOnly => 12402,
            ErrorStatus::UnauthorizedHyperlink => 12905,
            ErrorStatus::ModeratedMessage => 12906,
            ErrorStatus::Unknown => 20000,
        }
    }

    /// The status a numeric code denotes; unknown codes denote none.
    pub fn of_code(c: i16) -> (r: Option<ErrorStatus>)
        ensures
            r == spec_status_of_code(c as int),
    {
        if c == -1201 {
            Some(ErrorStatus::InternalFetch)
        } else
        if c == -1000 {
            Some(ErrorStatus::InternalTimeout)
        } else
        if c == 1002 {
            Some(ErrorStatus::InvalidParameters)
        } else
        if c == 1111 {
            Some(ErrorStatus::InternalUnknown)
        } else
        if c == 1203 {
            Some(ErrorStatus::Conflict)
        } else
        if c == 10505 {
            Some(ErrorStatus::InvalidUser)
        } else
        if c == 10703 {
            Some(ErrorStatus::AuthorizationFailed)
        } else
        if c == 10710 {
            Some(ErrorStatus::InvalidAuthCode1)
        } else
        if c == 10908 {
            Some(ErrorStatus::MessageSpam)
        } else
        if c == 11000 {
            Some(ErrorStatus::InvalidCategory)
        } else
        if c == 11101 {
            Some(ErrorStatus::Moderated1)
        } else
        if c == 11103 {
            Some(ErrorStatus::Moderated2)
        } else
        if c == 11400 {
            Some(ErrorStatus::AccountBlocked)
        } else
        if c == 11701 {
            Some(ErrorStatus::InvalidHeader)
        } else
        if c == 11703 {
            Some(ErrorStatus::InvalidScope)
        } else
        if c == 11704 {
            Some(ErrorStatus::InvalidAccessToken)
        } else
        if c == 11706 {
            Some(ErrorStatus::RateLimitExceeded)
        } else
        if c == 11707 {
            Some(ErrorStatus::MissingChatPermission)
        } else
        if c == 11708 {
            Some(ErrorStatus::InvalidShardValue)
        } else
        if c == 11709 {
            Some(ErrorStatus::MissingShardTokenPermission)
        } else
        if c == 11710 {
            Some(ErrorStatus::InvalidAuthCode2)
        } else
        if c == 11711 {
            Some(ErrorStatus::UsedAuthCode)
        } else
        if c == 11712 {
            Some(ErrorStatus::RefreshTokenExpired)
        } else
        if c == 11713 {
            Some(ErrorStatus::InvalidRefreshToken)
        } else
        if c == 11714 {
            Some(ErrorStatus::AccessTokenExpired)
        } else
        if c == 11715 {
            Some(ErrorStatus::InvalidGrantType)
        } else
        if c == 11716 {
            Some(ErrorStatus::InvalidRedirectUri)
        } else
        if c == 11717 {
            Some(ErrorStatus::InvalidClientSecret)
        } else
        if c == 11718 {
            Some(ErrorStatus::AccessTokenLimit)
        } else
        if c == 11730 {
            Some(ErrorStatus::UnauthorizedScope)
        } else
        if c == 12400 {
            Some(ErrorStatus::BannedInChannel)
        } else
        if c == 12401 {
            Some(ErrorStatus::SlowMode)
        } else
        if c == 12402 {
            Some(ErrorStatus::FollowerOnly)
        } else
        if c == 12905 {
            Some(ErrorStatus::UnauthorizedHyperlink)
        } else
        if c == 12906 {
            Some(ErrorStatus::ModeratedMessage)
        } else
        if c == 20000 {
            Some(ErrorStatus::Unknown)
        } else {
            None
        }
    }
}

/// A status's wire code always maps back to the same status.
pub proof fn lemma_status_code_round_trip(s: ErrorStatus)
    ensures
        spec_status_of_code(status_code(s)) == Some(s),
{
}

/// The error record the service responds with.
#[derive(Debug, PartialEq)]
pub struct ApiError {
    /// The service's error status saying what went wrong.
    pub status: ErrorStatus,
    /// The service's message describing the error.
    pub message: String,
}

impl Default for ApiError {
    /// The record used when an error response carries no readable body.
    fn default() -> (r: Self)
        ensures
            r.status == ErrorStatus::Unknown,
            r.message@ == "Unknown or uncategorized error"@,
    {
        ApiError {
            status: ErrorStatus::Unknown,
            message: "Unknown or uncategorized error".to_owned(),
        }
    }
}

impl ApiError {
    /// Whether responses with this HTTP status code are known to carry a
    /// friendly error record: exactly bad request, unauthorized, and
    /// internal server error.
    pub fn can_handle_code(status: u16) -> (r: bool)
        ensures
            r <==> (status == 400 || status == 401 || status == 500),
    {
        status == 400 || status == 401 || status == 500
    }
}

/// Errors that can happen on most calls to the service.
#[derive(Debug)]
pub enum RequestError {
    /// The service returned an error response; its status says what
    /// specifically went wrong.
    ApiError(ApiError),
    /// Some other request error: a status code, or the network.
    Other(reqwest::Error),
}

impl From<reqwest::Error> for RequestError {
    fn from(error: reqwest::Error) -> (r: Self) {
        RequestError::Other(error)
    }
}

impl vstd::std_specs::convert::FromSpecImpl<reqwest::Error> for RequestError {
    open spec fn obeys_from_spec() -> bool {
        true
    }

    open spec fn from_spec(error: reqwest::Error) -> Self {
        RequestError::Other(error)
    }
}

/// Errors that can happen on calls that authenticate as a user; `E` is
/// the auth provider's refresh error.
#[derive(Debug)]
pub enum AuthenticatedRequestError<E> {
    /// Refreshing the access token failed.
    RefreshToken(E),
    /// The service returned an error response.
    ApiError(ApiError),
    /// Some other request error: a status code, or the network.
    Other(reqwest::Error),
}

impl<E> From<reqwest::Error> for AuthenticatedRequestError<E> {
    fn from(error: reqwest::Error) -> (r: Self) {
        AuthenticatedRequestError::Other(error)
    }
}

impl<E> vstd::std_specs::convert::FromSpecImpl<reqwest::Error> for AuthenticatedRequestError<E> {
    open spec fn obeys_from_spec() -> bool {
        true
    }

    open spec fn from_spec(error: reqwest::Error) -> Self {
        AuthenticatedRequestError::Other(error)
    }
}

/// The error of refreshing a token through a provider that cannot
/// refresh.
#[derive(Debug, PartialEq, Eq, Structural, Clone, Copy)]
pub struct AccessTokenExpired;

/// What a user lookup returns once the service has answered with an
/// error record: an empty list when the parameters were invalid — the
/// service answers so even when just one requested username does not
/// exist — and the error record otherwise.
pub fn users_from_error(err: ApiError) -> (r: Result<Vec<User>, RequestError>)
    ensures
        err.status == ErrorStatus::InvalidParameters ==> (r matches Ok(v) && v@.len() == 0),
        err.status != ErrorStatus::InvalidParameters ==> (r matches Err(RequestError::ApiError(e))
            && e == err),
{
    if err.status == ErrorStatus::InvalidParameters {
        Ok(Vec::new())
    } else {
        Err(RequestError::ApiError(err))
    }
}

/// The single user of a lookup answer: the first of the list, or none
/// when the list is empty — the service's way of saying the user was not
/// found.
pub fn first_user(users: Vec<User>) -> (r: Option<User>)
    ensures
        users@.len() == 0 ==> r is None,
        users@.len() > 0 ==> r == Some(users@[0]),
{
    let mut users = users;
    if !users.is_empty() {
        Some(users.remove(0))
    } else {
        None
    }
}

/// Whether a channel lookup actually found a channel: the service returns
/// a nulled-out record rather than an error when it cannot find one, and
/// a legitimate record never has an empty username.
pub fn channel_if_found(channel: ChannelInfo) -> (r: Option<ChannelInfo>)
    ensures
        channel.username@.len() == 0 ==> r is None,
        channel.username@.len() > 0 ==> r == Some(channel),
{
    if channel.username.as_str().is_empty() {
        None
    } else {
        Some(channel)
    }
}

/// Error of connecting to the authenticated user's chat.
#[derive(Debug)]
pub enum ChatMessagesForUserError<E> {
    /// Fetching the chat token failed.
    Request(AuthenticatedRequestError<E>),
    /// Connecting to chat failed.
    ChatConnect(ChatConnectError),
}

impl<E> From<ChatConnectError> for ChatMessagesForUserError<E> {
    fn from(error: ChatConnectError) -> (r: Self) {
        ChatMessagesForUserError::ChatConnect(error)
    }
}

impl<E> vstd::std_specs::convert::FromSpecImpl<ChatConnectError> for ChatMessagesForUserError<E> {
    open spec fn obeys_from_spec() -> bool {
        true
    }

    open spec fn from_spec(error: ChatConnectError) -> Self {
        ChatMessagesForUserError::ChatConnect(error)
    }
}

/// Error of connecting to a channel's chat.
#[derive(Debug)]
pub enum ChatMessagesForChannelError {
    /// Fetching the chat token failed.
    Request(RequestError),
    /// Connecting to chat failed.
    ChatConnect(ChatConnectError),
}

impl From<RequestError> for ChatMessagesForChannelError {
    fn from(error: RequestError) -> (r: Self) {
        ChatMessagesForChannelError::Request(error)
    }
}

impl vstd::std_specs::convert::FromSpecImpl<RequestError> for ChatMessagesForChannelError {
    open spec fn obeys_from_spec() -> bool {
        true
    }

    open spec fn from_spec(error: RequestError) -> Self {
        ChatMessagesForChannelError::Request(error)
    }
}

impl From<ChatConnectError> for ChatMessagesForChannelError {
    fn from(error: ChatConnectError) -> (r: Self) {
        ChatMessagesForChannelError::ChatConnect(error)
    }
}

impl vstd::std_specs::convert::FromSpecImpl<ChatConnectError> for ChatMessagesForChannelError {
    open spec fn obeys_from_spec() -> bool {
        true
    }

    open spec fn from_spec(error: ChatConnectError) -> Self {
        ChatMessagesForChannelError::ChatConnect(error)
    }
}

} // verus!
