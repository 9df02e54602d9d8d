//! The bearer token: when a cached one still serves, what is asked of the token
//! endpoint when none does, and what its reply means.
//!
//! No request is made here and no clock is read. [`AuthClient::get_valid_token`]
//! says whether the cached token serves at a given time or which request to make;
//! the caller makes it and hands the reply to [`AuthClient::fetch_new_token`]. Times
//! are seconds on one clock. A caller that shares an `AuthClient` keeps it behind a
//! lock for both steps, so that at most one request is under way.

use vstd::prelude::*;
use vstd::string::StringExecFns;
use crate::config::{Config, ConfigView};
use crate::error::{AuthErrorKind, AuthErrorKindView, CustomError, CustomErrorView};

verus! {

/// A token with the time from which it no longer serves.
#[derive(Debug)]
pub struct AuthToken {
    access_token: String,
    token_type: String,
    expires_at: i64,
}

/// A token as plain values.
pub struct AuthTokenView {
    pub access_token: Seq<char>,
    pub token_type: Seq<char>,
    pub expires_at: int,
}

impl AuthTokenView {
    /// A token is expired from the instant `expires_at` on; there is no margin.
    pub open spec fn is_expired(self, now: int) -> bool {
        now >= self.expires_at
    }

    /// The value of the authorization header: the type, a space, the token.
    pub open spec fn header_value(self) -> Seq<char> {
        self.token_type + " "@ + self.access_token
    }
}

impl View for AuthToken {
    type V = AuthTokenView;

    closed spec fn view(&self) -> AuthTokenView {
        AuthTokenView {
            access_token: self.access_token@,
            token_type: self.token_type@,
            expires_at: self.expires_at as int,
        }
    }
}

/// What the token endpoint grants: a token, its type and its lifetime in seconds.
#[derive(Debug, PartialEq, Eq)]
pub struct TokenGrant {
    pub access_token: String,
    pub token_type: String,
    pub expires_in: i64,
}

pub struct TokenGrantView {
    pub access_token: Seq<char>,
    pub token_type: Seq<char>,
    pub expires_in: int,
}

impl View for TokenGrant {
    type V = TokenGrantView;

    open spec fn view(&self) -> TokenGrantView {
        TokenGrantView {
            access_token: self.access_token@,
            token_type: self.token_type@,
            expires_in: self.expires_in as int,
        }
    }
}

/// The error that the token endpoint reports in a body.
#[derive(Debug, PartialEq, Eq)]
pub struct ErrorBody {
    pub error: String,
    pub error_description: String,
}

pub struct ErrorBodyView {
    pub error: Seq<char>,
    pub error_description: Seq<char>,
}

impl View for ErrorBody {
    type V = ErrorBodyView;

    open spec fn view(&self) -> ErrorBodyView {
        ErrorBodyView { error: self.error@, error_description: self.error_description@ }
    }
}

/// Why a request got no response: what the transport says of its failure.
#[derive(Debug, PartialEq, Eq)]
pub struct TransportFailure {
    /// The failure stands for a response with an error status.
    pub is_status: bool,
    /// The status that came with the failure, if one did.
    pub status: Option<u16>,
    pub timed_out: bool,
    /// The transport's own words.
    pub detail: String,
}

pub struct TransportFailureView {
    pub is_status: bool,
    pub status: Option<u16>,
    pub timed_out: bool,
    pub detail: Seq<char>,
}

impl View for TransportFailure {
    type V = TransportFailureView;

    open spec fn view(&self) -> TransportFailureView {
        TransportFailureView {
            is_status: self.is_status,
            status: self.status,
            timed_out: self.timed_out,
            detail: self.detail@,
        }
    }
}

/// How a request to the token endpoint ended.
#[derive(Debug, PartialEq, Eq)]
pub enum TokenReply {
    /// No response came.
    Failed(TransportFailure),
    /// A response came with this status, and its body could not be read.
    Unreadable(u16, String),
    /// A response came with this status and a body: the error it reports, if it
    /// reads as one, and the grant it holds, or why it does not read as one.
    Body(u16, Option<ErrorBody>, std::result::Result<TokenGrant, String>),
}

pub enum TokenReplyView {
    Failed(TransportFailureView),
    Unreadable(u16, Seq<char>),
    Body(u16, Option<ErrorBodyView>, Result<TokenGrantView, Seq<char>>),
}

impl View for TokenReply {
    type V = TokenReplyView;

    open spec fn view(&self) -> TokenReplyView {
        match self {
            TokenReply::Failed(failure) => TokenReplyView::Failed(failure@),
            TokenReply::Unreadable(status, detail) => TokenReplyView::Unreadable(*status, detail@),
            TokenReply::Body(status, error, grant) => TokenReplyView::Body(
                *status,
                match error {
                    Some(body) => Some(body@),
                    None => None,
                },
                match grant {
                    Ok(granted) => Ok(granted@),
                    Err(reason) => Err(reason@),
                },
            ),
        }
    }
}

/// The request for a token: a form posted to `url`.
#[derive(Debug, PartialEq, Eq)]
pub struct TokenRequest {
    pub url: String,
    pub client_id: String,
    pub client_secret: String,
    pub grant_type: String,
}

pub struct TokenRequestView {
    pub url: Seq<char>,
    pub client_id: Seq<char>,
    pub client_secret: Seq<char>,
    pub grant_type: Seq<char>,
}

impl View for TokenRequest {
    type V = TokenRequestView;

    open spec fn view(&self) -> TokenRequestView {
        TokenRequestView {
            url: self.url@,
            client_id: self.client_id@,
            client_secret: self.client_secret@,
            grant_type: self.grant_type@,
        }
    }
}

/// What to do for a token: use the header value at hand, or make this request.
#[derive(Debug, PartialEq, Eq)]
pub enum TokenStep {
    Ready(String),
    Fetch(TokenRequest),
}

pub enum TokenStepView {
    Ready(Seq<char>),
    Fetch(TokenRequestView),
}

impl View for TokenStep {
    type V = TokenStepView;

    open spec fn view(&self) -> TokenStepView {
        match self {
            TokenStep::Ready(header) => TokenStepView::Ready(header@),
            TokenStep::Fetch(request) => TokenStepView::Fetch(request@),
        }
    }
}

/// The status with which the token endpoint refuses the credentials.
pub const UNAUTHORIZED: u16 = 401;

/// The error for a request that got no response. A failure that stands for the
/// status 401 means wrong credentials; any other is a network error, told as a
/// timeout where it was one and in the transport's words where not.
pub open spec fn transport_verdict(failure: TransportFailureView) -> AuthErrorKindView {
    if failure.is_status && failure.status == Some(UNAUTHORIZED) {
        AuthErrorKindView::InvalidCredentials
    } else if failure.timed_out {
        AuthErrorKindView::NetworkError("Request timed out"@)
    } else {
        AuthErrorKindView::NetworkError(failure.detail)
    }
}

/// The token that a grant received at `now` makes.
pub open spec fn granted_token(grant: TokenGrantView, now: int) -> AuthTokenView {
    AuthTokenView {
        access_token: grant.access_token,
        token_type: grant.token_type,
        expires_at: now + grant.expires_in,
    }
}

/// What a reply received at `now` means: a new token or an error. The status 401
/// means wrong credentials whatever the body says; a body that reads as an error
/// report is that error; a body that does not read as a grant is an invalid
/// response.
pub open spec fn reply_verdict(reply: TokenReplyView, now: int) -> Result<
    AuthTokenView,
    AuthErrorKindView,
> {
    match reply {
        TokenReplyView::Failed(failure) => Err(transport_verdict(failure)),
        TokenReplyView::Unreadable(status, detail) => if status == UNAUTHORIZED {
            Err(AuthErrorKindView::InvalidCredentials)
        } else {
            Err(AuthErrorKindView::TokenFetchFailed("Failed to get response text: "@ + detail))
        },
        TokenReplyView::Body(status, error, grant) => if status == UNAUTHORIZED {
            Err(AuthErrorKindView::InvalidCredentials)
        } else {
            match error {
                Some(body) => Err(
                    AuthErrorKindView::TokenFetchFailed(
                        body.error + ": "@ + body.error_description,
                    ),
                ),
                None => match grant {
                    Err(reason) => Err(
                        AuthErrorKindView::InvalidTokenResponse(
                            "Failed to parse response: "@ + reason,
                        ),
                    ),
                    Ok(granted) => Ok(granted_token(granted, now)),
                },
            }
        },
    }
}

/// Whether the lifetime that a reply grants, counted from `now`, is a time that an
/// `i64` holds. It is where the reply grants nothing.
pub open spec fn lifetime_fits(reply: TokenReplyView, now: int) -> bool {
    reply_verdict(reply, now) matches Ok(token) ==> i64::MIN <= token.expires_at <= i64::MAX
}

/// The header value that the cache gives at `now`: that of the cached token, if
/// there is one and it is not expired.
pub open spec fn cached_header(cache: Option<AuthTokenView>, now: int) -> Option<Seq<char>> {
    match cache {
        Some(token) => if token.is_expired(now) {
            None
        } else {
            Some(token.header_value())
        },
        None => None,
    }
}

/// The cache after a reply: a new token takes the place of what was cached; an error
/// leaves the cache as it was.
pub open spec fn cache_after(cache: Option<AuthTokenView>, reply: TokenReplyView, now: int) -> Option<
    AuthTokenView,
> {
    match reply_verdict(reply, now) {
        Ok(token) => Some(token),
        Err(_) => cache,
    }
}

/// One whole call for a valid token: the cache after it, what it returns, and how
/// many requests it made.
pub struct TokenCall {
    pub cache: Option<AuthTokenView>,
    pub result: Result<Seq<char>, AuthErrorKindView>,
    pub requests: nat,
}

/// A whole call for a valid token at `now`, where `reply` is how the request ends if
/// one is made. A cached token that is not expired is returned without a request;
/// else one request is made and its reply decides.
pub open spec fn token_call(
    cache: Option<AuthTokenView>,
    now: int,
    reply: TokenReplyView,
) -> TokenCall {
    match cached_header(cache, now) {
        Some(header) => TokenCall { cache, result: Ok(header), requests: 0 },
        None => TokenCall {
            cache: cache_after(cache, reply, now),
            result: match reply_verdict(reply, now) {
                Ok(token) => Ok(token.header_value()),
                Err(e) => Err(e),
            },
            requests: 1,
        },
    }
}

/// Of two calls one after the other, the first on an empty cache and granted a
/// token, the second makes no request and returns the same header value as long as
/// it comes before the token expires. A call at or after that instant makes a
/// request, and a token granted then replaces the cached one.
pub proof fn lemma_token_reused_until_expiry(
    grant: TokenGrantView,
    status: u16,
    first: int,
    second: int,
    reply: TokenReplyView,
)
    requires
        status != UNAUTHORIZED,
        first <= second,
    ensures
        ({
            let granted = TokenReplyView::Body(status, None, Ok(grant));
            let one = token_call(None, first, granted);
            let two = token_call(one.cache, second, reply);
            &&& one.requests == 1
            &&& one.result == Ok::<Seq<char>, AuthErrorKindView>(
                granted_token(grant, first).header_value(),
            )
            &&& one.cache == Some(granted_token(grant, first))
            &&& second < first + grant.expires_in ==> two.requests == 0 && two.result
                == one.result && two.cache == one.cache
            &&& second >= first + grant.expires_in ==> two.requests == 1 && two.cache
                == cache_after(one.cache, reply, second)
            &&& second >= first + grant.expires_in && reply_verdict(reply, second) is Ok
                ==> two.cache == Some(reply_verdict(reply, second)->Ok_0)
        }),
{
}

impl AuthToken {
    /// The token that a grant received at `now` makes: it expires `expires_in`
    /// seconds after `now`.
    pub fn new(access_token: String, token_type: String, expires_in: i64, now: i64) -> (token:
        AuthToken)
        requires
            i64::MIN <= now + expires_in <= i64::MAX,
        ensures
            token@ == (AuthTokenView {
                access_token: access_token@,
                token_type: token_type@,
                expires_at: now + expires_in,
            }),
    {
        AuthToken { access_token, token_type, expires_at: now + expires_in }
    }

    /// Whether the token no longer serves at `now`: from `expires_at` on it does not.
    pub fn is_expired(&self, now: i64) -> (expired: bool)
        ensures
            expired == self@.is_expired(now as int),
    {
        now >= self.expires_at
    }

    /// The value of the authorization header: the type, a space, the token.
    pub fn header_value(&self) -> (header: String)
        ensures
            header@ == self@.header_value(),
    {
        let mut header = self.token_type.clone();
        header.append(" ");
        header.append(self.access_token.as_str());
        header
    }

    /// The time from which the token no longer serves.
    pub fn expires_at(&self) -> (at: i64)
        ensures
            at == self@.expires_at,
    {
        self.expires_at
    }
}

impl TokenReply {
    /// Decides whether the lifetime that the reply grants, counted from `now`, is a
    /// time that an `i64` holds, as [`AuthClient::fetch_new_token`] needs it.
    pub fn lifetime_fits(&self, now: i64) -> (fits: bool)
        ensures
            fits == lifetime_fits(self@, now as int),
    {
        match self {
            TokenReply::Body(status, None, Ok(granted)) => *status == UNAUTHORIZED
                || now.checked_add(granted.expires_in).is_some(),
            _ => true,
        }
    }
}

impl TransportFailure {
    /// The error for a request that got no response.
    pub fn into_error(self) -> (error: CustomError)
        ensures
            error@ == CustomErrorView::AuthError(transport_verdict(self@)),
    {
        if self.is_status && self.status == Some(UNAUTHORIZED) {
            CustomError::AuthError(AuthErrorKind::InvalidCredentials)
        } else if self.timed_out {
            CustomError::AuthError(
                AuthErrorKind::NetworkError(String::from_str("Request timed out")),
            )
        } else {
            CustomError::AuthError(AuthErrorKind::NetworkError(self.detail))
        }
    }
}

/// A result that holds a header value, as plain values.
pub open spec fn header_result_view(result: Result<String, CustomError>) -> Result<
    Seq<char>,
    CustomErrorView,
> {
    match result {
        Ok(header) => Ok(header@),
        Err(e) => Err(e@),
    }
}

/// The result of a call that made a request, as the caller sees it.
pub open spec fn fetched_header(reply: TokenReplyView, now: int) -> Result<
    Seq<char>,
    CustomErrorView,
> {
    match reply_verdict(reply, now) {
        Ok(token) => Ok(token.header_value()),
        Err(e) => Err(CustomErrorView::AuthError(e)),
    }
}

/// The keeper of the token: the settings and at most one cached token.
#[derive(Debug)]
pub struct AuthClient {
    config: Config,
    current_token: Option<AuthToken>,
}

/// The keeper of the token as plain values.
pub struct AuthClientView {
    pub config: ConfigView,
    pub current_token: Option<AuthTokenView>,
}

impl View for AuthClient {
    type V = AuthClientView;

    closed spec fn view(&self) -> AuthClientView {
        AuthClientView {
            config: self.config@,
            current_token: match self.current_token {
                Some(token) => Some(token@),
                None => None,
            },
        }
    }
}

/// The request that the settings make: the client's id and secret, offered as
/// client credentials to the token endpoint.
pub open spec fn token_request_of(config: ConfigView) -> TokenRequestView {
    TokenRequestView {
        url: config.token_url,
        client_id: config.client_id,
        client_secret: config.client_secret,
        grant_type: "client_credentials"@,
    }
}

impl AuthClient {
    /// A keeper with the given settings and no token yet.
    pub fn new(config: Config) -> (client: AuthClient)
        ensures
            client@ == (AuthClientView { config: config@, current_token: None }),
    {
        AuthClient { config, current_token: None }
    }

    /// What to do for a valid token at `now`. The cached token is used, without a
    /// request, if there is one and it is not expired; else the request to make is
    /// returned, and its reply goes to [`AuthClient::fetch_new_token`].
    pub fn get_valid_token(&self, now: i64) -> (step: TokenStep)
        ensures
            step@ == match cached_header(self@.current_token, now as int) {
                Some(header) => TokenStepView::Ready(header),
                None => TokenStepView::Fetch(token_request_of(self@.config)),
            },
    {
        match &self.current_token {
            Some(token) => {
                if !token.is_expired(now) {
                    return TokenStep::Ready(token.header_value());
                }
            },
            None => {},
        }
        TokenStep::Fetch(
            TokenRequest {
                url: self.config.token_url.clone(),
                client_id: self.config.client_id.clone(),
                client_secret: self.config.client_secret.clone(),
                grant_type: String::from_str("client_credentials"),
            },
        )
    }

    /// Takes the reply to a token request that was received at `now`. A granted token
    /// replaces the cached one and its header value is returned; an error leaves the
    /// cache as it was.
    pub fn fetch_new_token(&mut self, reply: TokenReply, now: i64) -> (result: Result<
        String,
        CustomError,
    >)
        requires
            lifetime_fits(reply@, now as int),
        ensures
            header_result_view(result) == fetched_header(reply@, now as int),
            final(self)@.config == old(self)@.config,
            final(self)@.current_token == cache_after(
                old(self)@.current_token,
                reply@,
                now as int,
            ),
    {
        match reply {
            TokenReply::Failed(failure) => Err(failure.into_error()),
            TokenReply::Unreadable(status, detail) => {
                if status == UNAUTHORIZED {
                    Err(CustomError::AuthError(AuthErrorKind::InvalidCredentials))
                } else {
                    let mut text = String::from_str("Failed to get response text: ");
                    text.append(detail.as_str());
                    Err(CustomError::AuthError(AuthErrorKind::TokenFetchFailed(text)))
                }
            },
            TokenReply::Body(status, error, grant) => {
                if status == UNAUTHORIZED {
                    return Err(CustomError::AuthError(AuthErrorKind::InvalidCredentials));
                }
                match error {
                    Some(body) => {
                        let mut text = body.error;
                        text.append(": ");
                        text.append(body.error_description.as_str());
                        Err(CustomError::AuthError(AuthErrorKind::TokenFetchFailed(text)))
                    },
                    None => match grant {
                        Err(reason) => {
                            let mut text = String::from_str("Failed to parse response: ");
                            text.append(reason.as_str());
                            Err(CustomError::AuthError(AuthErrorKind::InvalidTokenResponse(text)))
                        },
                        Ok(granted) => {
                            let token = AuthToken::new(
                                granted.access_token,
                                granted.token_type,
                                granted.expires_in,
                                now,
                            );
                            let header = token.header_value();
                            self.current_token = Some(token);
                            Ok(header)
                        },
                    },
                }
            },
        }
    }

    /// The cached token, expired or not.
    pub fn current_token(&self) -> (token: &Option<AuthToken>)
        ensures
            match *token {
                Some(t) => self@.current_token == Some(t@),
                None => self@.current_token is None,
            },
    {
        &self.current_token
    }
}

} // verus!
