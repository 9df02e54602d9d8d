//! Creating one field at the field-creation endpoint: the request to send and what
//! the reply to it means.
//!
//! Nothing is sent here. [`FieldClient::create_field`] makes the request, which says
//! how long to wait before sending it; the caller waits, sends it once and hands the
//! reply to [`FieldClient::field_created`]. There is no retry.

use vstd::prelude::*;
use vstd::string::StringExecFns;
use crate::config::{Config, ConfigView};
use crate::error::{ApiErrorKind, ApiErrorKindView, CustomError, CustomErrorView};
use crate::field::{Field, FieldView};
use crate::number::{decimal, to_decimal};
use crate::transformers::{payload_of, payloads_view, FieldJson, FieldJsonView};

verus! {

/// The wait before every request, in milliseconds. It is paid on every call, the
/// first one too.
pub const REQUEST_DELAY_MS: u64 = 500;

/// What stands for the body of a response whose body could not be read.
pub open spec fn unread_body() -> Seq<char> {
    "Failed to get error response"@
}

/// The request that creates a field: after the wait, the payload is posted to
/// `endpoint` as JSON, an array even for the one field, with `authorization` as the
/// authorization header.
#[derive(Debug)]
pub struct FieldRequest {
    pub delay_ms: u64,
    pub endpoint: String,
    pub authorization: String,
    pub content_type: String,
    pub payload: Vec<FieldJson>,
}

/// The request as plain values.
pub struct FieldRequestView {
    pub delay_ms: u64,
    pub endpoint: Seq<char>,
    pub authorization: Seq<char>,
    pub content_type: Seq<char>,
    pub payload: Seq<FieldJsonView>,
}

impl View for FieldRequest {
    type V = FieldRequestView;

    open spec fn view(&self) -> FieldRequestView {
        FieldRequestView {
            delay_ms: self.delay_ms,
            endpoint: self.endpoint@,
            authorization: self.authorization@,
            content_type: self.content_type@,
            payload: payloads_view(self.payload@),
        }
    }
}

/// How the request ended.
#[derive(Debug, PartialEq, Eq)]
pub enum FieldReply {
    /// No response came; the text is the transport's own.
    Failed(String),
    /// A response came with this status; the body is `None` where it could not be
    /// read.
    Response(u16, Option<String>),
}

pub enum FieldReplyView {
    Failed(Seq<char>),
    Response(u16, Option<Seq<char>>),
}

impl View for FieldReply {
    type V = FieldReplyView;

    open spec fn view(&self) -> FieldReplyView {
        match self {
            FieldReply::Failed(detail) => FieldReplyView::Failed(detail@),
            FieldReply::Response(status, body) => FieldReplyView::Response(
                *status,
                match body {
                    Some(text) => Some(text@),
                    None => None,
                },
            ),
        }
    }
}

/// Whether a status means success: the statuses from 200 to 299.
pub open spec fn is_success(status: u16) -> bool {
    200 <= status <= 299
}

/// What the endpoint answered, as the error tells it: the status and the body, or
/// the stand-in for a body that could not be read.
pub open spec fn answer_text(status: u16, body: Option<Seq<char>>) -> Seq<char> {
    "Status: "@ + decimal(status as nat) + ", Error: "@ + match body {
        Some(text) => text,
        None => unread_body(),
    }
}

/// What a reply means for the field with the given label. A response with a status
/// of success is success, whatever its body; any other response is a failure to
/// create the field, with the label, the status and the body; no response is a
/// network error.
pub open spec fn reply_outcome(label: Seq<char>, reply: FieldReplyView) -> Result<
    (),
    CustomErrorView,
> {
    match reply {
        FieldReplyView::Failed(detail) => Err(
            CustomErrorView::ApiError(ApiErrorKindView::NetworkError(detail)),
        ),
        FieldReplyView::Response(status, body) => if is_success(status) {
            Ok(())
        } else {
            Err(
                CustomErrorView::ApiError(
                    ApiErrorKindView::FieldCreationFailed(label, answer_text(status, body)),
                ),
            )
        },
    }
}

/// An outcome as plain values.
pub open spec fn outcome_view(outcome: Result<(), CustomError>) -> Result<(), CustomErrorView> {
    match outcome {
        Ok(_) => Ok(()),
        Err(e) => Err(e@),
    }
}

/// The request for a field under the given settings and header value.
pub open spec fn request_for(
    config: ConfigView,
    auth_token: Seq<char>,
    field: FieldView,
) -> FieldRequestView {
    FieldRequestView {
        delay_ms: REQUEST_DELAY_MS,
        endpoint: config.api_url + "/fieldinfo"@,
        authorization: auth_token,
        content_type: "application/json"@,
        payload: seq![payload_of(field)],
    }
}

/// The client of the field-creation endpoint: the settings and the header value
/// that authorizes its requests.
#[derive(Debug)]
pub struct FieldClient {
    config: Config,
    auth_token: String,
}

pub struct FieldClientView {
    pub config: ConfigView,
    pub auth_token: Seq<char>,
}

impl View for FieldClient {
    type V = FieldClientView;

    closed spec fn view(&self) -> FieldClientView {
        FieldClientView { config: self.config@, auth_token: self.auth_token@ }
    }
}

impl FieldClient {
    /// A client with the given settings and authorization header value.
    pub fn new(config: Config, auth_token: String) -> (client: FieldClient)
        ensures
            client@ == (FieldClientView { config: config@, auth_token: auth_token@ }),
    {
        FieldClient { config, auth_token }
    }

    /// Replaces the authorization header value, as after the token was renewed.
    pub fn set_auth_token(&mut self, auth_token: String)
        ensures
            final(self)@ == (FieldClientView { config: old(self)@.config, auth_token: auth_token@ }),
    {
        self.auth_token = auth_token;
    }

    /// The request that creates `field`: one payload, the fixed wait, the endpoint
    /// below the API's address, and the client's authorization header value.
    pub fn create_field(&self, field: &Field) -> (request: FieldRequest)
        ensures
            request@ == request_for(self@.config, self@.auth_token, field@),
            request.payload.len() == 1,
    {
        let mut endpoint = self.config.api_url.clone();
        endpoint.append("/fieldinfo");
        let mut payload: Vec<FieldJson> = Vec::new();
        let one = FieldJson::from_field(field);
        payload.push(one);
        proof {
            assert(payloads_view(payload@) =~= seq![payload_of(field@)]);
        }
        FieldRequest {
            delay_ms: REQUEST_DELAY_MS,
            endpoint,
            authorization: self.auth_token.clone(),
            content_type: String::from_str("application/json"),
            payload,
        }
    }

    /// What the reply to the request for `field` means.
    pub fn field_created(&self, field: &Field, reply: FieldReply) -> (outcome: Result<
        (),
        CustomError,
    >)
        ensures
            outcome_view(outcome) == reply_outcome(field@.label, reply@),
    {
        match reply {
            FieldReply::Failed(detail) => Err(
                CustomError::ApiError(ApiErrorKind::NetworkError(detail)),
            ),
            FieldReply::Response(status, body) => {
                if 200 <= status && status <= 299 {
                    Ok(())
                } else {
                    let mut answer = String::from_str("Status: ");
                    let code = to_decimal(status as u128);
                    answer.append(code.as_str());
                    answer.append(", Error: ");
                    match body {
                        Some(text) => answer.append(text.as_str()),
                        None => answer.append("Failed to get error response"),
                    }
                    Err(
                        CustomError::ApiError(
                            ApiErrorKind::FieldCreationFailed(field.label().clone(), answer),
                        ),
                    )
                }
            },
        }
    }
}

} // verus!
