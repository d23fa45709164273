//! What a reply of one of the two endpoints means.

use crate::envelope::{batch_from_json, batch_in, token_from_json, token_in, AuthToken};
use crate::error::{AuthError, DecodeError, PipelineError};
use crate::json::{json_document, Json};
use crate::record::{AlarmBatch, AlarmRecordView};
use vstd::prelude::*;

verus! {

/// What came back from an HTTP request.
#[derive(Clone, Debug, PartialEq, Eq)]
pub enum HttpReply {
    /// The request failed before any response came.
    NoResponse,
    /// A response, with its status code and its whole body.
    Response { status: u16, body: Vec<u8> },
}

/// An HTTP reply as a mathematical value.
pub enum HttpReplyView {
    NoResponse,
    Response { status: u16, body: Seq<u8> },
}

impl View for HttpReply {
    type V = HttpReplyView;

    open spec fn view(&self) -> HttpReplyView {
        match self {
            HttpReply::NoResponse => HttpReplyView::NoResponse,
            HttpReply::Response { status, body } => HttpReplyView::Response {
                status: *status,
                body: body@,
            },
        }
    }
}

/// A status code that reports success: one of 200..=299.
pub open spec fn is_success(status: u16) -> bool {
    200 <= status <= 299
}

/// Whether a status code reports success.
pub fn status_is_success(status: u16) -> (success: bool)
    ensures
        success == is_success(status),
{
    200 <= status && status <= 299
}

/// What a reply of the token endpoint gives: the token of the document in
/// the body of a successful response. The body is not looked at unless the
/// status reports success.
pub open spec fn token_of_reply(reply: HttpReplyView) -> Result<Seq<char>, AuthError> {
    match reply {
        HttpReplyView::NoResponse => Err(AuthError::Unreachable),
        HttpReplyView::Response { status, body } => {
            if !is_success(status) {
                Err(AuthError::Status { status })
            } else {
                match json_document(body) {
                    Some(doc) => match token_in(doc) {
                        Some(token) => Ok(token),
                        None => Err(AuthError::Body),
                    },
                    None => Err(AuthError::Body),
                }
            }
        },
    }
}

/// What a reply of the data endpoint gives: the batch of the envelope in the
/// body of a successful response. The body is not looked at unless the status
/// reports success.
pub open spec fn batch_of_reply(reply: HttpReplyView) -> Result<
    Seq<AlarmRecordView>,
    PipelineError,
> {
    match reply {
        HttpReplyView::NoResponse => Err(PipelineError::Transport),
        HttpReplyView::Response { status, body } => {
            if !is_success(status) {
                Err(PipelineError::Upstream { status })
            } else {
                match json_document(body) {
                    Some(doc) => match batch_in(doc) {
                        Ok(batch) => Ok(batch),
                        Err(error) => Err(PipelineError::Decode(error)),
                    },
                    None => Err(PipelineError::Decode(DecodeError::Syntax)),
                }
            }
        },
    }
}

/// A response of the data endpoint with a status outside 200..=299 fails
/// with that status whatever its body holds: the body is not read.
pub proof fn lemma_failure_status_decides(status: u16, body: Seq<u8>)
    requires
        !is_success(status),
    ensures
        batch_of_reply(HttpReplyView::Response { status, body }) == Err::<
            Seq<AlarmRecordView>,
            PipelineError,
        >(PipelineError::Upstream { status }),
{
}

/// Reads the token from a reply of the token endpoint.
pub fn token_from_reply(reply: &HttpReply) -> (read: Result<AuthToken, AuthError>)
    ensures
        match read {
            Ok(token) => token_of_reply(reply@) == Ok::<Seq<char>, AuthError>(token@),
            Err(error) => token_of_reply(reply@) == Err::<Seq<char>, AuthError>(error),
        },
{
    match reply {
        HttpReply::NoResponse => Err(AuthError::Unreachable),
        HttpReply::Response { status, body } => {
            if !status_is_success(*status) {
                return Err(AuthError::Status { status: *status });
            }
            match Json::parse(body.as_slice()) {
                Some(doc) => match token_from_json(&doc) {
                    Some(token) => Ok(token),
                    None => Err(AuthError::Body),
                },
                None => Err(AuthError::Body),
            }
        },
    }
}

/// Reads the batch from a reply of the data endpoint.
pub fn batch_from_reply(reply: &HttpReply) -> (read: Result<AlarmBatch, PipelineError>)
    ensures
        match read {
            Ok(batch) => batch_of_reply(reply@) == Ok::<Seq<AlarmRecordView>, PipelineError>(
                batch@,
            ),
            Err(error) => batch_of_reply(reply@) == Err::<Seq<AlarmRecordView>, PipelineError>(
                error,
            ),
        },
{
    match reply {
        HttpReply::NoResponse => Err(PipelineError::Transport),
        HttpReply::Response { status, body } => {
            if !status_is_success(*status) {
                return Err(PipelineError::Upstream { status: *status });
            }
            match Json::parse(body.as_slice()) {
                Some(doc) => match batch_from_json(&doc) {
                    Ok(batch) => Ok(batch),
                    Err(error) => Err(PipelineError::Decode(error)),
                },
                None => Err(PipelineError::Decode(DecodeError::Syntax)),
            }
        },
    }
}

} // verus!
