//! The response envelope `{data, requestId, error}` in which JSON answers travel.

use vstd::prelude::*;
use crate::text::{chars_of, chars_start_with, starts_with};
use crate::error::{AppError, error_code, error_message};

verus! {

/// The error part of an envelope.
#[derive(Debug)]
pub struct ApiErrorBody {
    pub code: String,
    pub message: String,
}

/// A JSON answer with its request id: the data on success, the error otherwise.
#[derive(Debug)]
pub struct ApiResponse<T> {
    pub data: Option<T>,
    pub request_id: String,
    pub error: Option<ApiErrorBody>,
}

impl<T> ApiResponse<T> {
    /// A successful answer.
    pub fn ok(data: T, request_id: String) -> (r: Self)
        ensures
            r.data == Some(data),
            r.request_id == request_id,
            r.error.is_none(),
    {
        ApiResponse { data: Some(data), request_id, error: None }
    }
}

impl ApiErrorBody {
    /// The error part for an application error: its code and client message.
    pub fn from_error(e: &AppError) -> (r: ApiErrorBody)
        ensures
            r.code@ == error_code(*e),
            r.message@ == error_message(*e),
    {
        ApiErrorBody { code: crate::text::owned(e.code()), message: e.message() }
    }
}

/// The layer that puts every JSON answer into an envelope.
#[derive(Clone, Copy, Debug)]
pub struct EnvelopeLayer;

/// The service that the layer wraps around an inner service.
#[derive(Clone, Debug)]
pub struct EnvelopeService<S> {
    pub inner: S,
}

impl EnvelopeLayer {
    /// Wraps an inner service.
    pub fn layer<S>(&self, inner: S) -> (r: EnvelopeService<S>)
        ensures
            r.inner == inner,
    {
        EnvelopeService { inner }
    }
}

/// What becomes of a response body.
#[derive(Clone, Copy, Debug, PartialEq, Eq, Structural)]
pub enum Envelope {
    /// Sent as it is.
    PassThrough,
    /// Sent as the `data` of an envelope.
    Data,
    /// Sent as the `error` of an envelope.
    Error,
}

/// A body is enveloped only when it is non-empty JSON (by its content type and its
/// text); it becomes the error for client and server error statuses (400 to 599), the
/// data otherwise.
pub open spec fn envelope_spec(status: u16, content_type: Seq<char>, body_empty: bool, body_is_json: bool) -> Envelope {
    if !starts_with(content_type, "application/json"@) || body_empty || !body_is_json {
        Envelope::PassThrough
    } else if 400 <= status <= 599 {
        Envelope::Error
    } else {
        Envelope::Data
    }
}

/// Decides what becomes of a response body.
pub fn envelope_action(status: u16, content_type: &str, body_empty: bool, body_is_json: bool) -> (r: Envelope)
    ensures
        r == envelope_spec(status, content_type@, body_empty, body_is_json),
{
    let ct = chars_of(content_type);
    let json = chars_of("application/json");
    if !chars_start_with(ct.as_slice(), json.as_slice()) || body_empty || !body_is_json {
        Envelope::PassThrough
    } else if 400 <= status && status <= 599 {
        Envelope::Error
    } else {
        Envelope::Data
    }
}

} // verus!
