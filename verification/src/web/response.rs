//! The response envelope.

use crate::json::{json_msg, msg_text, JsonError, JsonPayload};
use vstd::prelude::*;
use vstd::string::StringExecFns;

verus! {

/// The HTTP status codes that the handlers answer with.
#[allow(non_camel_case_types)]
#[derive(Clone, Copy, Debug, PartialEq, Eq, Structural)]
pub enum StatusCode {
    /// 200
    OK,
    /// 204
    NO_CONTENT,
    /// 404
    NOT_FOUND,
    /// 500
    INTERNAL_SERVER_ERROR,
}

impl StatusCode {
    /// The number of the status code.
    pub open spec fn code(self) -> u16 {
        match self {
            StatusCode::OK => 200,
            StatusCode::NO_CONTENT => 204,
            StatusCode::NOT_FOUND => 404,
            StatusCode::INTERNAL_SERVER_ERROR => 500,
        }
    }

    /// The number of the status code.
    pub fn as_u16(&self) -> (code: u16)
        ensures
            code == self.code(),
    {
        match self {
            StatusCode::OK => 200,
            StatusCode::NO_CONTENT => 204,
            StatusCode::NOT_FOUND => 404,
            StatusCode::INTERNAL_SERVER_ERROR => 500,
        }
    }
}

/// A finished answer: the status and the JSON body to send.
#[derive(Debug)]
pub struct Response {
    pub status: StatusCode,
    pub body: String,
}

/// What a `Response` says, with the body as a sequence of characters.
pub struct ResponseView {
    pub status: StatusCode,
    pub body: Seq<char>,
}

impl View for Response {
    type V = ResponseView;

    open spec fn view(&self) -> ResponseView {
        ResponseView { status: self.status, body: self.body@ }
    }
}

/// An error that a handler detected, with the message that explains it.
#[derive(Debug)]
pub struct ApiErrorResponse {
    pub msg: String,
}

impl ApiErrorResponse {
    /// The body that this error makes: the JSON object with the one member
    /// `msg`. An error travels without the envelope of a payload.
    pub open spec fn json(&self) -> Seq<char> {
        json_msg(self.msg@)
    }

    /// The error as JSON text.
    pub fn to_json(&self) -> (text: String)
        ensures
            text@ == self.json(),
    {
        msg_text(self.msg.as_str())
    }

    /// The response with the given status and this error as its body.
    pub fn response(&self, status: &StatusCode) -> (r: Response)
        ensures
            r@ == (ResponseView { status: *status, body: self.json() }),
    {
        Response { status: *status, body: self.to_json() }
    }
}

/// The envelope around a payload: the JSON object with the one member
/// `payload`. A payload without a JSON text is answered by the error
/// `Serialization error` instead.
pub open spec fn envelope(payload: Option<Seq<char>>) -> Seq<char> {
    match payload {
        Some(text) => "{\"payload\":"@ + text + "}"@,
        None => json_msg("Serialization error"@),
    }
}

/// Puts the envelope around an encoded payload, or answers with the error
/// `Serialization error` where encoding failed.
pub fn wrap_payload(encoded: Result<String, JsonError>) -> (text: String)
    ensures
        text@ == envelope(
            match encoded {
                Ok(payload) => Some(payload@),
                Err(_) => None,
            },
        ),
{
    match encoded {
        Ok(payload) => {
            let mut text = String::from_str("{\"payload\":");
            text.append(payload.as_str());
            text.append("}");
            text
        },
        Err(_) => ApiErrorResponse { msg: String::from_str("Serialization error") }.to_json(),
    }
}

/// A payload on its way into a response.
#[derive(Debug)]
pub struct ResponseHandler<T: JsonPayload> {
    pub payload: T,
}

impl<T: JsonPayload> ResponseHandler<T> {
    /// The body that this payload makes.
    pub open spec fn json(&self) -> Seq<char> {
        envelope(self.payload.json())
    }

    pub fn new(payload: T) -> (handler: Self)
        ensures
            handler.payload == payload,
    {
        Self { payload }
    }

    /// The payload in its envelope, as JSON text.
    pub fn to_json(&self) -> (text: String)
        ensures
            text@ == self.json(),
    {
        wrap_payload(self.payload.encode())
    }

    /// The response with the given status and this payload as its body.
    pub fn response(&self, status: &StatusCode) -> (r: Response)
        ensures
            r@ == (ResponseView { status: *status, body: self.json() }),
    {
        Response { status: *status, body: self.to_json() }
    }
}

} // verus!
