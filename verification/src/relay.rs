//! The API relay: one POST request with a caller's payload, and the reading
//! of what came back.
//!
//! The exchange itself is left to the caller. The library builds the
//! request, decides on the status whether the body is to be read, and turns
//! each way the exchange can end into the relay's result.

use crate::text::{decimal, optional_text, to_decimal};
use vstd::prelude::*;
use vstd::string::StringExecFns;

verus! {

/// One header line of a request.
#[derive(Clone, Debug, PartialEq, Eq)]
pub struct Header {
    pub name: String,
    pub value: String,
}

impl DeepView for Header {
    type V = (Seq<char>, Seq<char>);

    open spec fn deep_view(&self) -> (Seq<char>, Seq<char>) {
        (self.name@, self.value@)
    }
}

/// The method of a request. The relay only ever posts.
#[derive(Clone, Copy, Debug, PartialEq, Eq, Structural)]
pub enum Method {
    Post,
}

/// A request: its method, where it goes, its headers in order, and its
/// body.
#[derive(Clone, Debug, PartialEq, Eq)]
pub struct Request {
    pub method: Method,
    pub url: String,
    pub headers: Vec<Header>,
    pub body: String,
}

/// The mathematical content of a [`Request`].
pub struct RequestView {
    pub method: Method,
    pub url: Seq<char>,
    pub headers: Seq<(Seq<char>, Seq<char>)>,
    pub body: Seq<char>,
}

impl DeepView for Request {
    type V = RequestView;

    open spec fn deep_view(&self) -> RequestView {
        RequestView {
            method: self.method,
            url: self.url@,
            headers: self.headers.deep_view(),
            body: self.body@,
        }
    }
}

/// The ways in which a relay fails.
#[derive(Clone, Debug, PartialEq, Eq)]
pub enum RelayError {
    /// The request never got an answer: the transport's own message.
    Transport(String),
    /// The server answered with a status that is no success.
    Status { code: u16, reason: String },
    /// The status was a success and the body could not be read.
    BodyRead(String),
}

/// The mathematical content of a [`RelayError`].
pub enum RelayErrorView {
    Transport(Seq<char>),
    Status { code: u16, reason: Seq<char> },
    BodyRead(Seq<char>),
}

impl View for RelayError {
    type V = RelayErrorView;

    open spec fn view(&self) -> RelayErrorView {
        match self {
            RelayError::Transport(message) => RelayErrorView::Transport(message@),
            RelayError::Status { code, reason } => RelayErrorView::Status {
                code: *code,
                reason: reason@,
            },
            RelayError::BodyRead(message) => RelayErrorView::BodyRead(message@),
        }
    }
}

/// What is to be done once the status of the response is known.
#[derive(Clone, Debug, PartialEq, Eq)]
pub enum AfterStatus {
    /// The status is a success: read the body.
    ReadBody,
    /// The status is no success: the relay has failed.
    Fail(RelayError),
}

/// The mathematical content of an [`AfterStatus`].
pub enum AfterStatusView {
    ReadBody,
    Fail(RelayErrorView),
}

impl View for AfterStatus {
    type V = AfterStatusView;

    open spec fn view(&self) -> AfterStatusView {
        match self {
            AfterStatus::ReadBody => AfterStatusView::ReadBody,
            AfterStatus::Fail(error) => AfterStatusView::Fail(error@),
        }
    }
}

/// The headers of a relay request: the content type, the client's
/// identifier and, for a token that is not empty, the bearer authorization.
pub open spec fn request_headers(token: Option<Seq<char>>) -> Seq<(Seq<char>, Seq<char>)> {
    let fixed = seq![
        ("Content-Type"@, "application/json"@),
        ("User-Agent"@, "SystemMonitor/1.0"@),
    ];
    match token {
        Some(secret) => if secret.len() > 0 {
            fixed.push(("Authorization"@, "Bearer "@ + secret))
        } else {
            fixed
        },
        None => fixed,
    }
}

/// The relay request for a payload: one POST.
pub open spec fn request_view(endpoint: Seq<char>, payload: Seq<char>, token: Option<Seq<char>>)
    -> RequestView {
    RequestView {
        method: Method::Post,
        url: endpoint,
        headers: request_headers(token),
        body: payload,
    }
}

/// Whether `code` is a success status: 200 to 299.
pub open spec fn is_success(code: u16) -> bool {
    200 <= code < 300
}

/// The decision on a status, given the reason phrase that belongs to it: a
/// success asks for the body; any other status fails with its code and its
/// phrase, or with `Unknown` where the code has no phrase.
pub open spec fn status_decision(code: u16, phrase: Option<Seq<char>>) -> AfterStatusView {
    if is_success(code) {
        AfterStatusView::ReadBody
    } else {
        AfterStatusView::Fail(
            RelayErrorView::Status {
                code,
                reason: match phrase {
                    Some(text) => text,
                    None => "Unknown"@,
                },
            },
        )
    }
}

/// The text of an error, as it is handed to the caller.
pub open spec fn message_of(error: RelayErrorView) -> Seq<char> {
    match error {
        RelayErrorView::Transport(message) => "Error en petición: "@ + message,
        RelayErrorView::Status { code, reason } => "HTTP "@ + decimal(code as nat) + ": "@
            + reason,
        RelayErrorView::BodyRead(message) => "Error leyendo respuesta: "@ + message,
    }
}

/// The canonical reason phrase of the HTTP status `code`, where the status
/// registry of the `http` crate names one.
pub uninterp spec fn canonical_reason_phrase(code: u16) -> Option<Seq<char>>;

/// Asks the `http` crate for the reason phrase of `code`:
/// `StatusCode::from_u16` followed by `StatusCode::canonical_reason`.
///
/// Trusted: the result is the crate's phrase for the code, which depends on
/// the code alone. A code that `from_u16` refuses has none.
#[verifier::external_body]
fn canonical_reason(code: u16) -> (phrase: Option<String>)
    ensures
        phrase matches Some(text) ==> canonical_reason_phrase(code) == Some(text@),
        phrase is None ==> canonical_reason_phrase(code) is None,
{
    match http::StatusCode::from_u16(code) {
        Ok(status) => status.canonical_reason().map(str::to_owned),
        Err(_) => None,
    }
}

/// The bearer authorization is sent exactly for a token that is not empty:
/// then the headers hold `Authorization: Bearer <token>`, after the two fixed
/// ones; without a token, or with an empty one, no header of that name is
/// sent.
pub proof fn law_authorization(token: Option<Seq<char>>)
    ensures
        request_headers(token).len() >= 2,
        request_headers(token)[0] == ("Content-Type"@, "application/json"@),
        request_headers(token)[1] == ("User-Agent"@, "SystemMonitor/1.0"@),
        token is Some && token->0.len() > 0 ==> request_headers(token).len() == 3
            && request_headers(token)[2] == ("Authorization"@, "Bearer "@ + token->0),
        (token is None || token->0.len() == 0) ==> forall|i: int|
            0 <= i < request_headers(token).len() ==> (#[trigger] request_headers(token)[i]).0
                != "Authorization"@,
{
    reveal_strlit("Content-Type");
    reveal_strlit("User-Agent");
    reveal_strlit("Authorization");
    assert("Content-Type"@[0] != "Authorization"@[0]);
    assert("User-Agent"@[0] != "Authorization"@[0]);
}

/// Builds the relay request: a POST to `endpoint` with `payload` as its
/// body, the two fixed headers, and the bearer authorization where `token`
/// holds a token that is not empty.
pub fn build_request(endpoint: String, payload: String, token: Option<String>) -> (request:
    Request)
    ensures
        request.deep_view() == request_view(endpoint@, payload@, optional_text(token)),
{
    let ghost token_view = optional_text(token);
    let mut headers: Vec<Header> = Vec::new();
    headers.push(Header { name: "Content-Type".to_owned(), value: "application/json".to_owned() });
    headers.push(Header { name: "User-Agent".to_owned(), value: "SystemMonitor/1.0".to_owned() });
    match token {
        Some(secret) => {
            if !secret.as_str().is_empty() {
                let mut value = "Bearer ".to_owned();
                value.append(secret.as_str());
                headers.push(Header { name: "Authorization".to_owned(), value });
            }
        },
        None => {},
    }
    assert(headers.deep_view() =~= request_headers(token_view));
    Request { method: Method::Post, url: endpoint, headers, body: payload }
}

/// Decides on a status whose reason phrase is `phrase`.
pub fn after_status_with(code: u16, phrase: Option<String>) -> (next: AfterStatus)
    ensures
        next@ == status_decision(code, optional_text(phrase)),
{
    if 200 <= code && code < 300 {
        AfterStatus::ReadBody
    } else {
        let reason = match phrase {
            Some(text) => text,
            None => "Unknown".to_owned(),
        };
        AfterStatus::Fail(RelayError::Status { code, reason })
    }
}

/// Decides on the status of a response: a success asks for the body, any
/// other status fails with its code and its canonical reason phrase.
pub fn after_status(code: u16) -> (next: AfterStatus)
    ensures
        next@ == status_decision(code, canonical_reason_phrase(code)),
{
    after_status_with(code, canonical_reason(code))
}

/// Ends the exchange on what reading the body gave: the body as it is, or
/// the failure to read it.
pub fn after_body(read: Result<String, String>) -> (result: Result<String, RelayError>)
    ensures
        match read {
            Ok(body) => result matches Ok(text) && text@ == body@,
            Err(message) => result matches Err(error) && error@ == RelayErrorView::BodyRead(
                message@,
            ),
        },
{
    match read {
        Ok(body) => Ok(body),
        Err(message) => Err(RelayError::BodyRead(message)),
    }
}

impl RelayError {
    /// The text of the error, as it is handed to the caller.
    pub fn message(&self) -> (text: String)
        ensures
            text@ == message_of(self@),
    {
        match self {
            RelayError::Transport(message) => {
                let mut text = "Error en petición: ".to_owned();
                text.append(message.as_str());
                text
            },
            RelayError::Status { code, reason } => {
                let mut text = "HTTP ".to_owned();
                let number = to_decimal(*code);
                text.append(number.as_str());
                text.append(": ");
                text.append(reason.as_str());
                text
            },
            RelayError::BodyRead(message) => {
                let mut text = "Error leyendo respuesta: ".to_owned();
                text.append(message.as_str());
                text
            },
        }
    }
}

} // verus!
