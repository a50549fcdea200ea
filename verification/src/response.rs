//! Responses: their parts, the fixed replies, and the text that goes over the
//! wire.

use crate::number::{decimal, push_decimal};
use vstd::prelude::*;
use vstd::string::StringExecFns;
use vstd::utf8::encode_utf8;

verus! {

/// The status of a response.
#[derive(Clone, Copy, Debug, PartialEq, Eq)]
pub enum Status {
    Success,
    BadRequest,
    NotFound,
    ServerError,
}

/// The kind of content that a response carries.
#[derive(Clone, Copy, Debug, PartialEq, Eq)]
pub enum ContentType {
    Json,
    Html,
}

/// The status line for a status.
pub open spec fn status_line(status: Status) -> Seq<char> {
    match status {
        Status::Success => "HTTP/1.1 200 OK"@,
        Status::BadRequest => "HTTP/1.1 400 BAD REQUEST"@,
        Status::NotFound => "HTTP/1.1 404 NOT FOUND"@,
        Status::ServerError => "HTTP/1.1 500 INTERNAL SERVER ERROR"@,
    }
}

/// The name of a content type.
pub open spec fn media_type(content_type: ContentType) -> Seq<char> {
    match content_type {
        ContentType::Json => "application/json"@,
        ContentType::Html => "text/html"@,
    }
}

impl Status {
    /// The status line that announces this status.
    pub fn line(&self) -> (text: &'static str)
        ensures
            text@ == status_line(*self),
    {
        match self {
            Status::Success => "HTTP/1.1 200 OK",
            Status::BadRequest => "HTTP/1.1 400 BAD REQUEST",
            Status::NotFound => "HTTP/1.1 404 NOT FOUND",
            Status::ServerError => "HTTP/1.1 500 INTERNAL SERVER ERROR",
        }
    }
}

impl ContentType {
    /// The name of this content type, as the header gives it.
    pub fn name(&self) -> (text: &'static str)
        ensures
            text@ == media_type(*self),
    {
        match self {
            ContentType::Json => "application/json",
            ContentType::Html => "text/html",
        }
    }
}

/// One response.
pub struct Response {
    pub status: Status,
    pub content_type: ContentType,
    pub contents: String,
}

/// A response as contracts see it: its contents as a sequence of characters.
pub struct ResponseView {
    pub status: Status,
    pub content_type: ContentType,
    pub contents: Seq<char>,
}

impl View for Response {
    type V = ResponseView;

    open spec fn view(&self) -> ResponseView {
        ResponseView {
            status: self.status,
            content_type: self.content_type,
            contents: self.contents@,
        }
    }
}

/// The text of a response on the wire: the status line, the header that
/// admits every origin, the content type, the length of the body in bytes,
/// a blank line, and the body.
pub open spec fn wire(status: Seq<char>, body: Seq<char>, content_type: Seq<char>) -> Seq<char> {
    status + "\r\nAccess-Control-Allow-Origin: *\r\nContent-Type: "@ + content_type
        + "\r\nContent-Length: "@ + decimal(encode_utf8(body).len()) + "\r\n\r\n"@ + body
}

/// Writes a response as it goes over the wire.
pub fn build_response(status: &str, body: &str, content_type: &str) -> (response: String)
    ensures
        response@ == wire(status@, body@, content_type@),
{
    let mut response = status.to_owned();
    response.append("\r\nAccess-Control-Allow-Origin: *\r\nContent-Type: ");
    response.append(content_type);
    response.append("\r\nContent-Length: ");
    push_decimal(&mut response, body.as_bytes().len());
    response.append("\r\n\r\n");
    response.append(body);
    response
}

impl Response {
    /// The text of this response on the wire.
    pub fn to_wire(&self) -> (text: String)
        ensures
            text@ == wire(status_line(self.status), self.contents@, media_type(self.content_type)),
    {
        build_response(self.status.line(), self.contents.as_str(), self.content_type.name())
    }
}

/// The reply to a request line with fewer than three words.
pub open spec fn malformed_reply() -> ResponseView {
    ResponseView {
        status: Status::BadRequest,
        content_type: ContentType::Html,
        contents: "400 BAD REQUEST"@,
    }
}

/// The reply to a path that is no route.
pub open spec fn not_found_reply() -> ResponseView {
    ResponseView {
        status: Status::NotFound,
        content_type: ContentType::Html,
        contents: "<html><body>404 NOT FOUND</body></html>"@,
    }
}

/// The reply when the store fails to list the exercises.
pub open spec fn store_failure_reply() -> ResponseView {
    ResponseView {
        status: Status::ServerError,
        content_type: ContentType::Html,
        contents: "<html><body>500 INTERNAL SERVER ERROR</body></html>"@,
    }
}

/// The reply when the JSON of the exercises did not fit into the encoder's
/// buffer.
pub open spec fn overflow_reply() -> ResponseView {
    ResponseView {
        status: Status::ServerError,
        content_type: ContentType::Html,
        contents: "<html><body>500 INTERNAL SERVER ERROR</body></html>"@,
    }
}

/// The reply to a request for exercises that names no user.
pub open spec fn missing_user_page() -> ResponseView {
    ResponseView {
        status: Status::BadRequest,
        content_type: ContentType::Html,
        contents: "<html><body>400 BAD REQUEST: Invalid or missing userid</body></html>"@,
    }
}

/// The text that tells a workout's sender that no user was named.
pub open spec fn missing_user_message() -> Seq<char> {
    "Invalid or missing userid"@
}

/// The reply that refuses a workout, with the reason.
pub open spec fn refusal_reply(message: Seq<char>) -> ResponseView {
    ResponseView {
        status: Status::BadRequest,
        content_type: ContentType::Json,
        contents: "{\"error\": \""@ + message + "\", \"success\": false}"@,
    }
}

/// The reply that accepts a workout.
pub open spec fn accepted_reply(user_id: u32) -> ResponseView {
    ResponseView {
        status: Status::Success,
        content_type: ContentType::Json,
        contents: "{\"user_id\": "@ + decimal(user_id as nat) + ", \"success\": true}"@,
    }
}

/// The reply that carries a user's exercises as JSON.
pub open spec fn exercises_reply(json: Seq<char>) -> ResponseView {
    ResponseView { status: Status::Success, content_type: ContentType::Json, contents: json }
}

/// Makes the reply to a request line with fewer than three words.
pub fn malformed() -> (r: Response)
    ensures
        r@ == malformed_reply(),
{
    Response {
        status: Status::BadRequest,
        content_type: ContentType::Html,
        contents: "400 BAD REQUEST".to_owned(),
    }
}

/// Makes the reply to a path that is no route.
pub fn not_found() -> (r: Response)
    ensures
        r@ == not_found_reply(),
{
    Response {
        status: Status::NotFound,
        content_type: ContentType::Html,
        contents: "<html><body>404 NOT FOUND</body></html>".to_owned(),
    }
}

/// Makes the reply for a store that failed to list the exercises.
pub fn store_failure() -> (r: Response)
    ensures
        r@ == store_failure_reply(),
{
    Response {
        status: Status::ServerError,
        content_type: ContentType::Html,
        contents: "<html><body>500 INTERNAL SERVER ERROR</body></html>".to_owned(),
    }
}

/// Makes the reply for exercises whose JSON did not fit into the encoder's
/// buffer.
pub fn overflow() -> (r: Response)
    ensures
        r@ == overflow_reply(),
{
    Response {
        status: Status::ServerError,
        content_type: ContentType::Html,
        contents: "<html><body>500 INTERNAL SERVER ERROR</body></html>".to_owned(),
    }
}

/// Makes the reply to a request for exercises that names no user.
pub fn missing_user() -> (r: Response)
    ensures
        r@ == missing_user_page(),
{
    Response {
        status: Status::BadRequest,
        content_type: ContentType::Html,
        contents: "<html><body>400 BAD REQUEST: Invalid or missing userid</body></html>".to_owned(),
    }
}

/// Makes the reply that refuses a workout for the reason in `message`. The
/// message is put between the quotes as it is.
pub fn refusal(message: &str) -> (r: Response)
    ensures
        r@ == refusal_reply(message@),
{
    let mut contents = "{\"error\": \"".to_owned();
    contents.append(message);
    contents.append("\", \"success\": false}");
    Response { status: Status::BadRequest, content_type: ContentType::Json, contents }
}

/// Makes the reply that accepts a workout of the user `user_id`.
pub fn accepted(user_id: u32) -> (r: Response)
    ensures
        r@ == accepted_reply(user_id),
{
    let mut contents = "{\"user_id\": ".to_owned();
    push_decimal(&mut contents, user_id as usize);
    contents.append(", \"success\": true}");
    Response { status: Status::Success, content_type: ContentType::Json, contents }
}

/// Makes the reply that carries a user's exercises as the JSON text `json`.
pub fn exercises(json: String) -> (r: Response)
    ensures
        r@ == exercises_reply(json@),
{
    Response { status: Status::Success, content_type: ContentType::Json, contents: json }
}

} // verus!
