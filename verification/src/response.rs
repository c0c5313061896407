//! The response model and its wire form: status, page, status line and
//! the framed response text.

use vstd::prelude::*;
use vstd::string::StringExecFns;
use vstd::utf8::encode_utf8;
use crate::number::{decimal, decimal_string};
use crate::pages::{is_error_page, Page};

verus! {

/// Where a redirect leads.
#[derive(Debug, PartialEq)]
pub struct Location {
    pub uri: String,
}

#[derive(Debug, PartialEq)]
pub enum Status {
    Okay,
    NotFound,
    MethodNotAllowed,
    Found(Location),
    InternalServerError,
}

#[derive(Debug, PartialEq)]
pub struct Response {
    pub status: Status,
    pub page: Page,
}

/// The status line of each status. A redirect has a second line that
/// names the location; the line of the server error carries no protocol
/// version.
pub open spec fn status_line(status: Status) -> Seq<char> {
    match status {
        Status::Okay => "HTTP/1.1 200 OK"@,
        Status::NotFound => "HTTP/1.1 404 Not found"@,
        Status::MethodNotAllowed => "HTTP/1.1 405 Method Not Allowed"@,
        Status::InternalServerError => "500 Internal Server Error"@,
        Status::Found(location) => "HTTP/1.1 302 Found\nLocation: "@ + location.uri@,
    }
}

/// The headers that every response carries between its status line and
/// the length of its body.
pub open spec fn fixed_headers() -> Seq<char> {
    "\r\nAccess-Control-Allow-Origin: https://my-cool-site.com\r\nAccess-Control-Allow-Methods: GET, POST, OPTIONS\r\nContent-Length: "@
}

/// The response as it goes over the wire: status line, the fixed headers,
/// the body's length in bytes, a blank line, the body.
pub open spec fn response_text(status_line: Seq<char>, contents: Seq<char>) -> Seq<char> {
    status_line + fixed_headers() + decimal(encode_utf8(contents).len()) + "\r\n\r\n"@ + contents
}

impl Response {
    /// The reply to a method that the handler does not take.
    pub fn method_not_allowed() -> (r: Response)
        ensures
            r.status is MethodNotAllowed,
            is_error_page(r.page, "Method not allowed"@, "Method not allowed"@),
    {
        Response {
            status: Status::MethodNotAllowed,
            page: Page::Error {
                title: "Method not allowed".to_owned(),
                error_name: "Method not allowed".to_owned(),
            },
        }
    }

    /// The reply to a request that failed, with the reason.
    pub fn internal_server_error(reason: &str) -> (r: Response)
        ensures
            r.status is InternalServerError,
            is_error_page(r.page, "Internal server error"@, reason@),
    {
        Response {
            status: Status::InternalServerError,
            page: Page::Error {
                title: "Internal server error".to_owned(),
                error_name: reason.to_owned(),
            },
        }
    }

    /// The reply of success with this page.
    pub fn ok(page: Page) -> (r: Response)
        ensures
            r.status is Okay,
            r.page == page,
    {
        Response { status: Status::Okay, page }
    }

    /// A redirect to `route`, without content.
    pub fn found(route: &str) -> (r: Response)
        ensures
            r.status matches Status::Found(location) && location.uri@ == route@,
            r.page is Empty,
    {
        let location = Location { uri: route.to_owned() };
        Response { status: Status::Found(location), page: Page::Empty }
    }

    /// The reply to a path that no route matches.
    pub fn not_found() -> (r: Response)
        ensures
            r.status is NotFound,
            is_error_page(r.page, "Not found"@, "Not found"@),
    {
        Response {
            status: Status::NotFound,
            page: Page::Error { title: "Not found".to_owned(), error_name: "Not found".to_owned() },
        }
    }

    /// The status line of this response.
    pub fn get_status_str(&self) -> (line: String)
        ensures
            line@ == status_line(self.status),
    {
        self.status.line()
    }
}

impl Status {
    /// The status line of this status.
    pub fn line(&self) -> (line: String)
        ensures
            line@ == status_line(*self),
    {
        match self {
            Status::Okay => "HTTP/1.1 200 OK".to_owned(),
            Status::NotFound => "HTTP/1.1 404 Not found".to_owned(),
            Status::MethodNotAllowed => "HTTP/1.1 405 Method Not Allowed".to_owned(),
            Status::InternalServerError => "500 Internal Server Error".to_owned(),
            Status::Found(location) => {
                let line = "HTTP/1.1 302 Found\nLocation: ".to_owned();
                line.concat(location.uri.as_str())
            },
        }
    }
}

/// The response text for a status line and a body.
pub fn form_response(status_line: &str, contents: &str) -> (text: String)
    ensures
        text@ == response_text(status_line@, contents@),
{
    let mut text = status_line.to_owned();
    text.append(
        "\r\nAccess-Control-Allow-Origin: https://my-cool-site.com\r\nAccess-Control-Allow-Methods: GET, POST, OPTIONS\r\nContent-Length: ",
    );
    text.append(decimal_string(contents.as_bytes().len() as u64).as_str());
    text.append("\r\n\r\n");
    text.append(contents);
    text
}

} // verus!
