//! Responses: a status line with its headers, then the content.

use vstd::prelude::*;

verus! {

/// Status line of a success, whose content is JSON.
pub const OK_JSON: &'static str = "HTTP/1.1 200 OK\r\nContent-Type: application/json\r\n\r\n";

/// Status line of a request that names no user or no handler.
pub const NOT_FOUND: &'static str = "HTTP/1.1 404 NOT FOUND\r\n\r\n";

/// Status line of a request whose id or body cannot be read.
pub const BAD_REQUEST: &'static str = "HTTP/1.1 400 BAD REQUEST\r\n\r\n";

/// Status line of a failure of the database.
pub const SERVER_ERROR: &'static str = "HTTP/1.1 500 INTERNAL SERVER ERROR\r\n\r\n";

/// A response: the status line, with the blank line that ends the head, and
/// the content.
#[derive(Clone, Debug)]
pub struct Response {
    pub status_line: String,
    pub content: String,
}

impl Response {
    /// Whether this response has the status line `status` and the content
    /// `content`.
    pub open spec fn is(self, status: Seq<char>, content: Seq<char>) -> bool {
        self.status_line@ == status && self.content@ == content
    }

    /// A response with this status line and content.
    pub fn new(status_line: &str, content: String) -> (r: Response)
        ensures
            r.status_line@ == status_line@,
            r.content@ == content@,
    {
        Response { status_line: String::from_str(status_line), content }
    }

    /// The text sent back: the status line, then the content.
    pub fn to_text(&self) -> (r: String)
        ensures
            r@ == self.status_line@ + self.content@,
    {
        let mut r = self.status_line.clone();
        r.append(self.content.as_str());
        r
    }
}

} // verus!
