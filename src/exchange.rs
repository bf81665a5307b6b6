//! The handlers' decisions, one request at a time. The caller starts with
//! `start`; where the step asks for the body to be decoded it decodes it as a
//! new user and goes on with `after_decode`; where the step is a command it
//! runs the command against the table and ends with `finish`. A `Reply` step
//! is the response to send.

use vstd::prelude::*;
use crate::id::{id_error_message, parse_id, parse_id_spec};
use crate::json::{json_string, json_string_of, new_user_json, user_json, users_json, users_to_json};
use crate::request::{
    body_of, get_id, id_of, query_id, query_id_of, request_body, route, route_of, Route,
};
use crate::response::{Response, BAD_REQUEST, NOT_FOUND, OK_JSON, SERVER_ERROR};
use crate::text::{decimal, decimal_text};
use crate::user::{NewUser, User};

verus! {

/// One statement against the `users` table.
#[derive(Clone, Debug)]
pub enum Command {
    /// Select the user with this id.
    FetchOne(i32),
    /// Select every user.
    FetchAll,
    /// Insert a user.
    Insert(NewUser),
    /// Set the name and email of the user with this id.
    Update(i32, NewUser),
    /// Delete the user with this id.
    Remove(i32),
}

/// What came of a command.
#[derive(Clone, Debug)]
pub enum Outcome {
    /// The one row that the lookup found.
    Row(User),
    /// The lookup did not give exactly one row, or failed.
    NoRow,
    /// Every row, in the order the table gave them.
    Rows(Vec<User>),
    /// The statement ran and changed this many rows.
    Written(u64),
    /// The statement failed, with the driver's message.
    Failed(String),
}

/// What to do next with a request.
#[derive(Clone, Debug)]
pub enum Step {
    /// Send this response; the request is done.
    Reply(Response),
    /// Decode this body as a new user, then go on with `after_decode`.
    Decode(String),
    /// Run this command, then end with `finish`.
    Run(Command),
}

/// Whether an outcome is of a kind that the command can have.
pub open spec fn fits(command: Command, outcome: Outcome) -> bool {
    match command {
        Command::FetchOne(_) => outcome is Row || outcome is NoRow,
        Command::FetchAll => outcome is Rows,
        Command::Insert(_) | Command::Update(_, _) => outcome is Written || outcome is Failed,
        Command::Remove(_) => outcome is Written,
    }
}

/// Whether the step sends the response with this status line and content.
pub open spec fn replies(s: Step, status: Seq<char>, content: Seq<char>) -> bool {
    s matches Step::Reply(r) && r.is(status, content)
}

/// The content of the answer to an id that cannot be read.
pub open spec fn invalid_id(id: Seq<char>) -> Seq<char> {
    "Invalid ID: "@ + id
}

/// The content of the answer to a user that is not there.
pub open spec fn no_such_user(id: Seq<char>) -> Seq<char> {
    "User with ID "@ + id + " not found"@
}

/// The first step for a request.
pub open spec fn start_spec(req: Seq<char>, s: Step) -> bool {
    let id = id_of(req);
    match route_of(req) {
        Route::GetOne => match parse_id_spec(id) {
            Ok(n) => s == Step::Run(Command::FetchOne(n)),
            Err(_) => replies(s, BAD_REQUEST@, invalid_id(id)),
        },
        Route::Delete => match parse_id_spec(query_id_of(req)) {
            Ok(n) => s == Step::Run(Command::Remove(n)),
            Err(_) => replies(s, BAD_REQUEST@, invalid_id(query_id_of(req))),
        },
        Route::GetAll => s == Step::Run(Command::FetchAll),
        Route::Create | Route::Update => s matches Step::Decode(b) && b@ == body_of(req),
        Route::Unknown => replies(s, NOT_FOUND@, "404 Not Found"@),
    }
}

/// The step once the body of a create or update request was decoded.
pub open spec fn after_decode_spec(req: Seq<char>, decoded: Option<NewUser>, s: Step) -> bool {
    match decoded {
        None => replies(s, BAD_REQUEST@, "Invalid request body"@),
        Some(u) => if route_of(req) == Route::Create {
            s == Step::Run(Command::Insert(u))
        } else {
            match parse_id_spec(query_id_of(req)) {
                Ok(n) => s == Step::Run(Command::Update(n, u)),
                Err(e) => replies(
                    s,
                    BAD_REQUEST@,
                    invalid_id(query_id_of(req)) + ". Error: "@ + id_error_message(e),
                ),
            }
        },
    }
}

/// The status line and content of the answer once a command has run, for an
/// outcome that fits the command.
pub open spec fn answer(req: Seq<char>, command: Command, outcome: Outcome) -> (Seq<char>, Seq<
    char,
>) {
    match command {
        Command::FetchOne(_) => match outcome {
            Outcome::Row(u) => (OK_JSON@, user_json(u)),
            _ => (NOT_FOUND@, no_such_user(id_of(req))),
        },
        Command::FetchAll => match outcome {
            Outcome::Rows(us) => (OK_JSON@, users_json(us@)),
            _ => (OK_JSON@, "[]"@),
        },
        Command::Insert(_) => match outcome {
            Outcome::Failed(_) => (SERVER_ERROR@, "Failed to insert user into database"@),
            _ => (OK_JSON@, body_of(req)),
        },
        Command::Update(_, u) => match outcome {
            Outcome::Failed(m) => (SERVER_ERROR@, "Error updating user: "@ + m@),
            _ => (OK_JSON@, new_user_json(u)),
        },
        Command::Remove(n) => match outcome {
            Outcome::Written(1) => (OK_JSON@, json_string_of(query_id_of(req))),
            _ => (NOT_FOUND@, no_such_user(decimal(n as int))),
        },
    }
}

fn invalid_id_text(id: &str) -> (r: String)
    ensures
        r@ == invalid_id(id@),
{
    let mut r = String::from_str("Invalid ID: ");
    r.append(id);
    r
}

fn no_such_user_text(id: &str) -> (r: String)
    ensures
        r@ == no_such_user(id@),
{
    let mut r = String::from_str("User with ID ");
    r.append(id);
    r.append(" not found");
    r
}

/// Decides what to do first with a request.
pub fn start(request: &str) -> (s: Step)
    ensures
        start_spec(request@, s),
{
    match route(request) {
        Route::GetOne => {
            let id = get_id(request);
            match parse_id(id) {
                Ok(n) => Step::Run(Command::FetchOne(n)),
                Err(_) => Step::Reply(Response::new(BAD_REQUEST, invalid_id_text(id))),
            }
        },
        Route::Delete => {
            let id = query_id(request);
            match parse_id(id) {
                Ok(n) => Step::Run(Command::Remove(n)),
                Err(_) => Step::Reply(Response::new(BAD_REQUEST, invalid_id_text(id))),
            }
        },
        Route::GetAll => Step::Run(Command::FetchAll),
        Route::Create | Route::Update => Step::Decode(request_body(request).to_owned()),
        Route::Unknown => Step::Reply(Response::new(NOT_FOUND, String::from_str("404 Not Found"))),
    }
}

/// Decides what to do with a create or update request once its body was
/// decoded as a new user (`None` where it could not be).
pub fn after_decode(request: &str, decoded: Option<NewUser>) -> (s: Step)
    requires
        route_of(request@) == Route::Create || route_of(request@) == Route::Update,
    ensures
        after_decode_spec(request@, decoded, s),
{
    match decoded {
        None => Step::Reply(
            Response::new(BAD_REQUEST, String::from_str("Invalid request body")),
        ),
        Some(u) => {
            if let Route::Create = route(request) {
                Step::Run(Command::Insert(u))
            } else {
                let id = query_id(request);
                match parse_id(id) {
                    Ok(n) => Step::Run(Command::Update(n, u)),
                    Err(e) => {
                        let mut c = invalid_id_text(id);
                        c.append(". Error: ");
                        c.append(e.message());
                        Step::Reply(Response::new(BAD_REQUEST, c))
                    },
                }
            }
        },
    }
}

/// The response to a request once its command has run.
pub fn finish(request: &str, command: &Command, outcome: Outcome) -> (r: Response)
    requires
        fits(*command, outcome),
    ensures
        (r.status_line@, r.content@) == answer(request@, *command, outcome),
{
    match command {
        Command::FetchOne(_) => match outcome {
            Outcome::Row(u) => Response::new(OK_JSON, u.to_json()),
            _ => Response::new(NOT_FOUND, no_such_user_text(get_id(request))),
        },
        Command::FetchAll => match outcome {
            Outcome::Rows(us) => Response::new(OK_JSON, users_to_json(&us)),
            _ => Response::new(OK_JSON, String::from_str("[]")),
        },
        Command::Insert(_) => match outcome {
            Outcome::Failed(_) => Response::new(
                SERVER_ERROR,
                String::from_str("Failed to insert user into database"),
            ),
            _ => Response::new(OK_JSON, request_body(request).to_owned()),
        },
        Command::Update(_, u) => match outcome {
            Outcome::Failed(m) => {
                let mut c = String::from_str("Error updating user: ");
                c.append(m.as_str());
                Response::new(SERVER_ERROR, c)
            },
            _ => Response::new(OK_JSON, u.to_json()),
        },
        Command::Remove(n) => match outcome {
            Outcome::Written(1) => Response::new(OK_JSON, json_string(query_id(request))),
            _ => {
                let d = decimal_text(*n);
                Response::new(NOT_FOUND, no_such_user_text(d.as_str()))
            },
        },
    }
}

} // verus!
