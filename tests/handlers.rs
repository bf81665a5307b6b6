use user_api::exchange::{after_decode, finish, start, Command, Outcome, Step};
use user_api::json::{json_string, users_to_json};
use user_api::response::{Response, BAD_REQUEST, NOT_FOUND, OK_JSON, SERVER_ERROR};
use user_api::user::{NewUser, User};

fn reply(s: Step) -> Response {
    match s {
        Step::Reply(r) => r,
        other => panic!("expected a reply, got {:?}", other),
    }
}

fn command(s: Step) -> Command {
    match s {
        Step::Run(c) => c,
        other => panic!("expected a command, got {:?}", other),
    }
}

fn ann() -> NewUser {
    NewUser { name: "Ann".to_string(), email: "ann@example.com".to_string() }
}

#[test]
fn json_string_quotes_and_escapes() {
    assert_eq!(json_string("abc"), "\"abc\"");
    assert_eq!(json_string("a\"b\\c\n"), "\"a\\\"b\\\\c\\n\"");
    assert_eq!(json_string(""), "\"\"");
    assert_eq!(json_string("\u{1}\u{8}\t\u{c}\r\u{1f} \u{7f}\u{e9}/"), "\"\\u0001\\b\\t\\f\\r\\u001f \u{7f}\u{e9}/\"");
}

#[test]
fn user_json_objects() {
    let u = User { id: 3, name: "Ann".to_string(), email: "a\"b".to_string() };
    assert_eq!(u.to_json(), "{\"id\":3,\"name\":\"Ann\",\"email\":\"a\\\"b\"}");
    assert_eq!(ann().to_json(), "{\"name\":\"Ann\",\"email\":\"ann@example.com\"}");
    let v = User { id: -4, name: "B".to_string(), email: "b@x".to_string() };
    assert_eq!(users_to_json(&vec![]), "[]");
    assert_eq!(users_to_json(&vec![u.clone()]), format!("[{}]", u.to_json()));
    assert_eq!(
        users_to_json(&vec![u, v]),
        "[{\"id\":3,\"name\":\"Ann\",\"email\":\"a\\\"b\"},{\"id\":-4,\"name\":\"B\",\"email\":\"b@x\"}]"
    );
}

#[test]
fn response_text_joins_status_and_content() {
    let r = Response::new(NOT_FOUND, "404 Not Found".to_string());
    assert_eq!(r.to_text(), "HTTP/1.1 404 NOT FOUND\r\n\r\n404 Not Found");
}

#[test]
fn unknown_path_is_not_found() {
    let r = reply(start("GET /other HTTP/1.1\r\n\r\n"));
    assert_eq!(r.status_line, NOT_FOUND);
    assert_eq!(r.content, "404 Not Found");
}

#[test]
fn get_one_with_valid_id_fetches() {
    assert!(matches!(command(start("GET /users/15 HTTP/1.1\r\n\r\n")), Command::FetchOne(15)));
}

#[test]
fn get_one_with_bad_id_is_bad_request() {
    let r = reply(start("GET /users/abc HTTP/1.1\r\n\r\n"));
    assert_eq!(r.status_line, BAD_REQUEST);
    assert_eq!(r.content, "Invalid ID: abc");
}

#[test]
fn get_one_found_and_missing() {
    let req = "GET /users/15 HTTP/1.1\r\n\r\n";
    let cmd = command(start(req));
    let u = User { id: 15, name: "Ann".to_string(), email: "ann@example.com".to_string() };
    let r = finish(req, &cmd, Outcome::Row(u));
    assert_eq!(r.status_line, OK_JSON);
    assert_eq!(r.content, "{\"id\":15,\"name\":\"Ann\",\"email\":\"ann@example.com\"}");
    let r = finish(req, &cmd, Outcome::NoRow);
    assert_eq!(r.status_line, NOT_FOUND);
    assert_eq!(r.content, "User with ID 15 not found");
}

#[test]
fn get_all_lists_rows() {
    let req = "GET /users HTTP/1.1\r\n\r\n";
    let cmd = command(start(req));
    assert!(matches!(cmd, Command::FetchAll));
    let r = finish(req, &cmd, Outcome::Rows(vec![]));
    assert_eq!(r.status_line, OK_JSON);
    assert_eq!(r.content, "[]");
}

#[test]
fn create_decodes_then_inserts() {
    let req = "POST /users HTTP/1.1\r\nContent-Type: application/json\r\n\r\n{\"name\":\"Ann\",\"email\":\"ann@example.com\"}";
    match start(req) {
        Step::Decode(body) => assert_eq!(body, "{\"name\":\"Ann\",\"email\":\"ann@example.com\"}"),
        other => panic!("expected a decode step, got {:?}", other),
    }
    let cmd = command(after_decode(req, Some(ann())));
    match &cmd {
        Command::Insert(u) => assert_eq!((u.name.as_str(), u.email.as_str()), ("Ann", "ann@example.com")),
        other => panic!("expected an insert, got {:?}", other),
    }
    let r = finish(req, &cmd, Outcome::Written(1));
    assert_eq!(r.status_line, OK_JSON);
    assert_eq!(r.content, "{\"name\":\"Ann\",\"email\":\"ann@example.com\"}");
    let r = finish(req, &cmd, Outcome::Failed("duplicate key".to_string()));
    assert_eq!(r.status_line, SERVER_ERROR);
    assert_eq!(r.content, "Failed to insert user into database");
}

#[test]
fn create_with_bad_body_is_bad_request() {
    let r = reply(after_decode("POST /users HTTP/1.1\r\n\r\nnot json", None));
    assert_eq!(r.status_line, BAD_REQUEST);
    assert_eq!(r.content, "Invalid request body");
}

#[test]
fn update_with_id_in_query() {
    let req = "PUT /users?id=4 HTTP/1.1\r\n\r\n{\"name\":\"Ann\",\"email\":\"ann@example.com\"}";
    assert!(matches!(start(req), Step::Decode(_)));
    let cmd = command(after_decode(req, Some(ann())));
    assert!(matches!(cmd, Command::Update(4, _)));
    let r = finish(req, &cmd, Outcome::Written(1));
    assert_eq!(r.status_line, OK_JSON);
    assert_eq!(r.content, "{\"name\":\"Ann\",\"email\":\"ann@example.com\"}");
    let r = finish(req, &cmd, Outcome::Failed("db down".to_string()));
    assert_eq!(r.status_line, SERVER_ERROR);
    assert_eq!(r.content, "Error updating user: db down");
}

#[test]
fn update_with_bad_id_names_the_error() {
    let r = reply(after_decode("PUT /users?id=4x HTTP/1.1\r\n\r\n{}", Some(ann())));
    assert_eq!(r.status_line, BAD_REQUEST);
    assert_eq!(r.content, "Invalid ID: 4x. Error: invalid digit found in string");
    let r = reply(after_decode("PUT /users/4 HTTP/1.1\r\n\r\n{}", Some(ann())));
    assert_eq!(r.content, "Invalid ID: . Error: cannot parse integer from empty string");
}

#[test]
fn update_with_bad_body_is_checked_first() {
    let r = reply(after_decode("PUT /users?id=x HTTP/1.1\r\n\r\n{", None));
    assert_eq!(r.status_line, BAD_REQUEST);
    assert_eq!(r.content, "Invalid request body");
}

#[test]
fn delete_found_and_missing() {
    let req = "DELETE /users?id=007 HTTP/1.1\r\n\r\n";
    let cmd = command(start(req));
    assert!(matches!(cmd, Command::Remove(7)));
    let r = finish(req, &cmd, Outcome::Written(1));
    assert_eq!(r.status_line, OK_JSON);
    assert_eq!(r.content, "\"007\"");
    let r = finish(req, &cmd, Outcome::Written(0));
    assert_eq!(r.status_line, NOT_FOUND);
    assert_eq!(r.content, "User with ID 7 not found");
}

#[test]
fn delete_with_bad_id_is_bad_request() {
    let r = reply(start("DELETE /users?id=-x HTTP/1.1\r\n\r\n"));
    assert_eq!(r.status_line, BAD_REQUEST);
    assert_eq!(r.content, "Invalid ID: -x");
}
