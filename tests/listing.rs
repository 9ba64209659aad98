use user_service::listing::{users_response, ResponseStatus};
use user_service::user::User;

fn user(id: i32, name: &str) -> User {
    User::new(id, name.to_string())
}

#[test]
fn two_rows_are_listed_with_status_ok() {
    let r = users_response(Ok(vec![user(1, "alice"), user(2, "bob")]));
    assert_eq!(r.status, ResponseStatus::Success);
    assert_eq!(r.status.code(), 200);
    let users = r.body.expect("rows listed");
    assert_eq!(users.len(), 2);
    assert_eq!(users[0].id, 1);
    assert_eq!(users[0].username, "alice");
    assert_eq!(users[1].id, 2);
    assert_eq!(users[1].username, "bob");
    assert!(users[0] != users[1]);
}

#[test]
fn empty_table_is_an_empty_list() {
    let r = users_response(Ok(Vec::new()));
    assert_eq!(r.status.code(), 200);
    assert_eq!(r.body.expect("empty list").len(), 0);
}

#[test]
fn failed_query_answers_server_error_with_text() {
    let text = "error returned from database: relation \"users\" does not exist";
    let r = users_response(Err(text.to_string()));
    assert_eq!(r.status, ResponseStatus::InternalServerError);
    assert_eq!(r.status.code(), 500);
    let body = r.body.expect_err("error text");
    assert!(!body.is_empty());
    assert_eq!(body, text);
}

#[test]
fn request_after_failure_succeeds_again() {
    let first = users_response(Err("connection reset".to_string()));
    assert_eq!(first.status.code(), 500);
    let second = users_response(Ok(vec![user(7, "carol")]));
    assert_eq!(second.status.code(), 200);
    let users = second.body.expect("rows listed");
    assert_eq!(users, vec![user(7, "carol")]);
}

#[test]
fn rows_keep_the_order_read() {
    let rows = vec![user(3, "c"), user(1, "a"), user(2, "b")];
    let r = users_response(Ok(rows.clone()));
    assert_eq!(r.body.expect("rows listed"), rows);
}

#[test]
fn users_compare_by_key_and_name() {
    assert!(user(1, "alice") == user(1, "alice"));
    assert!(user(1, "alice") != user(1, "bob"));
    assert!(user(1, "alice") != user(2, "alice"));
}
