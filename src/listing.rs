use vstd::prelude::*;
use crate::user::{records, User, UserRecord};

verus! {

/// The two statuses that the listing endpoint answers with.
#[derive(Debug, Clone, Copy, PartialEq, Eq, Structural)]
pub enum ResponseStatus {
    Success,
    InternalServerError,
}

impl ResponseStatus {
    /// The HTTP status code of this status.
    pub open spec fn spec_code(self) -> u16 {
        match self {
            ResponseStatus::Success => 200,
            ResponseStatus::InternalServerError => 500,
        }
    }

    /// The HTTP status code of this status.
    pub fn code(&self) -> (r: u16)
        ensures
            r == self.spec_code(),
    {
        match self {
            ResponseStatus::Success => 200,
            ResponseStatus::InternalServerError => 500,
        }
    }
}

/// The answer to `GET /users`: a status, and either the users to be sent as
/// a JSON array or the text of the error that the query ran into.
#[derive(Debug)]
pub struct UsersResponse {
    pub status: ResponseStatus,
    pub body: Result<Vec<User>, String>,
}

/// What a response says, over plain values: the status code, and the records
/// listed or the error text.
pub struct ResponseView {
    pub code: u16,
    pub body: Result<Seq<UserRecord>, Seq<char>>,
}

impl View for UsersResponse {
    type V = ResponseView;

    open spec fn view(&self) -> ResponseView {
        ResponseView {
            code: self.status.spec_code(),
            body: match self.body {
                Ok(users) => Ok(records(users@)),
                Err(text) => Err(text@),
            },
        }
    }
}

/// The outcome of the listing query over plain values.
pub open spec fn outcome_view(outcome: Result<Vec<User>, String>) -> Result<Seq<UserRecord>, Seq<char>> {
    match outcome {
        Ok(users) => Ok(records(users@)),
        Err(text) => Err(text@),
    }
}

/// The response owed for a query outcome: every row read, in the order read,
/// with status 200; or the error's text with status 500.
pub open spec fn response_for(outcome: Result<Seq<UserRecord>, Seq<char>>) -> ResponseView {
    match outcome {
        Ok(rows) => ResponseView { code: 200, body: Ok(rows) },
        Err(text) => ResponseView { code: 500, body: Err(text) },
    }
}

/// Turns the outcome of `SELECT id, username FROM users` into the response
/// of `GET /users`. A successful query lists all of its rows with status 200,
/// an empty table included; a failed one answers 500 with the error's text.
pub fn users_response(outcome: Result<Vec<User>, String>) -> (r: UsersResponse)
    ensures
        r@ == response_for(outcome_view(outcome)),
        outcome is Ok <==> r.status == ResponseStatus::Success,
        outcome is Err <==> r.status == ResponseStatus::InternalServerError,
{
    match outcome {
        Ok(users) => UsersResponse { status: ResponseStatus::Success, body: Ok(users) },
        Err(text) => UsersResponse { status: ResponseStatus::InternalServerError, body: Err(text) },
    }
}

/// Every row that the query read is listed exactly once, with its key and
/// name, and nothing else is listed; the status is 200.
pub proof fn lemma_every_row_listed(rows: Seq<UserRecord>)
    ensures
        response_for(Ok(rows)).code == 200,
        response_for(Ok(rows)).body is Ok,
        response_for(Ok(rows)).body->Ok_0.to_multiset() =~= rows.to_multiset(),
        response_for(Ok(rows)).body->Ok_0.len() == rows.len(),
        forall|i: int|
            0 <= i < rows.len() ==> #[trigger] response_for(Ok(rows)).body->Ok_0[i] == rows[i],
{
}

/// An empty table is listed as an empty array with status 200, not as an
/// error.
pub proof fn lemma_empty_table_listed_empty()
    ensures
        response_for(Ok(Seq::<UserRecord>::empty())) == (ResponseView {
            code: 200,
            body: Ok(Seq::<UserRecord>::empty()),
        }),
{
}

/// A failed query answers 500 with the error's text as the body, non-empty
/// whenever that text is; and each request is answered from its own query
/// alone, so a later query that succeeds is answered with 200 and its rows
/// whatever failed before.
pub proof fn lemma_failure_then_recovery(text: Seq<char>, rows: Seq<UserRecord>)
    ensures
        response_for(Err(text)).code == 500,
        response_for(Err(text)).body == Err::<Seq<UserRecord>, Seq<char>>(text),
        text.len() > 0 ==> response_for(Err(text)).body->Err_0.len() > 0,
        response_for(Ok(rows)) == (ResponseView { code: 200, body: Ok(rows) }),
{
}

} // verus!
