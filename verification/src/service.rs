//! The query service: one listing per level of the hierarchy, and the
//! handler that answers a request from its raw parameters.
//!
//! A request that fails validation is answered without the store being
//! asked. A request that passes is answered with what the store returned,
//! or, where the store failed, with an envelope that says so.

use vstd::prelude::*;
use crate::envelope;
use crate::envelope::{item_views, Item, ItemView, ResultView, OK_MESSAGE};
use crate::request::{validate, validate_spec, Level, Params, ParamsView, Rejection};
use crate::store::{
    area_select, binds_for, city_select, fetch, new_connection, province_select, select_for,
    sql_for, street_select, village_select, Select, SelectView, StoreError,
};

verus! {

/// The status of an answer to a request that was understood, accepted or not.
pub const STATUS_OK: u16 = 200;

/// The status of an answer to a request that the store could not serve.
pub const STATUS_FAILURE: u16 = 500;

/// The message of an answer to a request that the store could not serve.
pub const FAILURE_MESSAGE: &'static str = "internal server error!";

/// The answer to a request: a status and the envelope.
#[derive(Debug, PartialEq, Eq)]
pub struct Reply {
    pub status: u16,
    pub body: envelope::Result,
}

/// What a contract says of a [`Reply`].
pub struct ReplyView {
    pub status: u16,
    pub body: ResultView,
}

impl View for Reply {
    type V = ReplyView;

    open spec fn view(&self) -> ReplyView {
        ReplyView { status: self.status, body: self.body@ }
    }
}

/// The answer to a request that fails validation: understood, with the
/// message of the rejection and no data.
pub open spec fn rejection_reply(rejection: Rejection) -> ReplyView {
    ReplyView {
        status: STATUS_OK,
        body: ResultView { message: rejection.message_spec(), data: Seq::empty() },
    }
}

/// The answer to a request that the store could not serve.
pub open spec fn failure_reply() -> ReplyView {
    ReplyView {
        status: STATUS_FAILURE,
        body: ResultView { message: FAILURE_MESSAGE@, data: Seq::empty() },
    }
}

/// The answer to a request that passes validation, given what the store
/// returned: the regions found under the message `ok`, or the failure.
pub open spec fn outcome_reply(outcome: Result<Seq<ItemView>, StoreError>) -> ReplyView {
    match outcome {
        Ok(items) => ReplyView {
            status: STATUS_OK,
            body: ResultView { message: OK_MESSAGE@, data: items },
        },
        Err(_) => failure_reply(),
    }
}

/// What a contract says of what the store returned.
pub open spec fn outcome_view(outcome: Result<Vec<Item>, StoreError>) -> Result<
    Seq<ItemView>,
    StoreError,
> {
    match outcome {
        Ok(items) => Ok(item_views(items@)),
        Err(error) => Err(error),
    }
}

/// What a request asks of the store: nothing where validation rejects it,
/// else the statement for its level and its validated parameters.
pub open spec fn plan_spec(level: Level, params: ParamsView) -> Result<SelectView, Rejection> {
    match validate_spec(level, params) {
        Err(rejection) => Err(rejection),
        Ok(query) => Ok(SelectView { sql: sql_for(level), binds: binds_for(level, query) }),
    }
}

/// The answer to a request, given what the store returns if it is asked.
pub open spec fn answer_spec(
    level: Level,
    params: ParamsView,
    outcome: Result<Seq<ItemView>, StoreError>,
) -> ReplyView {
    match validate_spec(level, params) {
        Err(rejection) => rejection_reply(rejection),
        Ok(_) => outcome_reply(outcome),
    }
}

/// Answers a request that fails validation.
pub fn reply_to_rejection(rejection: Rejection) -> (reply: Reply)
    ensures
        reply@ == rejection_reply(rejection),
        reply.body.data@.len() == 0,
{
    Reply { status: STATUS_OK, body: envelope::Result::failure(rejection.message()) }
}

/// Answers a request that passes validation with what the store returned.
pub fn reply_to_outcome(outcome: Result<Vec<Item>, StoreError>) -> (reply: Reply)
    ensures
        reply@ == outcome_reply(outcome_view(outcome)),
{
    match outcome {
        Ok(items) => Reply { status: STATUS_OK, body: envelope::Result::ok(items) },
        Err(_) => Reply {
            status: STATUS_FAILURE,
            body: envelope::Result::failure(FAILURE_MESSAGE),
        },
    }
}

/// Decides what a request asks of the store: validates its parameters and,
/// where they pass, builds the statement for its level.
pub fn plan(level: Level, params: &Params) -> (outcome: Result<Select, Rejection>)
    ensures
        match outcome {
            Ok(select) => plan_spec(level, params@) == Ok::<SelectView, Rejection>(select@),
            Err(rejection) => plan_spec(level, params@) == Err::<SelectView, Rejection>(rejection),
        },
{
    match validate(level, params) {
        Ok(query) => Ok(select_for(level, &query)),
        Err(rejection) => Err(rejection),
    }
}

/// Runs a statement and wraps the regions of its answer in the envelope.
///
/// What comes back depends on the database: the listing succeeds with every
/// region that the store returned, in its order, or fails where the store
/// failed.
pub fn list(connection: &sqlite::Connection, select: &Select) -> (outcome: Result<
    envelope::Result,
    StoreError,
>)
    ensures
        outcome matches Ok(found) ==> found.message@ == OK_MESSAGE@,
        outcome matches Err(error) ==> error == StoreError::Query,
{
    match fetch(connection, select) {
        Ok(items) => Ok(envelope::Result::ok(items)),
        Err(error) => Err(error),
    }
}

/// Lists all provinces, ordered by code: runs the statement of
/// [`province_select`].
pub fn province_list(connection: &sqlite::Connection) -> (outcome: Result<
    envelope::Result,
    StoreError,
>)
    ensures
        outcome matches Ok(found) ==> found.message@ == OK_MESSAGE@,
        outcome matches Err(error) ==> error == StoreError::Query,
{
    list(connection, &province_select())
}

/// Lists one page of the cities of a province, ordered by code: runs the
/// statement of [`city_select`].
pub fn city_list(connection: &sqlite::Connection, province: i64, page: i64, per_page: i64) -> (outcome:
    Result<envelope::Result, StoreError>)
    ensures
        outcome matches Ok(found) ==> found.message@ == OK_MESSAGE@,
        outcome matches Err(error) ==> error == StoreError::Query,
{
    list(connection, &city_select(province, page, per_page))
}

/// Lists one page of the areas of a city, ordered by code: runs the
/// statement of [`area_select`].
pub fn area_list(
    connection: &sqlite::Connection,
    province: i64,
    city: i64,
    page: i64,
    per_page: i64,
) -> (outcome: Result<envelope::Result, StoreError>)
    ensures
        outcome matches Ok(found) ==> found.message@ == OK_MESSAGE@,
        outcome matches Err(error) ==> error == StoreError::Query,
{
    list(connection, &area_select(province, city, page, per_page))
}

/// Lists one page of the streets of an area, ordered by code: runs the
/// statement of [`street_select`].
pub fn street_list(
    connection: &sqlite::Connection,
    province: i64,
    city: i64,
    area: i64,
    page: i64,
    per_page: i64,
) -> (outcome: Result<envelope::Result, StoreError>)
    ensures
        outcome matches Ok(found) ==> found.message@ == OK_MESSAGE@,
        outcome matches Err(error) ==> error == StoreError::Query,
{
    list(connection, &street_select(province, city, area, page, per_page))
}

/// Lists one page of the villages of a street, ordered by code: runs the
/// statement of [`village_select`].
pub fn village_list(
    connection: &sqlite::Connection,
    province: i64,
    city: i64,
    area: i64,
    street: i64,
    page: i64,
    per_page: i64,
) -> (outcome: Result<envelope::Result, StoreError>)
    ensures
        outcome matches Ok(found) ==> found.message@ == OK_MESSAGE@,
        outcome matches Err(error) ==> error == StoreError::Query,
{
    list(connection, &village_select(province, city, area, street, page, per_page))
}

/// `reply` answers a request for the children at `level`.
///
/// A request that fails validation has one answer, the reply of its
/// rejection, with no data. A request that passes is answered with the
/// reply to something that the store may return: the regions found under
/// the message `ok`, or the failure.
pub open spec fn answers(level: Level, params: ParamsView, reply: Reply) -> bool {
    &&& exists|outcome: Result<Seq<ItemView>, StoreError>|
        reply@ == #[trigger] answer_spec(level, params, outcome)
    &&& validate_spec(level, params) matches Err(rejection) ==> reply@ == rejection_reply(
        rejection,
    ) && reply.body.data@.len() == 0
    &&& validate_spec(level, params) is Ok ==> reply@ == failure_reply() || (reply.status
        == STATUS_OK && reply.body.message@ == OK_MESSAGE@)
}

/// Where a request that passes validation is asked of the store: on a
/// connection that is open, or at a path, where the database is opened
/// for it.
enum Source<'a> {
    Open(&'a sqlite::Connection),
    At(&'a str),
}

/// Answers a request from its raw parameters. The store is reached for a
/// request that passes validation, and only then.
fn answer(source: Source<'_>, level: Level, params: &Params) -> (reply: Reply)
    ensures
        answers(level, params@, reply),
{
    match plan(level, params) {
        Err(rejection) => {
            let reply = reply_to_rejection(rejection);
            proof {
                let outcome = Err::<Seq<ItemView>, StoreError>(StoreError::Query);
                assert(reply@ == answer_spec(level, params@, outcome));
            }
            reply
        },
        Ok(select) => {
            let outcome = match source {
                Source::Open(connection) => fetch(connection, &select),
                Source::At(path) => match new_connection(path) {
                    Ok(connection) => fetch(&connection, &select),
                    Err(error) => Err(error),
                },
            };
            let ghost seen = outcome_view(outcome);
            let reply = reply_to_outcome(outcome);
            proof {
                assert(reply@ == answer_spec(level, params@, seen));
            }
            reply
        },
    }
}

/// Answers a request for the children at `level` from its raw parameters,
/// on an open connection.
///
/// A request that fails validation gets the reply of its rejection, and the
/// store is not asked. A request that passes gets the reply to whatever
/// the store returned for the statement of [`plan`].
pub fn handle_list(connection: &sqlite::Connection, level: Level, params: &Params) -> (reply: Reply)
    ensures
        answers(level, params@, reply),
{
    answer(Source::Open(connection), level, params)
}

/// Answers a request for the children at `level` against the database at
/// `path`.
///
/// The database is opened for a request that passes validation, and only
/// then: a request that fails validation gets the reply of its rejection
/// whether or not there is a database. Where the database cannot be opened
/// the reply is that of a store that failed.
pub fn handle_list_at(path: &str, level: Level, params: &Params) -> (reply: Reply)
    ensures
        answers(level, params@, reply),
{
    answer(Source::At(path), level, params)
}

} // verus!
