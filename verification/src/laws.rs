//! What holds of every request, stated over the models that the contracts
//! of the library use and proved from their definitions.

use vstd::prelude::*;
use crate::envelope::{item_of, ItemView};
use crate::number::parse_i64_spec;
use crate::request::{
    examine, first_rejection, validate_spec, Code, Field, Level, ParamsView, Query, Rejection,
};
use crate::service::{answer_spec, outcome_reply, plan_spec, STATUS_OK};
use crate::store::{binds_for, offset_for, SelectView, StoreError, PROVINCE_SQL};

verus! {

/// `text` ends with `suffix`.
pub open spec fn ends_with(text: Seq<char>, suffix: Seq<char>) -> bool {
    text.len() >= suffix.len() && text.skip(text.len() - suffix.len()) =~= suffix
}

/// `text` begins with `prefix`.
pub open spec fn starts_with(text: Seq<char>, prefix: Seq<char>) -> bool {
    text.len() >= prefix.len() && text.take(prefix.len() as int) =~= prefix
}

/// The message of a missing code ends with the words that say so.
proof fn lemma_missing_message(code: Code)
    ensures
        ends_with(Rejection::Missing(code).message_spec(), "code must not be empty!"@),
{
    reveal_strlit("code must not be empty!");
    reveal_strlit("province code must not be empty!");
    reveal_strlit("city code must not be empty!");
    reveal_strlit("area code must not be empty!");
    reveal_strlit("street code must not be empty!");
}

/// The message of a malformed parameter begins with `parse ` and ends with
/// ` error!`.
proof fn lemma_malformed_message(field: Field)
    ensures
        starts_with(Rejection::Malformed(field).message_spec(), "parse "@),
        ends_with(Rejection::Malformed(field).message_spec(), " error!"@),
{
    reveal_strlit("parse ");
    reveal_strlit(" error!");
    reveal_strlit("parse province code error!");
    reveal_strlit("parse city code error!");
    reveal_strlit("parse area code error!");
    reveal_strlit("parse street code error!");
    reveal_strlit("parse page number error!");
    reveal_strlit("parse page size error!");
}

/// A request that omits a parent code which its level requires is answered
/// with a message that ends in `code must not be empty!` and with no data,
/// whatever else it supplies and whatever the store holds, provided that
/// each required code before the omitted one, where it is supplied, is an
/// integer.
pub proof fn law_missing_code_is_reported(
    level: Level,
    params: ParamsView,
    code: Code,
    outcome: Result<Seq<ItemView>, StoreError>,
)
    requires
        level.requires_code(code),
        params.raw(Field::Code(code)) is None,
        forall|earlier: Code|
            earlier.rank() < code.rank() && (#[trigger] params.raw(Field::Code(earlier))) is Some
                ==> parse_i64_spec(params.raw(Field::Code(earlier))->0) is Some,
    ensures
        validate_spec(level, params) matches Err(Rejection::Missing(_)),
        answer_spec(level, params, outcome).status == STATUS_OK,
        ends_with(answer_spec(level, params, outcome).body.message, "code must not be empty!"@),
        answer_spec(level, params, outcome).body.data == Seq::<ItemView>::empty(),
{
    assert(examine(level, params, Field::Code(code)) == Some(Rejection::Missing(code)));
    assert(first_rejection(level, params) matches Some(Rejection::Missing(_)));
    match first_rejection(level, params) {
        Some(Rejection::Missing(missing)) => {
            lemma_missing_message(missing);
        },
        _ => {},
    }
}

/// A request that supplies, for a parameter which its level reads, a text
/// that is no integer is answered with a message that begins with `parse `
/// and ends in ` error!` and with no data, whatever the store holds,
/// provided that every required code examined before that parameter is
/// supplied.
pub proof fn law_malformed_parameter_is_reported(
    level: Level,
    params: ParamsView,
    field: Field,
    outcome: Result<Seq<ItemView>, StoreError>,
)
    requires
        level.reads(field),
        params.raw(field) is Some,
        parse_i64_spec(params.raw(field)->0) is None,
        forall|earlier: Code|
            level.requires_code(earlier) && Field::Code(earlier).order() < field.order() ==> (
            #[trigger] params.raw(Field::Code(earlier))) is Some,
    ensures
        validate_spec(level, params) matches Err(Rejection::Malformed(_)),
        answer_spec(level, params, outcome).status == STATUS_OK,
        starts_with(answer_spec(level, params, outcome).body.message, "parse "@),
        ends_with(answer_spec(level, params, outcome).body.message, " error!"@),
        answer_spec(level, params, outcome).body.data == Seq::<ItemView>::empty(),
{
    assert(examine(level, params, field) == Some(Rejection::Malformed(field)));
    assert(first_rejection(level, params) matches Some(Rejection::Malformed(_)));
    match first_rejection(level, params) {
        Some(Rejection::Malformed(malformed)) => {
            lemma_malformed_message(malformed);
        },
        _ => {},
    }
}

/// A request for the provinces is never rejected: whatever parameters it
/// supplies, the statement handed to the store is the same, with nothing
/// bound to it, and the answer is the reply to what the store returned.
pub proof fn law_provinces_ignore_parameters(
    params: ParamsView,
    outcome: Result<Seq<ItemView>, StoreError>,
)
    ensures
        validate_spec(Level::Province, params) == Ok::<Query, Rejection>(Query::initial()),
        plan_spec(Level::Province, params) == Ok::<SelectView, Rejection>(
            SelectView { sql: PROVINCE_SQL@, binds: Seq::<i64>::empty() },
        ),
        answer_spec(Level::Province, params, outcome) == outcome_reply(outcome),
{
    assert(binds_for(Level::Province, Query::initial()) =~= Seq::<i64>::empty());
}

/// A request that is rejected gets one answer whatever the store holds, and
/// a request that the store fails gets one answer however it failed.
pub proof fn law_rejections_and_failures_have_one_answer(
    level: Level,
    params: ParamsView,
    first: Result<Seq<ItemView>, StoreError>,
    second: Result<Seq<ItemView>, StoreError>,
)
    ensures
        validate_spec(level, params) is Err ==> answer_spec(level, params, first) == answer_spec(
            level,
            params,
            second,
        ),
        first is Err && second is Err ==> answer_spec(level, params, first) == answer_spec(
            level,
            params,
            second,
        ),
{
}

/// Below the provinces, the statement of a request carries the page size
/// as its limit and the offset of the page behind it, after the parent
/// codes.
pub proof fn law_pagination_is_bound_last(level: Level, query: Query)
    requires
        level != Level::Province,
    ensures
        binds_for(level, query).len() == level.spec_depth() + 2,
        binds_for(level, query)[level.spec_depth() as int] == query.per_page,
        binds_for(level, query)[level.spec_depth() as int + 1] == offset_for(query.page, query.per_page),
{
}

/// Where the product fits in an `i64`, the offset of a page is exactly the
/// number of rows on the pages before it, so that each page begins where
/// the page before it ends.
pub proof fn law_pages_are_adjacent(page: i64, per_page: i64)
    requires
        i64::MIN <= (page - 1) * per_page <= i64::MAX,
        i64::MIN <= page * per_page <= i64::MAX,
        page < i64::MAX,
    ensures
        offset_for(page, per_page) == (page - 1) * per_page,
        offset_for((page + 1) as i64, per_page) == offset_for(page, per_page) + per_page,
{
    assert(page * per_page == (page - 1) * per_page + per_page) by (nonlinear_arith);
}

/// A region is reported under the code that the store holds for it,
/// whatever the code, so that regions are reported in the order in which
/// their codes stand.
pub proof fn law_codes_keep_order(
    first: i64,
    first_name: Seq<char>,
    second: i64,
    second_name: Seq<char>,
)
    ensures
        item_of(first, first_name).code == first,
        item_of(second, second_name).code == second,
        first < second ==> item_of(first, first_name).code < item_of(second, second_name).code,
{
}

} // verus!
