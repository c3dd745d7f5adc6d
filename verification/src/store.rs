//! The region store: one parameterised `select` per request, run by SQLite.
//!
//! The statement that is handed to SQLite, its text and the integers bound
//! to its parameters, is fixed here: [`select_for`] says exactly what it is.
//! Which rows SQLite selects, in which order and how many, is decided by
//! SQLite from that statement and from the database, so nothing is claimed
//! of the rows: they are taken as they come, and every failure becomes a
//! [`StoreError`].

use vstd::prelude::*;
use crate::envelope::Item;
use crate::request::{Level, Query};

verus! {

/// A connection to a SQLite database. Nothing is known of what it holds.
#[verifier::external_type_specification]
#[verifier::external_body]
pub struct ExConnection(sqlite::Connection);

/// A prepared statement of SQLite. Nothing is known of what it holds.
#[verifier::external_type_specification]
#[verifier::external_body]
pub struct ExStatement<'l>(sqlite::Statement<'l>);

/// The error of SQLite. Nothing is known of what it holds.
#[verifier::external_type_specification]
#[verifier::external_body]
pub struct ExError(sqlite::Error);

/// Why the store gave no answer.
#[derive(Clone, Copy, Debug, PartialEq, Eq, Structural)]
pub enum StoreError {
    /// The database could not be opened.
    Unavailable,
    /// The query could not be prepared or run to its end.
    Query,
}

/// Lists every province.
pub const PROVINCE_SQL: &'static str = "select code, name from province order by code";

/// Lists one page of the cities of a province.
pub const CITY_SQL: &'static str =
    "select code, name from city where provinceCode = ? order by code limit ? offset ?";

/// Lists one page of the areas of a city.
pub const AREA_SQL: &'static str =
    "select code, name from area where provinceCode = ? and cityCode = ? order by code limit ? offset ?";

/// Lists one page of the streets of an area.
pub const STREET_SQL: &'static str =
    "select code, name from street where provinceCode = ? and cityCode = ? and areaCode = ? order by code limit ? offset ?";

/// Lists one page of the villages of a street.
pub const VILLAGE_SQL: &'static str =
    "select code, name from village where provinceCode = ? and cityCode = ? and areaCode = ? and streetCode = ? order by code limit ? offset ?";

/// The text of the statement that lists the regions at `level`.
pub open spec fn sql_for(level: Level) -> Seq<char> {
    match level {
        Level::Province => PROVINCE_SQL@,
        Level::City => CITY_SQL@,
        Level::Area => AREA_SQL@,
        Level::Street => STREET_SQL@,
        Level::Village => VILLAGE_SQL@,
    }
}

/// `text` is one of the five statements of this module. Each selects the
/// columns `code` and `name` by these names.
pub open spec fn is_listing(text: Seq<char>) -> bool {
    exists|level: Level| text == #[trigger] sql_for(level)
}

/// A statement as it is handed to SQLite: its text, which is always one of
/// the five statements of this module, and the integers bound to its
/// parameters, the first to the first.
#[derive(Debug, PartialEq, Eq)]
pub struct Select {
    sql: &'static str,
    binds: Vec<i64>,
}

/// What a contract says of a [`Select`].
pub struct SelectView {
    pub sql: Seq<char>,
    pub binds: Seq<i64>,
}

impl View for Select {
    type V = SelectView;

    closed spec fn view(&self) -> SelectView {
        SelectView { sql: self.sql@, binds: self.binds@ }
    }
}

impl Select {
    #[verifier::type_invariant]
    spec fn listed(self) -> bool {
        is_listing(self.sql@) && self.binds@.len() <= 6
    }

    /// The text of the statement.
    pub fn sql(&self) -> (text: &'static str)
        ensures
            text@ == self@.sql,
            is_listing(text@),
    {
        proof {
            use_type_invariant(self);
        }
        self.sql
    }

    /// The integers bound to the parameters of the statement.
    pub fn binds(&self) -> (binds: &Vec<i64>)
        ensures
            binds@ == self@.binds,
            binds@.len() <= 6,
    {
        proof {
            use_type_invariant(self);
        }
        &self.binds
    }
}

/// The text that a prepared statement was compiled from.
pub uninterp spec fn statement_text(statement: sqlite::Statement<'_>) -> Seq<char>;

/// The integers that a prepared statement holds for its parameters, by the
/// index of the parameter, the first parameter having index one.
pub uninterp spec fn bound_integers(statement: sqlite::Statement<'_>) -> Map<int, i64>;

/// The parameters of a statement to which `binds` are bound in order, the
/// first integer to the first parameter.
pub open spec fn bindings_of(binds: Seq<i64>) -> Map<int, i64> {
    Map::new(|index: int| 1 <= index <= binds.len(), |index: int| binds[index - 1])
}

/// `value`, or the bound of `i64` that it lies beyond.
pub open spec fn clamp_i64(value: int) -> i64 {
    if value < i64::MIN {
        i64::MIN
    } else if value > i64::MAX {
        i64::MAX
    } else {
        value as i64
    }
}

/// The number of rows to pass over before the page `page` begins, with
/// `per_page` rows to a page and the pages counted from one:
/// `(page - 1) * per_page`, held to the range of `i64`.
///
/// SQLite reads a negative offset as zero, and no table holds as many rows
/// as the largest `i64`, so the clamped offset selects the rows that the
/// exact product would.
pub open spec fn offset_for(page: i64, per_page: i64) -> i64 {
    clamp_i64((page - 1) * per_page)
}

/// The integers bound to the statement for `level`: the parent codes that
/// the level requires, from the province down, then the limit and the
/// offset. The provinces are listed whole, with nothing bound.
pub open spec fn binds_for(level: Level, query: Query) -> Seq<i64> {
    let limit = query.per_page;
    let offset = offset_for(query.page, query.per_page);
    match level {
        Level::Province => seq![],
        Level::City => seq![query.province, limit, offset],
        Level::Area => seq![query.province, query.city, limit, offset],
        Level::Street => seq![query.province, query.city, query.area, limit, offset],
        Level::Village => seq![
            query.province,
            query.city,
            query.area,
            query.street,
            limit,
            offset,
        ],
    }
}

/// Computes the offset of a page.
pub fn page_offset(page: i64, per_page: i64) -> (offset: i64)
    ensures
        offset == offset_for(page, per_page),
{
    let before: i128 = page as i128 - 1;
    let size: i128 = per_page as i128;
    assert(-0x8000_0000_0000_0001 <= before <= 0x7fff_ffff_ffff_fffe);
    assert(-0x8000_0000_0000_0000 <= size <= 0x7fff_ffff_ffff_ffff);
    assert(-0x4000_0000_0000_0001_0000_0000_0000_0000 <= before * size
        <= 0x4000_0000_0000_0001_0000_0000_0000_0000) by (nonlinear_arith)
        requires
            -0x8000_0000_0000_0001 <= before <= 0x7fff_ffff_ffff_fffe,
            -0x8000_0000_0000_0000 <= size <= 0x7fff_ffff_ffff_ffff,
    ;
    let product: i128 = before * size;
    if product < i64::MIN as i128 {
        i64::MIN
    } else if product > i64::MAX as i128 {
        i64::MAX
    } else {
        product as i64
    }
}

/// Builds the statement that lists the regions at `level` for a validated
/// query.
pub fn select_for(level: Level, query: &Query) -> (select: Select)
    ensures
        select@ == (SelectView { sql: sql_for(level), binds: binds_for(level, *query) }),
{
    let mut binds: Vec<i64> = Vec::new();
    let sql = match level {
        Level::Province => PROVINCE_SQL,
        Level::City => {
            binds.push(query.province);
            CITY_SQL
        },
        Level::Area => {
            binds.push(query.province);
            binds.push(query.city);
            AREA_SQL
        },
        Level::Street => {
            binds.push(query.province);
            binds.push(query.city);
            binds.push(query.area);
            STREET_SQL
        },
        Level::Village => {
            binds.push(query.province);
            binds.push(query.city);
            binds.push(query.area);
            binds.push(query.street);
            VILLAGE_SQL
        },
    };
    match level {
        Level::Province => {},
        _ => {
            binds.push(query.per_page);
            binds.push(page_offset(query.page, query.per_page));
        },
    }
    assert(binds@ =~= binds_for(level, *query));
    Select { sql, binds }
}

/// Builds the statement that lists every province.
pub fn province_select() -> (select: Select)
    ensures
        select@ == (SelectView { sql: PROVINCE_SQL@, binds: seq![] }),
{
    let select = select_for(Level::Province, &Query::default());
    assert(select@.binds =~= seq![]);
    select
}

/// Builds the statement that lists one page of the cities of a province.
pub fn city_select(province: i64, page: i64, per_page: i64) -> (select: Select)
    ensures
        select@ == (SelectView {
            sql: CITY_SQL@,
            binds: seq![province, per_page, offset_for(page, per_page)],
        }),
{
    let query = Query { page, per_page, province, city: 0, area: 0, street: 0 };
    let select = select_for(Level::City, &query);
    assert(select@.binds =~= seq![province, per_page, offset_for(page, per_page)]);
    select
}

/// Builds the statement that lists one page of the areas of a city.
pub fn area_select(province: i64, city: i64, page: i64, per_page: i64) -> (select: Select)
    ensures
        select@ == (SelectView {
            sql: AREA_SQL@,
            binds: seq![province, city, per_page, offset_for(page, per_page)],
        }),
{
    let query = Query { page, per_page, province, city, area: 0, street: 0 };
    let select = select_for(Level::Area, &query);
    assert(select@.binds =~= seq![province, city, per_page, offset_for(page, per_page)]);
    select
}

/// Builds the statement that lists one page of the streets of an area.
pub fn street_select(province: i64, city: i64, area: i64, page: i64, per_page: i64) -> (select:
    Select)
    ensures
        select@ == (SelectView {
            sql: STREET_SQL@,
            binds: seq![province, city, area, per_page, offset_for(page, per_page)],
        }),
{
    let query = Query { page, per_page, province, city, area, street: 0 };
    let select = select_for(Level::Street, &query);
    assert(select@.binds =~= seq![province, city, area, per_page, offset_for(page, per_page)]);
    select
}

/// Builds the statement that lists one page of the villages of a street.
pub fn village_select(
    province: i64,
    city: i64,
    area: i64,
    street: i64,
    page: i64,
    per_page: i64,
) -> (select: Select)
    ensures
        select@ == (SelectView {
            sql: VILLAGE_SQL@,
            binds: seq![province, city, area, street, per_page, offset_for(page, per_page)],
        }),
{
    let query = Query { page, per_page, province, city, area, street };
    let select = select_for(Level::Village, &query);
    assert(select@.binds =~= seq![
        province,
        city,
        area,
        street,
        per_page,
        offset_for(page, per_page),
    ]);
    select
}

/// `sqlite::open`: opens the database at `path`, creating it if there is
/// none. Nothing is claimed of the outcome.
#[verifier::external_body]
fn open_database(path: &str) -> (outcome: Result<sqlite::Connection, sqlite::Error>) {
    sqlite::open(path)
}

/// `sqlite::Connection::prepare`: compiles the text of a statement. Whether
/// it succeeds is not claimed; a statement that comes back was compiled
/// from `sql` and has nothing bound to its parameters.
///
/// The call decodes the names of the result columns and panics on one that
/// is not UTF-8. It is made for the statements of this module only, whose
/// result columns are `code` and `name`.
#[verifier::external_body]
fn prepare<'c>(connection: &'c sqlite::Connection, sql: &str) -> (outcome: Result<
    sqlite::Statement<'c>,
    sqlite::Error,
>)
    requires
        is_listing(sql@),
    ensures
        outcome matches Ok(statement) ==> statement_text(statement) == sql@,
        outcome matches Ok(statement) ==> bound_integers(statement) == bindings_of(Seq::empty()),
{
    connection.prepare(sql)
}

/// `sqlite::Statement::bind` with an index and an `i64`: binds `value` to
/// the parameter at `index`, the first parameter having index one. Whether
/// it succeeds is not claimed; where it does, the statement holds `value`
/// for that parameter and what it held for the others.
///
/// The index is handed to SQLite as a C `int`, so it is kept within one.
#[verifier::external_body]
fn bind_integer(statement: &mut sqlite::Statement<'_>, index: usize, value: i64) -> (outcome:
    Result<(), sqlite::Error>)
    requires
        index <= 0x7fff_ffff,
    ensures
        statement_text(*final(statement)) == statement_text(*old(statement)),
        outcome is Ok ==> bound_integers(*final(statement)) == bound_integers(
            *old(statement),
        ).insert(index as int, value),
{
    statement.bind((index, value))
}

/// `sqlite::Statement::next`: steps to the next row. The answer is `true`
/// where a row stands ready to be read and `false` where the statement has
/// run to its end. Nothing is claimed of which it is.
#[verifier::external_body]
fn advance(statement: &mut sqlite::Statement<'_>) -> (outcome: Result<bool, sqlite::Error>) {
    match statement.next() {
        Ok(sqlite::State::Row) => Ok(true),
        Ok(sqlite::State::Done) => Ok(false),
        Err(error) => Err(error),
    }
}

/// `sqlite::Statement::read` of an `i64`: the integer in the column at
/// `column` of the row that stands ready, the first column having index
/// zero. Nothing is claimed of the outcome.
#[verifier::external_body]
fn read_integer(statement: &sqlite::Statement<'_>, column: usize) -> (outcome: Result<
    i64,
    sqlite::Error,
>) {
    statement.read::<i64, _>(column)
}

/// `sqlite::Statement::read` of a `String`: the text in the column at
/// `column` of the row that stands ready. Nothing is claimed of the
/// outcome.
#[verifier::external_body]
fn read_text(statement: &sqlite::Statement<'_>, column: usize) -> (outcome: Result<
    String,
    sqlite::Error,
>) {
    statement.read::<String, _>(column)
}

/// Opens the database at `path`.
pub fn new_connection(path: &str) -> (outcome: Result<sqlite::Connection, StoreError>)
    ensures
        outcome matches Err(error) ==> error == StoreError::Unavailable,
{
    match open_database(path) {
        Ok(connection) => Ok(connection),
        Err(_) => Err(StoreError::Unavailable),
    }
}

/// Prepares a statement on a connection and binds its integers. The
/// statement that comes back is the one that `select` describes: compiled
/// from its text, with its integers bound to the parameters in order.
pub fn prepare_select<'c>(connection: &'c sqlite::Connection, select: &Select) -> (outcome: Result<
    sqlite::Statement<'c>,
    StoreError,
>)
    ensures
        outcome matches Ok(statement) ==> statement_text(statement) == select@.sql
            && bound_integers(statement) == bindings_of(select@.binds),
        outcome matches Err(error) ==> error == StoreError::Query,
{
    let mut statement = match prepare(connection, select.sql()) {
        Ok(statement) => statement,
        Err(_) => {
            return Err(StoreError::Query);
        },
    };
    let binds = select.binds();
    assert(binds@.take(0) =~= Seq::empty());
    let mut bound: usize = 0;
    while bound < binds.len()
        invariant
            bound <= binds.len() <= 6,
            binds@ == select@.binds,
            statement_text(statement) == select@.sql,
            bound_integers(statement) == bindings_of(binds@.take(bound as int)),
        decreases binds.len() - bound,
    {
        match bind_integer(&mut statement, bound + 1, binds[bound]) {
            Ok(()) => {},
            Err(_) => {
                return Err(StoreError::Query);
            },
        }
        assert(bindings_of(binds@.take(bound + 1)) =~= bindings_of(
            binds@.take(bound as int),
        ).insert(bound + 1, binds@[bound as int]));
        bound += 1;
    }
    assert(binds@.take(bound as int) =~= binds@);
    Ok(statement)
}

/// Steps a statement to its end and collects the regions of its answer, in
/// the order in which SQLite hands the rows out. Each row is read as a code
/// in the first column and a name in the second.
pub fn collect(statement: &mut sqlite::Statement<'_>) -> (outcome: Result<Vec<Item>, StoreError>)
    ensures
        outcome matches Err(error) ==> error == StoreError::Query,
{
    let mut items: Vec<Item> = Vec::new();
    while items.len() < usize::MAX
        invariant
            items.len() <= usize::MAX,
        decreases usize::MAX - items.len(),
    {
        match advance(statement) {
            Ok(true) => {},
            Ok(false) => {
                return Ok(items);
            },
            Err(_) => {
                return Err(StoreError::Query);
            },
        }
        let code = match read_integer(statement, 0) {
            Ok(code) => code,
            Err(_) => {
                return Err(StoreError::Query);
            },
        };
        let name = match read_text(statement, 1) {
            Ok(name) => name,
            Err(_) => {
                return Err(StoreError::Query);
            },
        };
        items.push(Item::from_columns(code, name));
    }
    // The answer has more rows than a vector holds.
    Err(StoreError::Query)
}

/// Runs the statement that `select` describes and collects the regions of
/// its answer.
pub fn fetch(connection: &sqlite::Connection, select: &Select) -> (outcome: Result<
    Vec<Item>,
    StoreError,
>)
    ensures
        outcome matches Err(error) ==> error == StoreError::Query,
{
    match prepare_select(connection, select) {
        Ok(mut statement) => collect(&mut statement),
        Err(error) => Err(error),
    }
}

} // verus!
