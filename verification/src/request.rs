//! Validation of the raw query parameters of a request.
//!
//! The parent codes that a level requires are examined first, in the order
//! province, city, area, street; the page number and the page size follow.
//! The first parameter that fails decides the rejection. A parameter that
//! the level does not read is never examined.

use vstd::prelude::*;
use crate::number::{parse_i64, parse_i64_spec};

verus! {

/// A level of the hierarchy, from the widest to the narrowest.
#[derive(Clone, Copy, Debug, PartialEq, Eq, Structural)]
pub enum Level {
    Province,
    City,
    Area,
    Street,
    Village,
}

/// A parent code: the level whose region the children are looked up under.
#[derive(Clone, Copy, Debug, PartialEq, Eq, Structural)]
pub enum Code {
    Province,
    City,
    Area,
    Street,
}

/// A query parameter that an endpoint may read.
#[derive(Clone, Copy, Debug, PartialEq, Eq, Structural)]
pub enum Field {
    Code(Code),
    Page,
    PerPage,
}

/// Why a request is turned down before the store is asked.
#[derive(Clone, Copy, Debug, PartialEq, Eq, Structural)]
pub enum Rejection {
    /// A parent code that the level requires was not supplied.
    Missing(Code),
    /// A parameter was supplied and is not an integer.
    Malformed(Field),
}

/// The page number of a request that names none.
pub const DEFAULT_PAGE: i64 = 1;

/// The page size of a request that names none.
pub const DEFAULT_PER_PAGE: i64 = 20;

impl Code {
    /// The position of the code in the hierarchy, the province first.
    pub open spec fn rank(self) -> nat {
        match self {
            Code::Province => 0,
            Code::City => 1,
            Code::Area => 2,
            Code::Street => 3,
        }
    }
}

impl Level {
    /// The number of parent codes that the level requires.
    pub open spec fn spec_depth(self) -> nat {
        match self {
            Level::Province => 0,
            Level::City => 1,
            Level::Area => 2,
            Level::Street => 3,
            Level::Village => 4,
        }
    }

    /// The number of parent codes that the level requires.
    pub fn depth(self) -> (depth: u8)
        ensures
            depth == self.spec_depth(),
    {
        match self {
            Level::Province => 0,
            Level::City => 1,
            Level::Area => 2,
            Level::Street => 3,
            Level::Village => 4,
        }
    }

    /// The level requires the parent code `code`.
    pub open spec fn requires_code(self, code: Code) -> bool {
        code.rank() < self.spec_depth()
    }

    /// The level reads the parameter `field`: a parent code that it
    /// requires, or, at every level below the provinces, the page number
    /// and the page size.
    pub open spec fn reads(self, field: Field) -> bool {
        match field {
            Field::Code(code) => self.requires_code(code),
            Field::Page => self != Level::Province,
            Field::PerPage => self != Level::Province,
        }
    }
}

impl Rejection {
    /// The message that tells a client of the rejection.
    pub open spec fn message_spec(self) -> Seq<char> {
        match self {
            Rejection::Missing(Code::Province) => "province code must not be empty!"@,
            Rejection::Missing(Code::City) => "city code must not be empty!"@,
            Rejection::Missing(Code::Area) => "area code must not be empty!"@,
            Rejection::Missing(Code::Street) => "street code must not be empty!"@,
            Rejection::Malformed(Field::Code(Code::Province)) => "parse province code error!"@,
            Rejection::Malformed(Field::Code(Code::City)) => "parse city code error!"@,
            Rejection::Malformed(Field::Code(Code::Area)) => "parse area code error!"@,
            Rejection::Malformed(Field::Code(Code::Street)) => "parse street code error!"@,
            Rejection::Malformed(Field::Page) => "parse page number error!"@,
            Rejection::Malformed(Field::PerPage) => "parse page size error!"@,
        }
    }

    /// The message that tells a client of the rejection.
    pub fn message(self) -> (message: &'static str)
        ensures
            message@ == self.message_spec(),
    {
        match self {
            Rejection::Missing(Code::Province) => "province code must not be empty!",
            Rejection::Missing(Code::City) => "city code must not be empty!",
            Rejection::Missing(Code::Area) => "area code must not be empty!",
            Rejection::Missing(Code::Street) => "street code must not be empty!",
            Rejection::Malformed(Field::Code(Code::Province)) => "parse province code error!",
            Rejection::Malformed(Field::Code(Code::City)) => "parse city code error!",
            Rejection::Malformed(Field::Code(Code::Area)) => "parse area code error!",
            Rejection::Malformed(Field::Code(Code::Street)) => "parse street code error!",
            Rejection::Malformed(Field::Page) => "parse page number error!",
            Rejection::Malformed(Field::PerPage) => "parse page size error!",
        }
    }
}

impl Field {
    /// The position of the parameter in the order of examination.
    pub open spec fn order(self) -> nat {
        match self {
            Field::Code(code) => code.rank(),
            Field::Page => 4,
            Field::PerPage => 5,
        }
    }
}

/// The query parameters of a request as the transport delivered them: the
/// text of each parameter that was supplied.
#[derive(Debug, Default, PartialEq, Eq)]
pub struct Params {
    pub province: Option<String>,
    pub city: Option<String>,
    pub area: Option<String>,
    pub street: Option<String>,
    pub page: Option<String>,
    pub per_page: Option<String>,
}

/// What a contract says of [`Params`]: the characters of each parameter
/// that was supplied.
pub struct ParamsView {
    pub province: Option<Seq<char>>,
    pub city: Option<Seq<char>>,
    pub area: Option<Seq<char>>,
    pub street: Option<Seq<char>>,
    pub page: Option<Seq<char>>,
    pub per_page: Option<Seq<char>>,
}

/// The characters of a parameter that may be absent.
pub open spec fn text_view(text: Option<String>) -> Option<Seq<char>> {
    match text {
        Some(text) => Some(text@),
        None => None,
    }
}

impl View for Params {
    type V = ParamsView;

    open spec fn view(&self) -> ParamsView {
        ParamsView {
            province: text_view(self.province),
            city: text_view(self.city),
            area: text_view(self.area),
            street: text_view(self.street),
            page: text_view(self.page),
            per_page: text_view(self.per_page),
        }
    }
}

impl ParamsView {
    /// The text supplied for `field`, if any.
    pub open spec fn raw(self, field: Field) -> Option<Seq<char>> {
        match field {
            Field::Code(Code::Province) => self.province,
            Field::Code(Code::City) => self.city,
            Field::Code(Code::Area) => self.area,
            Field::Code(Code::Street) => self.street,
            Field::Page => self.page,
            Field::PerPage => self.per_page,
        }
    }
}

/// The validated parameters of a request. A parent code that the level does
/// not require is zero.
#[derive(Clone, Copy, Debug, PartialEq, Eq, Structural)]
pub struct Query {
    pub page: i64,
    pub per_page: i64,
    pub province: i64,
    pub city: i64,
    pub area: i64,
    pub street: i64,
}

impl Query {
    /// The parameters of a request that supplies nothing: the first page,
    /// twenty regions to a page, no parent code.
    pub open spec fn initial() -> Query {
        Query {
            page: DEFAULT_PAGE,
            per_page: DEFAULT_PER_PAGE,
            province: 0,
            city: 0,
            area: 0,
            street: 0,
        }
    }

    /// The value held for `field`.
    pub open spec fn value(self, field: Field) -> i64 {
        match field {
            Field::Code(Code::Province) => self.province,
            Field::Code(Code::City) => self.city,
            Field::Code(Code::Area) => self.area,
            Field::Code(Code::Street) => self.street,
            Field::Page => self.page,
            Field::PerPage => self.per_page,
        }
    }
}

impl Default for Query {
    fn default() -> (query: Query)
        ensures
            query == Query::initial(),
    {
        Query {
            page: DEFAULT_PAGE,
            per_page: DEFAULT_PER_PAGE,
            province: 0,
            city: 0,
            area: 0,
            street: 0,
        }
    }
}

/// The outcome of examining one parameter for a level: nothing where the
/// level does not read it or it passes, else the rejection it causes.
pub open spec fn examine(level: Level, params: ParamsView, field: Field) -> Option<Rejection> {
    if !level.reads(field) {
        None
    } else {
        match params.raw(field) {
            None => match field {
                Field::Code(code) => Some(Rejection::Missing(code)),
                _ => None,
            },
            Some(text) => if parse_i64_spec(text) is Some {
                None
            } else {
                Some(Rejection::Malformed(field))
            },
        }
    }
}

/// The value that a parameter contributes to the validated query: the
/// integer supplied where the level reads the parameter and it was
/// supplied, else the value of a request that supplies nothing.
pub open spec fn accepted_value(level: Level, params: ParamsView, field: Field) -> i64 {
    if level.reads(field) && params.raw(field) is Some && parse_i64_spec(
        params.raw(field)->0,
    ) is Some {
        parse_i64_spec(params.raw(field)->0)->0
    } else {
        Query::initial().value(field)
    }
}

/// The rejection of the first parameter that fails, in the order of
/// examination, or nothing where every parameter passes.
pub open spec fn first_rejection(level: Level, params: ParamsView) -> Option<Rejection> {
    if examine(level, params, Field::Code(Code::Province)) is Some {
        examine(level, params, Field::Code(Code::Province))
    } else if examine(level, params, Field::Code(Code::City)) is Some {
        examine(level, params, Field::Code(Code::City))
    } else if examine(level, params, Field::Code(Code::Area)) is Some {
        examine(level, params, Field::Code(Code::Area))
    } else if examine(level, params, Field::Code(Code::Street)) is Some {
        examine(level, params, Field::Code(Code::Street))
    } else if examine(level, params, Field::Page) is Some {
        examine(level, params, Field::Page)
    } else {
        examine(level, params, Field::PerPage)
    }
}

/// The validated query of a request in which every parameter passes.
pub open spec fn accepted_query(level: Level, params: ParamsView) -> Query {
    Query {
        page: accepted_value(level, params, Field::Page),
        per_page: accepted_value(level, params, Field::PerPage),
        province: accepted_value(level, params, Field::Code(Code::Province)),
        city: accepted_value(level, params, Field::Code(Code::City)),
        area: accepted_value(level, params, Field::Code(Code::Area)),
        street: accepted_value(level, params, Field::Code(Code::Street)),
    }
}

/// What validation answers: the rejection of the first parameter that
/// fails, or the validated query.
pub open spec fn validate_spec(level: Level, params: ParamsView) -> Result<Query, Rejection> {
    match first_rejection(level, params) {
        Some(rejection) => Err(rejection),
        None => Ok(accepted_query(level, params)),
    }
}

/// Reads a required parent code.
fn read_code(raw: &Option<String>, code: Code) -> (outcome: Result<i64, Rejection>)
    ensures
        outcome == match text_view(*raw) {
            None => Err::<i64, Rejection>(Rejection::Missing(code)),
            Some(text) => match parse_i64_spec(text) {
                Some(value) => Ok(value),
                None => Err(Rejection::Malformed(Field::Code(code))),
            },
        },
{
    match raw {
        None => Err(Rejection::Missing(code)),
        Some(text) => match parse_i64(text.as_str()) {
            Some(value) => Ok(value),
            None => Err(Rejection::Malformed(Field::Code(code))),
        },
    }
}

/// Reads a pagination parameter, which has a default.
fn read_number(raw: &Option<String>, field: Field, default: i64) -> (outcome: Result<
    i64,
    Rejection,
>)
    ensures
        outcome == match text_view(*raw) {
            None => Ok::<i64, Rejection>(default),
            Some(text) => match parse_i64_spec(text) {
                Some(value) => Ok(value),
                None => Err(Rejection::Malformed(field)),
            },
        },
{
    match raw {
        None => Ok(default),
        Some(text) => match parse_i64(text.as_str()) {
            Some(value) => Ok(value),
            None => Err(Rejection::Malformed(field)),
        },
    }
}

/// Validates the parameters of a request for the children at `level`.
pub fn validate(level: Level, params: &Params) -> (outcome: Result<Query, Rejection>)
    ensures
        outcome == validate_spec(level, params@),
{
    let mut query = Query::default();
    let depth = level.depth();
    if depth >= 1 {
        match read_code(&params.province, Code::Province) {
            Ok(value) => {
                query.province = value;
            },
            Err(rejection) => {
                return Err(rejection);
            },
        }
    }
    if depth >= 2 {
        match read_code(&params.city, Code::City) {
            Ok(value) => {
                query.city = value;
            },
            Err(rejection) => {
                return Err(rejection);
            },
        }
    }
    if depth >= 3 {
        match read_code(&params.area, Code::Area) {
            Ok(value) => {
                query.area = value;
            },
            Err(rejection) => {
                return Err(rejection);
            },
        }
    }
    if depth >= 4 {
        match read_code(&params.street, Code::Street) {
            Ok(value) => {
                query.street = value;
            },
            Err(rejection) => {
                return Err(rejection);
            },
        }
    }
    if depth >= 1 {
        match read_number(&params.page, Field::Page, DEFAULT_PAGE) {
            Ok(value) => {
                query.page = value;
            },
            Err(rejection) => {
                return Err(rejection);
            },
        }
        match read_number(&params.per_page, Field::PerPage, DEFAULT_PER_PAGE) {
            Ok(value) => {
                query.per_page = value;
            },
            Err(rejection) => {
                return Err(rejection);
            },
        }
    }
    Ok(query)
}

} // verus!
