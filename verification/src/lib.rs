//! Query and validation core of a read-only service over a five-level
//! administrative region hierarchy: province, city, area, street, village.
//!
//! A request names a level and carries raw query parameters. The request
//! module turns them into integers or a rejection, the store module runs
//! one parameterised `select` against SQLite, and the service module wraps
//! the rows in the response envelope.

pub mod envelope;
pub mod laws;
pub mod number;
pub mod request;
pub mod service;
pub mod store;

pub use envelope::{Item, Result};
pub use request::{Level, Params, Query};
pub use service::{
    area_list, city_list, handle_list, handle_list_at, province_list, street_list, village_list,
    Reply,
};
pub use store::{new_connection, StoreError};
