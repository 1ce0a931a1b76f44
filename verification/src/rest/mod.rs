//! What the service answers to a request: the rules between the request and the
//! tables. Each function takes the store and plain values, and returns the
//! status code with the record to send back, or the error.

pub mod blogs;
pub mod errors;
pub mod middlewares;
pub mod users;

use vstd::prelude::*;

verus! {

/// The status code of an answer that reports a new record.
pub const CREATED: u16 = 201;

/// The status code of an answer that has nothing to report.
pub const NO_CONTENT: u16 = 204;

/// The status code for a request that cannot be read.
pub const BAD_REQUEST: u16 = 400;

/// The status code for a request that shows no right to what it asks.
pub const UNAUTHORIZED: u16 = 401;

/// The status code for a record that is not there.
pub const NOT_FOUND: u16 = 404;

/// The status code for a record that is there already.
pub const CONFLICT: u16 = 409;

/// The status code for a failure of the service itself.
pub const INTERNAL_SERVER_ERROR: u16 = 500;

} // verus!
