//! The failures of loading and fetching.

use vstd::prelude::*;

verus! {

/// Why one request for a registry document failed, or why none was made.
#[derive(Debug)]
pub enum FetchError {
    /// The request did not complete (no connection, a timeout, a bad URL).
    Request(String),
    /// The server answered with a status outside 200..=299.
    InvalidStatusCode(u16),
    /// An exact version is not `major.minor[.patch]` in decimal digits.
    InvalidVersionFormat(String),
}

/// Why text did not load as a registry document.
#[derive(Debug)]
pub enum ParseError {
    /// The text is not JSON; the JSON parser's message.
    Syntax(String),
    /// The text is JSON, but not of the shape of a registry document.
    Schema,
}

/// Every failure of the loading entry points.
#[derive(Debug)]
pub enum Error {
    /// Reading a file failed.
    Io(String),
    /// The text is not a registry document.
    Parse(ParseError),
    /// The network request failed.
    Http(FetchError),
    /// An exact version was rejected before any request was made.
    InvalidVersionFormat(String),
}

} // verus!
