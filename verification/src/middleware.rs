//! The decision logic of an upload-limiting filter for an HTTP server: when a
//! request's declared content length already exceeds the configured maximum,
//! it is rejected before a single body byte is read; otherwise the body is
//! read through a bounded reader and any violation maps to a
//! "payload too large" response. Only the decisions live here; the server
//! plumbing around them does not.

use vstd::prelude::*;
use vstd::string::StringExecFns;

use crate::digits::decimal_string;
use crate::digits::spec_decimal;

verus! {

/// An upload-limiting filter: the configured hard ceiling for request bodies.
#[derive(Clone, Copy, Debug, PartialEq, Eq, Structural)]
pub struct UploadLimit {
    max_content_length: usize,
}

impl UploadLimit {
    /// The configured hard ceiling.
    pub closed spec fn spec_max_content_length(&self) -> usize {
        self.max_content_length
    }

    /// Create a new upload-limiting filter.
    pub fn new(max_content_length: usize) -> (r: Self)
        ensures
            r.spec_max_content_length() == max_content_length,
    {
        UploadLimit { max_content_length }
    }

    /// The configured hard ceiling.
    pub fn max_content_length(&self) -> (r: usize)
        ensures
            r == self.spec_max_content_length(),
    {
        self.max_content_length
    }
}

/// A request body payload declared larger than the configured maximum.
#[derive(Clone, Copy, Debug, PartialEq, Eq, Structural)]
pub struct Error {
    size: usize,
    limit: usize,
}

/// The human-readable form of the rejection.
pub open spec fn spec_error_message(e: Error) -> Seq<char> {
    "payload size exceeds configured maximum ("@ + spec_decimal(e.spec_size() as nat) + " > "@
        + spec_decimal(e.spec_limit() as nat) + ")"@
}

impl Error {
    /// The size the payload declared.
    pub closed spec fn spec_size(&self) -> usize {
        self.size
    }

    /// The maximum payload size it exceeded.
    pub closed spec fn spec_limit(&self) -> usize {
        self.limit
    }

    /// Record that a payload of `size` bytes exceeded the maximum `limit`.
    pub fn new(size: usize, limit: usize) -> (r: Self)
        ensures
            r.spec_size() == size,
            r.spec_limit() == limit,
    {
        Error { size, limit }
    }

    /// Render the rejection as its human-readable message.
    pub fn message(&self) -> (r: String)
        ensures
            r@ == spec_error_message(*self),
    {
        let mut s = String::from_str("payload size exceeds configured maximum (");
        s.append(decimal_string(self.size).as_str());
        s.append(" > ");
        s.append(decimal_string(self.limit).as_str());
        s.append(")");
        s
    }
}

/// If the declared content length is set, and is larger than the configured
/// maximum, the request is rejected without any further processing.
pub fn check_header(max_length: usize, length: Option<usize>) -> (r: Result<(), Error>)
    ensures
        r is Ok <==> (match length {
            Some(len) => len <= max_length,
            None => true,
        }),
        r matches Err(e) ==> length matches Some(len) && e.spec_size() == len && e.spec_limit()
            == max_length,
{
    match length {
        Some(len) => if len > max_length {
            Err(Error::new(len, max_length))
        } else {
            Ok(())
        },
        None => Ok(()),
    }
}

} // verus!
