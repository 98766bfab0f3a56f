//! The failures a call can end in.

use vstd::prelude::*;

verus! {

/// Why a call failed. A call either succeeds with a result and its metadata
/// or ends in exactly one of these.
#[derive(Debug, PartialEq, Eq)]
pub enum Error {
    /// The address, path and parameters do not make a valid URL.
    UrlBuild,
    /// The request could not be sent, or no response arrived. The text is
    /// the cause as the transport gave it.
    Transport(String),
    /// The body of the response is not valid JSON of the expected shape.
    Decode,
    /// The index header of the response is not an unsigned 64-bit number.
    IndexParse,
    /// The request was refused locally, before anything was sent.
    Validation,
}

/// The result of a call.
pub type Result<T> = core::result::Result<T, Error>;

} // verus!
