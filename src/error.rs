use vstd::prelude::*;

verus! {

/// The ways in which a call of this library can fail.
#[derive(Clone, Copy, Debug, PartialEq, Eq, Structural)]
pub enum UpbitError {
    /// Missing or malformed credentials when the client is built.
    Config,
    /// The request could not be carried out by the transport.
    Transport,
    /// The response body is not a JSON document.
    Decode,
    /// The arguments of an endpoint do not form a valid request.
    Argument,
}

} // verus!
