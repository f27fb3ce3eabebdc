use std::num::ParseIntError;
use vstd::prelude::*;

verus! {

/// The integer parse error of std, carried opaquely as the cause of a
/// malformed literal.
#[verifier::external_type_specification]
#[verifier::external_body]
pub struct ExParseIntError(ParseIntError);

/// Why a configuration could not be built.
#[derive(Debug)]
pub enum ConfigError {
    /// A numeric flag held a malformed literal: the digits left after the
    /// base prefix was taken off, and the parse error that they gave.
    NumberParseError(String, ParseIntError),
    /// The server kind named no known operation.
    UnknownServerKind(String),
    /// Neither an address nor a server was asked for.
    NoOperationSpecified,
}

} // verus!
