//! Declarations of the `ethabi` types that the library carries through.
use vstd::prelude::*;

verus! {

/// `ethabi`'s schema, handed to its decoder.
#[verifier::external_type_specification]
#[verifier::external_body]
pub struct ExEthParam(ethabi::ParamType);

/// `ethabi`'s token, handed to its encoder and taken from its decoder.
#[verifier::external_type_specification]
#[verifier::external_body]
pub struct ExEthToken(ethabi::Token);

/// `ethabi`'s fault, taken from its decoder.
#[verifier::external_type_specification]
#[verifier::external_body]
pub struct ExEthError(ethabi::Error);

/// `ethabi`'s 256-bit integer, inside its tokens.
#[verifier::external_type_specification]
#[verifier::external_body]
pub struct ExEthUint(ethabi::Uint);

} // verus!
