//! The primitive ABI encoder and decoder of `ethabi`, and the conversions
//! between its values and the library's own.
use vstd::prelude::*;
use crate::error::DecodeFault;
use crate::param::{ParamModel, ParamKind, all_decodable, param_models};
use crate::token::{AbiToken, ENCODING_LIMIT, TokenModel, sizes_bound, token_models};
use ethabi::Error as EthError;
use ethabi::ParamType as EthParam;
use ethabi::Token as EthToken;
use ethabi::Uint as EthUint;

verus! {

/// What `ethabi::decode` gives for a schema and a byte buffer.
pub uninterp spec fn abi_decoded(types: Seq<ParamModel>, data: Seq<u8>) -> Result<
    Seq<TokenModel>,
    DecodeFault,
>;

/// What `ethabi::encode` gives for a sequence of tokens.
pub uninterp spec fn abi_encoded(tokens: Seq<TokenModel>) -> Seq<u8>;

/// Relies on `ethabi::decode`: its result depends on the schema and the bytes
/// alone, and on success it holds one token per type of the schema. It is
/// asked only for schemas that it reads to an end: a fixed byte string longer
/// than a word overflows its offset arithmetic, and an array of elements that
/// take no room loops without consuming input.
#[verifier::external_body]
pub(crate) fn primitive_decode(types: &Vec<ParamKind>, data: &[u8]) -> (r: Result<
    Vec<AbiToken>,
    DecodeFault,
>)
    requires
        all_decodable(param_models(types@)),
    ensures
        match r {
            Ok(ts) => abi_decoded(param_models(types@), data@) == Ok::<
                Seq<TokenModel>,
                DecodeFault,
            >(token_models(ts@)) && ts@.len() == types@.len(),
            Err(e) => abi_decoded(param_models(types@), data@) == Err::<
                Seq<TokenModel>,
                DecodeFault,
            >(e),
        },
{
    let types: Vec<EthParam> = types.iter().map(param_to_eth).collect();
    match ethabi::decode(&types, data) {
        Ok(tokens) => Ok(tokens.into_iter().map(token_from_eth).collect()),
        Err(e) => Err(fault_from_eth(e)),
    }
}

/// Relies on `ethabi::encode`: its result depends on the tokens alone. It
/// keeps head and tail offsets in `u32`, so it is asked only for tokens whose
/// encoding stays below 2^32 bytes.
#[verifier::external_body]
pub(crate) fn primitive_encode(tokens: Vec<AbiToken>) -> (r: Vec<u8>)
    requires
        sizes_bound(token_models(tokens@)) < ENCODING_LIMIT,
    ensures
        r@ == abi_encoded(token_models(tokens@)),
{
    let tokens: Vec<EthToken> = tokens.into_iter().map(token_to_eth).collect();
    ethabi::encode(&tokens)
}

/// Converts a schema into `ethabi`'s form, variant for variant.
#[verifier::external_body]
fn param_to_eth(p: &ParamKind) -> EthParam {
    match p {
        ParamKind::Address => EthParam::Address,
        ParamKind::Bytes => EthParam::Bytes,
        ParamKind::Int(n) => EthParam::Int(*n),
        ParamKind::Uint(n) => EthParam::Uint(*n),
        ParamKind::Bool => EthParam::Bool,
        ParamKind::String => EthParam::String,
        ParamKind::Array(t) => EthParam::Array(Box::new(param_to_eth(t))),
        ParamKind::FixedBytes(n) => EthParam::FixedBytes(*n),
        ParamKind::FixedArray(t, n) => EthParam::FixedArray(Box::new(param_to_eth(t)), *n),
        ParamKind::Tuple(ts) => EthParam::Tuple(ts.iter().map(param_to_eth).collect()),
    }
}

/// Converts a token into `ethabi`'s form, variant for variant.
#[verifier::external_body]
fn token_to_eth(t: AbiToken) -> EthToken {
    match t {
        AbiToken::Address(a) => EthToken::Address(a.into()),
        AbiToken::FixedBytes(b) => EthToken::FixedBytes(b),
        AbiToken::Bytes(b) => EthToken::Bytes(b),
        AbiToken::Int(w) => EthToken::Int(EthUint::from_big_endian(&w)),
        AbiToken::Uint(w) => EthToken::Uint(EthUint::from_big_endian(&w)),
        AbiToken::Bool(b) => EthToken::Bool(b),
        AbiToken::String(s) => EthToken::String(s),
        AbiToken::FixedArray(ts) => EthToken::FixedArray(ts.into_iter().map(token_to_eth).collect()),
        AbiToken::Array(ts) => EthToken::Array(ts.into_iter().map(token_to_eth).collect()),
        AbiToken::Tuple(ts) => EthToken::Tuple(ts.into_iter().map(token_to_eth).collect()),
    }
}

/// Converts an `ethabi` token into the library's form, variant for variant.
#[verifier::external_body]
fn token_from_eth(t: EthToken) -> AbiToken {
    match t {
        EthToken::Address(a) => AbiToken::Address(a.0),
        EthToken::FixedBytes(b) => AbiToken::FixedBytes(b),
        EthToken::Bytes(b) => AbiToken::Bytes(b),
        EthToken::Int(n) => AbiToken::Int(word_of(n)),
        EthToken::Uint(n) => AbiToken::Uint(word_of(n)),
        EthToken::Bool(b) => AbiToken::Bool(b),
        EthToken::String(s) => AbiToken::String(s),
        EthToken::FixedArray(ts) => AbiToken::FixedArray(ts.into_iter().map(token_from_eth).collect()),
        EthToken::Array(ts) => AbiToken::Array(ts.into_iter().map(token_from_eth).collect()),
        EthToken::Tuple(ts) => AbiToken::Tuple(ts.into_iter().map(token_from_eth).collect()),
    }
}

/// Converts a 256-bit integer of `ethabi` into its 32 big-endian bytes.
#[verifier::external_body]
fn word_of(n: ethabi::Uint) -> [u8; 32] {
    let mut w = [0u8; 32];
    n.to_big_endian(&mut w);
    w
}

/// Converts a fault of `ethabi` into the library's form, kind for kind.
#[verifier::external_body]
fn fault_from_eth(e: EthError) -> DecodeFault {
    match e {
        EthError::InvalidName(s) => DecodeFault::InvalidName(s),
        EthError::InvalidData => DecodeFault::InvalidData,
        EthError::SerdeJson(e) => DecodeFault::SerdeJson(e.to_string()),
        EthError::ParseInt(e) => DecodeFault::ParseInt(e.to_string()),
        EthError::Hex(e) => DecodeFault::Hex(e.to_string()),
        EthError::Other(s) => DecodeFault::Other(s.into_owned()),
    }
}

} // verus!
