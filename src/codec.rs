//! Encoding and decoding of composite values: types whose schema is a tuple
//! of their fields, in declared order.
use vstd::prelude::*;
use crate::error::{AbiError, DecodeFault, abi_error_eq};
use crate::param::{
    ParamKind, ParamModel, all_decodable, heads_size, minimum_len, param_model, param_models,
    schema_decodable,
};
use crate::primitive::{abi_decoded, abi_encoded, primitive_decode, primitive_encode};
use crate::token::{
    AbiToken, ENCODING_LIMIT, TokenModel, encoded_sizes_bound, sizes_bound, token_models,
};
use crate::tokenize::Tokenizable;

verus! {

/// A composite type: its schema is a tuple.
pub open spec fn is_composite<T: Tokenizable>() -> bool {
    T::spec_param_type() is Tuple
}

/// The schemas of the fields of a composite type, in order.
pub open spec fn field_types<T: Tokenizable>() -> Seq<ParamModel> {
    T::spec_param_type()->Tuple_0
}

/// Least length of a buffer that can hold a value of a composite type.
pub open spec fn min_len<T: Tokenizable>() -> nat {
    heads_size(field_types::<T>())
}

/// The tokens that encoding hands to the primitive encoder: the members of a
/// tuple token, or the token alone.
pub open spec fn tokens_of(t: TokenModel) -> Seq<TokenModel> {
    match t {
        TokenModel::Tuple(ts) => ts,
        _ => seq![t],
    }
}

/// The tokens of a value, as encoding hands them on.
pub open spec fn encoded_tokens<T: Tokenizable>(v: T) -> Seq<TokenModel> {
    tokens_of(v.spec_into_token())
}

/// The bytes that encoding gives for a value.
pub open spec fn encoded<T: Tokenizable>(v: T) -> Seq<u8> {
    abi_encoded(encoded_tokens(v))
}

/// What decoding returns once the primitive decoder has answered.
pub open spec fn detokenized<T: Tokenizable>(
    decoded: Result<Seq<TokenModel>, DecodeFault>,
    r: Result<T, AbiError>,
) -> bool {
    match decoded {
        Err(e) => r == Err::<T, AbiError>(AbiError::DecodingError(e)),
        Ok(ts) => match T::spec_from_token(TokenModel::Tuple(ts)) {
            Some(v) => r == Ok::<T, AbiError>(v),
            None => r matches Err(AbiError::DetokenizationError(e)) && e.0@ == T::spec_rejection(
                TokenModel::Tuple(ts),
            ),
        },
    }
}

/// What decoding returns for a buffer: a fault of invalid data when the
/// schema is one that the primitive decoder cannot read to an end, or when
/// the buffer is shorter than the schema allows; else what the primitive
/// decoder's answer gives.
pub open spec fn decode_outcome<T: Tokenizable>(bytes: Seq<u8>, r: Result<T, AbiError>) -> bool {
    if !all_decodable(field_types::<T>()) || bytes.len() < min_len::<T>() {
        r == Err::<T, AbiError>(AbiError::DecodingError(DecodeFault::InvalidData))
    } else {
        detokenized::<T>(abi_decoded(field_types::<T>(), bytes), r)
    }
}

/// The schemas of the fields of a composite type, in order.
pub fn fields<T: Tokenizable>() -> (r: Vec<ParamKind>)
    requires
        is_composite::<T>(),
    ensures
        param_models(r@) == field_types::<T>(),
{
    match T::param_type() {
        ParamKind::Tuple(ps) => ps,
        _ => {
            assert(false);
            Vec::new()
        },
    }
}

/// Whether the encoding of a value stays below the limit of the primitive
/// encoder's 32-bit offsets.
pub open spec fn encodable<T: Tokenizable>(v: T) -> bool {
    sizes_bound(encoded_tokens(v)) < ENCODING_LIMIT
}

/// The tokens of a value, as encoding hands them to the primitive encoder.
fn tokens_for_encoding<T: Tokenizable>(value: T) -> (r: Vec<AbiToken>)
    ensures
        token_models(r@) == encoded_tokens(value),
{
    let ghost m = value.spec_into_token();
    let token = value.into_token();
    match token {
        AbiToken::Tuple(ts) => ts,
        other => {
            let ts = vec![other];
            proof {
                crate::token::lemma_token_models_index(ts@);
                assert(token_models(ts@) =~= seq![m]);
            }
            ts
        },
    }
}

/// Encodes a value: its tokens, in field order, through the primitive encoder.
pub fn encode<T: Tokenizable>(value: T) -> (r: Vec<u8>)
    requires
        encodable(value),
    ensures
        r@ == encoded(value),
{
    let tokens = tokens_for_encoding(value);
    primitive_encode(tokens)
}

/// Encodes a value where its encoding stays below the limit of the primitive
/// encoder's offsets; `None` where it would not.
pub fn encode_checked<T: Tokenizable>(value: T) -> (r: Option<Vec<u8>>)
    ensures
        match r {
            Some(bytes) => encodable(value) && bytes@ == encoded(value),
            None => !encodable(value),
        },
{
    let tokens = tokens_for_encoding(value);
    match encoded_sizes_bound(&tokens) {
        Some(_) => Some(primitive_encode(tokens)),
        None => None,
    }
}

/// Turns what the primitive decoder gave into a value of a composite type.
pub fn decode_tokens<T: Tokenizable>(decoded: Result<Vec<AbiToken>, DecodeFault>) -> (r: Result<T, AbiError>)
    ensures
        detokenized::<T>(
            match decoded {
                Ok(ts) => Ok(token_models(ts@)),
                Err(e) => Err(e),
            },
            r,
        ),
{
    match decoded {
        Err(e) => Err(AbiError::DecodingError(e)),
        Ok(tokens) => {
            let tuple = AbiToken::Tuple(tokens);
            match T::from_token(tuple) {
                Ok(v) => Ok(v),
                Err(e) => Err(AbiError::DetokenizationError(e)),
            }
        },
    }
}

/// Decodes a value of a composite type. Before the primitive decoder is
/// asked, it rejects as invalid data a buffer shorter than the schema allows
/// (also where that length does not fit in a `usize`), and a schema that the
/// primitive decoder cannot read to an end: a fixed byte string longer than a
/// word, or an array whose elements take no room.
pub fn decode<T: Tokenizable>(bytes: &[u8]) -> (r: Result<T, AbiError>)
    requires
        is_composite::<T>(),
    ensures
        decode_outcome::<T>(bytes@, r),
{
    let params = fields::<T>();
    let len = bytes.len();
    let enough = match minimum_len(&params) {
        Some(min_len) => len >= min_len,
        None => false,
    };
    if !enough || !schema_decodable(&params) {
        return Err(AbiError::DecodingError(DecodeFault::InvalidData));
    }
    let decoded = primitive_decode(&params, bytes);
    decode_tokens::<T>(decoded)
}

/// The tokens that encoding hands on for a composite value are turned back
/// into that value by decoding.
pub proof fn lemma_tokens_round_trip<T: Tokenizable>(v: T, r: Result<T, AbiError>)
    requires
        is_composite::<T>(),
        detokenized::<T>(Ok(encoded_tokens(v)), r),
    ensures
        r == Ok::<T, AbiError>(v),
{
    T::lemma_token_round_trip(v);
}

/// Decoding the bytes that encoding a composite value gave yields the value,
/// where the schema is one that the primitive decoder reads to an end, the
/// primitive decoder reads back from the bytes the tokens that the primitive
/// encoder wrote, and they are as long as the schema asks.
pub proof fn lemma_round_trip<T: Tokenizable>(v: T, r: Result<T, AbiError>)
    requires
        is_composite::<T>(),
        abi_decoded(field_types::<T>(), encoded(v)) == Ok::<Seq<TokenModel>, DecodeFault>(
            encoded_tokens(v),
        ),
        all_decodable(field_types::<T>()),
        encoded(v).len() >= min_len::<T>(),
        decode_outcome::<T>(encoded(v), r),
    ensures
        r == Ok::<T, AbiError>(v),
{
    lemma_tokens_round_trip(v, r);
}

/// A composite with a composite field comes back from its own tokens too.
pub proof fn lemma_nested_round_trip<A: Tokenizable, B: Tokenizable, C: Tokenizable>(
    v: ((A, B), C),
    r: Result<((A, B), C), AbiError>,
)
    requires
        detokenized::<((A, B), C)>(Ok(encoded_tokens(v)), r),
    ensures
        r == Ok::<((A, B), C), AbiError>(v),
        field_types::<((A, B), C)>()[0] == ParamModel::Tuple(field_types::<(A, B)>()),
{
    lemma_tokens_round_trip(v, r);
}

/// Two results agree: equal values, or errors that `==` on errors calls equal.
pub open spec fn same_result<T>(a: Result<T, AbiError>, b: Result<T, AbiError>) -> bool {
    match (a, b) {
        (Ok(x), Ok(y)) => x == y,
        (Err(x), Err(y)) => abi_error_eq(x, y),
        _ => false,
    }
}

/// Decoding one buffer twice gives the same result: the schema is taken from
/// the type alone on each call, and nothing else enters.
pub proof fn lemma_decode_deterministic<T: Tokenizable>(
    bytes: Seq<u8>,
    first: Result<T, AbiError>,
    second: Result<T, AbiError>,
)
    requires
        decode_outcome::<T>(bytes, first),
        decode_outcome::<T>(bytes, second),
    ensures
        same_result(first, second),
{
}

/// Two schemas obtained for one type are the same.
pub proof fn lemma_schema_stable<T: Tokenizable>(first: ParamKind, second: ParamKind)
    requires
        param_model(first) == T::spec_param_type(),
        param_model(second) == T::spec_param_type(),
    ensures
        param_model(first) == param_model(second),
{
}

/// A buffer shorter than the schema of a composite type allows is rejected as
/// invalid data, whatever the primitive decoder would make of it.
pub proof fn lemma_truncated_rejected<T: Tokenizable>(bytes: Seq<u8>, r: Result<T, AbiError>)
    requires
        bytes.len() < min_len::<T>(),
        decode_outcome::<T>(bytes, r),
    ensures
        r == Err::<T, AbiError>(AbiError::DecodingError(DecodeFault::InvalidData)),
{
}

/// Swapping two fields of different types changes the schema.
pub proof fn lemma_field_order<A: Tokenizable, B: Tokenizable>()
    requires
        A::spec_param_type() != B::spec_param_type(),
    ensures
        field_types::<(A, B)>() != field_types::<(B, A)>(),
        <(A, B)>::spec_param_type() != <(B, A)>::spec_param_type(),
{
    assert(field_types::<(A, B)>()[0] != field_types::<(B, A)>()[0]);
}

/// Tokens of another number than a composite has fields are a
/// detokenization error, not a decoding one.
pub proof fn lemma_arity_mismatch<T: Tokenizable>(ts: Seq<TokenModel>, r: Result<T, AbiError>)
    requires
        is_composite::<T>(),
        ts.len() != field_types::<T>().len(),
        detokenized::<T>(Ok(ts), r),
    ensures
        r matches Err(AbiError::DetokenizationError(_)),
{
    T::lemma_wrong_arity_rejected(ts);
}

} // verus!
