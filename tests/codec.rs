use abi_codec::codec::{decode, decode_tokens, encode, encode_checked, fields};
use abi_codec::derive::{bounded_fields, DataShape};
use abi_codec::error::{AbiError, DecodeFault, InvalidOutputType, ParseBytesError, ParseError};
use abi_codec::param::{minimum_len, schema_decodable, ParamKind};
use abi_codec::token::{encoded_sizes_bound, AbiToken};
use abi_codec::tokenize::{Address, Tokenizable, U256};

fn word(n: u8) -> [u8; 32] {
    let mut w = [0u8; 32];
    w[31] = n;
    w
}

fn padded(bytes: &[u8]) -> Vec<u8> {
    let mut out = bytes.to_vec();
    while out.len() % 32 != 0 {
        out.push(0);
    }
    out
}

#[test]
fn encodes_static_pair_exactly() {
    let bytes = encode((U256(word(1)), true));
    let mut expected = word(1).to_vec();
    expected.extend_from_slice(&word(1));
    assert_eq!(bytes, expected);
}

#[test]
fn encodes_dynamic_field_behind_offset() {
    let bytes = encode((U256(word(5)), "ab".to_string()));
    let mut expected = word(5).to_vec();
    expected.extend_from_slice(&word(0x40));
    expected.extend_from_slice(&word(2));
    expected.extend_from_slice(&padded(b"ab"));
    assert_eq!(bytes, expected);
}

#[test]
fn round_trips_pair_with_string() {
    let value = (U256(word(5)), "hello".to_string());
    let bytes = encode(value.clone());
    assert_eq!(decode::<(U256, String)>(&bytes), Ok(value));
}

#[test]
fn round_trips_triple_of_leaves() {
    let mut a = [0u8; 20];
    a[0] = 0xaa;
    a[19] = 0x01;
    let value = (Address(a), vec![1u8, 2, 3], false);
    let bytes = encode(value.clone());
    assert_eq!(decode::<(Address, Vec<u8>, bool)>(&bytes), Ok(value));
}

#[test]
fn round_trips_empty_dynamic_fields() {
    let value = (String::new(), Vec::<u8>::new());
    let bytes = encode(value.clone());
    assert_eq!(decode::<(String, Vec<u8>)>(&bytes), Ok(value));
}

#[test]
fn round_trips_nested_composite() {
    let value = ((U256(word(5)), "ab".to_string()), true);
    let bytes = encode(value.clone());
    let mut expected = word(0x40).to_vec();
    expected.extend_from_slice(&word(1));
    expected.extend_from_slice(&word(5));
    expected.extend_from_slice(&word(0x40));
    expected.extend_from_slice(&word(2));
    expected.extend_from_slice(&padded(b"ab"));
    assert_eq!(bytes, expected);
    assert_eq!(decode::<((U256, String), bool)>(&bytes), Ok(value));
}

#[test]
fn rejects_buffer_one_short_of_minimum() {
    let bytes = vec![0u8; 63];
    assert_eq!(
        decode::<(U256, String)>(&bytes),
        Err(AbiError::DecodingError(DecodeFault::InvalidData))
    );
}

#[test]
fn rejects_empty_buffer() {
    assert_eq!(
        decode::<(bool, bool)>(&[]),
        Err(AbiError::DecodingError(DecodeFault::InvalidData))
    );
}

#[test]
fn reports_primitive_decoder_fault() {
    let mut bytes = word(5).to_vec();
    bytes.extend_from_slice(&[0xff; 32]);
    assert_eq!(
        decode::<(U256, String)>(&bytes),
        Err(AbiError::DecodingError(DecodeFault::InvalidData))
    );
}

#[test]
fn too_few_tokens_is_detokenization_error() {
    let r = decode_tokens::<(U256, bool)>(Ok(vec![AbiToken::Uint(word(1))]));
    assert!(matches!(r, Err(AbiError::DetokenizationError(_))));
}

#[test]
fn wrong_token_kind_is_detokenization_error() {
    let r = decode_tokens::<(U256, bool)>(Ok(vec![AbiToken::Bool(true), AbiToken::Bool(true)]));
    assert!(matches!(r, Err(AbiError::DetokenizationError(_))));
}

#[test]
fn primitive_fault_passes_through() {
    let r = decode_tokens::<(U256, bool)>(Err(DecodeFault::Other("x".to_string())));
    assert_eq!(r, Err(AbiError::DecodingError(DecodeFault::Other("x".to_string()))));
}

#[test]
fn field_order_changes_schema_and_bytes() {
    let first = format!("{:?}", fields::<(U256, String)>());
    let second = format!("{:?}", fields::<(String, U256)>());
    assert_ne!(first, second);
    let a = encode((U256(word(5)), "ab".to_string()));
    let b = encode(("ab".to_string(), U256(word(5))));
    assert_ne!(a, b);
    let swapped = decode::<(String, U256)>(&a);
    assert_ne!(swapped, Ok(("ab".to_string(), U256(word(5)))));
}

#[test]
fn schema_is_stable() {
    let first = format!("{:?}", <((U256, String), bool)>::param_type());
    let second = format!("{:?}", <((U256, String), bool)>::param_type());
    assert_eq!(first, second);
    assert_eq!(
        first,
        "Tuple([Tuple([Uint(256), String]), Bool])".to_string()
    );
}

#[test]
fn minimum_sizes() {
    assert_eq!(ParamKind::Uint(256).minimum_size(), Some(32));
    assert_eq!(ParamKind::Bytes.minimum_size(), Some(32));
    assert_eq!(
        ParamKind::FixedArray(Box::new(ParamKind::Uint(8)), 3).minimum_size(),
        Some(96)
    );
    assert_eq!(
        ParamKind::FixedArray(Box::new(ParamKind::String), 3).minimum_size(),
        Some(32)
    );
    assert_eq!(
        ParamKind::Tuple(vec![ParamKind::Uint(256), ParamKind::String]).minimum_size(),
        Some(32)
    );
    assert_eq!(
        ParamKind::Tuple(vec![ParamKind::Uint(256), ParamKind::Bool]).minimum_size(),
        Some(64)
    );
    assert_eq!(
        ParamKind::FixedArray(Box::new(ParamKind::Bool), usize::MAX).minimum_size(),
        None
    );
    assert_eq!(
        ParamKind::FixedArray(Box::new(ParamKind::Bool), 0).minimum_size(),
        Some(0)
    );
}

#[test]
fn minimum_len_sums_heads() {
    let ps = vec![
        ParamKind::Address,
        ParamKind::Bytes,
        ParamKind::FixedArray(Box::new(ParamKind::Bool), 2),
    ];
    assert_eq!(minimum_len(&ps), Some(128));
    assert_eq!(minimum_len(&vec![]), Some(0));
}

#[test]
fn dynamic_kinds() {
    assert!(ParamKind::String.is_dynamic());
    assert!(ParamKind::Array(Box::new(ParamKind::Bool)).is_dynamic());
    assert!(!ParamKind::FixedArray(Box::new(ParamKind::Bool), 4).is_dynamic());
    assert!(ParamKind::Tuple(vec![ParamKind::Bool, ParamKind::Bytes]).is_dynamic());
    assert!(!ParamKind::Tuple(vec![]).is_dynamic());
}

#[test]
fn error_equality() {
    assert_eq!(AbiError::WrongSelector, AbiError::WrongSelector);
    assert_eq!(
        AbiError::DecodingError(DecodeFault::InvalidName("a".to_string())),
        AbiError::DecodingError(DecodeFault::InvalidName("a".to_string()))
    );
    assert_ne!(
        AbiError::DecodingError(DecodeFault::InvalidName("a".to_string())),
        AbiError::DecodingError(DecodeFault::InvalidName("b".to_string()))
    );
    assert_ne!(
        AbiError::DecodingError(DecodeFault::InvalidData),
        AbiError::DecodingError(DecodeFault::Other("Invalid data".to_string()))
    );
    assert_eq!(
        AbiError::DetokenizationError(InvalidOutputType("x".to_string())),
        AbiError::DetokenizationError(InvalidOutputType("x".to_string()))
    );
    assert_ne!(
        AbiError::ParseBytesError(ParseBytesError("x".to_string())),
        AbiError::DetokenizationError(InvalidOutputType("x".to_string()))
    );
    assert_ne!(AbiError::WrongSelector, AbiError::DecodingError(DecodeFault::InvalidData));
}

#[test]
fn error_conversions() {
    assert_eq!(
        AbiError::from(DecodeFault::InvalidData),
        AbiError::DecodingError(DecodeFault::InvalidData)
    );
    assert_eq!(
        AbiError::from(ParseBytesError("zz".to_string())),
        AbiError::ParseBytesError(ParseBytesError("zz".to_string()))
    );
    assert!(matches!(
        ParseError::from(DecodeFault::InvalidData),
        ParseError::ParseError(DecodeFault::InvalidData)
    ));
}

#[test]
fn bounded_fields_of_shapes() {
    assert_eq!(bounded_fields(DataShape::Struct(vec!["a", "b"])), Some(vec!["a", "b"]));
    assert_eq!(
        bounded_fields(DataShape::Enum(vec![vec!["a"], vec![], vec!["b", "c"]])),
        Some(vec!["a", "b", "c"])
    );
    assert_eq!(bounded_fields::<&str>(DataShape::Union), None);
}

#[test]
fn single_field_round_trip() {
    let value = ("one field".to_string(),);
    let bytes = encode(value.clone());
    assert_eq!(bytes.len(), 96);
    assert_eq!(decode::<(String,)>(&bytes), Ok(value));
}

#[test]
fn single_dynamic_field_one_short_is_decoding_error() {
    assert_eq!(
        decode::<(String,)>(&vec![0u8; 31]),
        Err(AbiError::DecodingError(DecodeFault::InvalidData))
    );
}

#[test]
fn single_field_without_tokens_is_detokenization_error() {
    let r = decode_tokens::<(String,)>(Ok(vec![]));
    assert_eq!(
        r,
        Err(AbiError::DetokenizationError(InvalidOutputType(
            "expected a tuple of one token".to_string()
        )))
    );
}

#[test]
fn decoding_twice_gives_equal_results() {
    let bad = vec![0u8; 64];
    assert_eq!(decode::<(U256, bool)>(&bad), decode::<(U256, bool)>(&bad));
    let r = decode_tokens::<(U256, bool)>(Ok(vec![AbiToken::Uint(word(1)), AbiToken::Uint(word(1))]));
    assert_eq!(
        r,
        Err(AbiError::DetokenizationError(InvalidOutputType("expected a bool token".to_string())))
    );
}

#[test]
fn decodable_schemas() {
    assert!(ParamKind::FixedBytes(32).is_decodable());
    assert!(!ParamKind::FixedBytes(33).is_decodable());
    assert!(!ParamKind::FixedBytes(usize::MAX).is_decodable());
    assert!(!ParamKind::Array(Box::new(ParamKind::Tuple(vec![]))).is_decodable());
    assert!(!ParamKind::FixedArray(Box::new(ParamKind::Tuple(vec![])), usize::MAX).is_decodable());
    assert!(ParamKind::Array(Box::new(ParamKind::Bool)).is_decodable());
    assert!(schema_decodable(&vec![ParamKind::Uint(256), ParamKind::FixedBytes(4)]));
    assert!(!schema_decodable(&vec![
        ParamKind::Uint(256),
        ParamKind::Tuple(vec![ParamKind::FixedBytes(usize::MAX)]),
    ]));
    assert!(schema_decodable(&vec![]));
}

#[test]
fn checked_encoding_matches_encoding() {
    let value = ((U256(word(5)), "ab".to_string()), true);
    assert_eq!(encode_checked(value.clone()), Some(encode(value)));
}

#[test]
fn encoding_size_bounds() {
    assert_eq!(AbiToken::Bool(true).encoded_size_bound(), Some(32));
    assert_eq!(AbiToken::Bytes(vec![1, 2, 3]).encoded_size_bound(), Some(99));
    assert_eq!(AbiToken::String("\u{e9}a".to_string()).encoded_size_bound(), Some(99));
    assert_eq!(AbiToken::FixedBytes(vec![0; 4]).encoded_size_bound(), Some(36));
    assert_eq!(
        AbiToken::Tuple(vec![AbiToken::Uint(word(1)), AbiToken::Bytes(vec![])]).encoded_size_bound(),
        Some(192)
    );
    assert_eq!(
        encoded_sizes_bound(&vec![AbiToken::Address([0; 20]), AbiToken::Bool(false)]),
        Some(64)
    );
    assert_eq!(encoded_sizes_bound(&vec![]), Some(0));
}
