use vstd::prelude::*;
use crate::error::InvalidOutputType;
use crate::param::{ParamModel, ParamKind, param_model, param_models, lemma_param_models_index};
use crate::token::{AbiToken, TokenModel, token_model, token_models, lemma_token_models_index};

verus! {

/// An address of 20 bytes.
#[derive(Debug, Clone, Copy, PartialEq, Eq)]
pub struct Address(pub [u8; 20]);

/// An unsigned 256-bit integer, as 32 big-endian bytes.
#[derive(Debug, Clone, Copy, PartialEq, Eq)]
pub struct U256(pub [u8; 32]);

/// Whether a token is of the outer kind that a schema asks for.
pub open spec fn same_kind(t: TokenModel, p: ParamModel) -> bool {
    match (t, p) {
        (TokenModel::Address(_), ParamModel::Address) => true,
        (TokenModel::FixedBytes(_), ParamModel::FixedBytes(_)) => true,
        (TokenModel::Bytes(_), ParamModel::Bytes) => true,
        (TokenModel::Int(_), ParamModel::Int(_)) => true,
        (TokenModel::Uint(_), ParamModel::Uint(_)) => true,
        (TokenModel::Bool(_), ParamModel::Bool) => true,
        (TokenModel::String(_), ParamModel::String) => true,
        (TokenModel::FixedArray(_), ParamModel::FixedArray(_, _)) => true,
        (TokenModel::Array(_), ParamModel::Array(_)) => true,
        (TokenModel::Tuple(_), ParamModel::Tuple(_)) => true,
        _ => false,
    }
}

/// A type whose values convert to and from a single ABI token, with a schema
/// that is a function of the type alone.
pub trait Tokenizable: Sized {
    /// The schema of the type.
    spec fn spec_param_type() -> ParamModel;

    /// The token of a value.
    spec fn spec_into_token(self) -> TokenModel;

    /// The value that a token stands for, if any.
    spec fn spec_from_token(token: TokenModel) -> Option<Self>;

    /// The message with which a token that stands for no value is rejected.
    spec fn spec_rejection(token: TokenModel) -> Seq<char>;

    fn param_type() -> (r: ParamKind)
        ensures
            param_model(r) == Self::spec_param_type(),
    ;

    fn into_token(self) -> (r: AbiToken)
        ensures
            token_model(r) == self.spec_into_token(),
    ;

    fn from_token(token: AbiToken) -> (r: Result<Self, InvalidOutputType>)
        ensures
            match r {
                Ok(v) => Self::spec_from_token(token_model(token)) == Some(v),
                Err(e) => Self::spec_from_token(token_model(token)) is None && e.0@
                    == Self::spec_rejection(token_model(token)),
            },
    ;

    /// A value comes back from its own token, which has the kind of the schema.
    proof fn lemma_token_round_trip(v: Self)
        ensures
            Self::spec_from_token(v.spec_into_token()) == Some(v),
            same_kind(v.spec_into_token(), Self::spec_param_type()),
    ;

    /// A composite rejects a tuple of another number of tokens than it has fields.
    proof fn lemma_wrong_arity_rejected(ts: Seq<TokenModel>)
        ensures
            Self::spec_param_type() is Tuple && ts.len() != Self::spec_param_type()->Tuple_0.len()
                ==> Self::spec_from_token(TokenModel::Tuple(ts)) is None,
    ;
}

impl Tokenizable for bool {
    open spec fn spec_param_type() -> ParamModel {
        ParamModel::Bool
    }

    open spec fn spec_into_token(self) -> TokenModel {
        TokenModel::Bool(self)
    }

    open spec fn spec_from_token(token: TokenModel) -> Option<bool> {
        match token {
            TokenModel::Bool(b) => Some(b),
            _ => None,
        }
    }

    open spec fn spec_rejection(token: TokenModel) -> Seq<char> {
        "expected a bool token"@
    }

    fn param_type() -> (r: ParamKind) {
        ParamKind::Bool
    }

    fn into_token(self) -> (r: AbiToken) {
        AbiToken::Bool(self)
    }

    fn from_token(token: AbiToken) -> (r: Result<bool, InvalidOutputType>) {
        match token {
            AbiToken::Bool(b) => Ok(b),
            _ => Err(InvalidOutputType("expected a bool token".to_owned())),
        }
    }

    proof fn lemma_token_round_trip(v: bool) {
    }

    proof fn lemma_wrong_arity_rejected(ts: Seq<TokenModel>) {
    }
}

impl Tokenizable for U256 {
    open spec fn spec_param_type() -> ParamModel {
        ParamModel::Uint(256)
    }

    open spec fn spec_into_token(self) -> TokenModel {
        TokenModel::Uint(self.0)
    }

    open spec fn spec_from_token(token: TokenModel) -> Option<U256> {
        match token {
            TokenModel::Uint(w) => Some(U256(w)),
            _ => None,
        }
    }

    open spec fn spec_rejection(token: TokenModel) -> Seq<char> {
        "expected a uint token"@
    }

    fn param_type() -> (r: ParamKind) {
        ParamKind::Uint(256)
    }

    fn into_token(self) -> (r: AbiToken) {
        AbiToken::Uint(self.0)
    }

    fn from_token(token: AbiToken) -> (r: Result<U256, InvalidOutputType>) {
        match token {
            AbiToken::Uint(w) => Ok(U256(w)),
            _ => Err(InvalidOutputType("expected a uint token".to_owned())),
        }
    }

    proof fn lemma_token_round_trip(v: U256) {
    }

    proof fn lemma_wrong_arity_rejected(ts: Seq<TokenModel>) {
    }
}

impl Tokenizable for Address {
    open spec fn spec_param_type() -> ParamModel {
        ParamModel::Address
    }

    open spec fn spec_into_token(self) -> TokenModel {
        TokenModel::Address(self.0)
    }

    open spec fn spec_from_token(token: TokenModel) -> Option<Address> {
        match token {
            TokenModel::Address(a) => Some(Address(a)),
            _ => None,
        }
    }

    open spec fn spec_rejection(token: TokenModel) -> Seq<char> {
        "expected an address token"@
    }

    fn param_type() -> (r: ParamKind) {
        ParamKind::Address
    }

    fn into_token(self) -> (r: AbiToken) {
        AbiToken::Address(self.0)
    }

    fn from_token(token: AbiToken) -> (r: Result<Address, InvalidOutputType>) {
        match token {
            AbiToken::Address(a) => Ok(Address(a)),
            _ => Err(InvalidOutputType("expected an address token".to_owned())),
        }
    }

    proof fn lemma_token_round_trip(v: Address) {
    }

    proof fn lemma_wrong_arity_rejected(ts: Seq<TokenModel>) {
    }
}

impl Tokenizable for String {
    open spec fn spec_param_type() -> ParamModel {
        ParamModel::String
    }

    open spec fn spec_into_token(self) -> TokenModel {
        TokenModel::String(self)
    }

    open spec fn spec_from_token(token: TokenModel) -> Option<String> {
        match token {
            TokenModel::String(s) => Some(s),
            _ => None,
        }
    }

    open spec fn spec_rejection(token: TokenModel) -> Seq<char> {
        "expected a string token"@
    }

    fn param_type() -> (r: ParamKind) {
        ParamKind::String
    }

    fn into_token(self) -> (r: AbiToken) {
        AbiToken::String(self)
    }

    fn from_token(token: AbiToken) -> (r: Result<String, InvalidOutputType>) {
        match token {
            AbiToken::String(s) => Ok(s),
            _ => Err(InvalidOutputType("expected a string token".to_owned())),
        }
    }

    proof fn lemma_token_round_trip(v: String) {
    }

    proof fn lemma_wrong_arity_rejected(ts: Seq<TokenModel>) {
    }
}

/// A `Vec<u8>` is a dynamic byte string.
impl Tokenizable for Vec<u8> {
    open spec fn spec_param_type() -> ParamModel {
        ParamModel::Bytes
    }

    open spec fn spec_into_token(self) -> TokenModel {
        TokenModel::Bytes(self)
    }

    open spec fn spec_from_token(token: TokenModel) -> Option<Vec<u8>> {
        match token {
            TokenModel::Bytes(b) => Some(b),
            _ => None,
        }
    }

    open spec fn spec_rejection(token: TokenModel) -> Seq<char> {
        "expected a bytes token"@
    }

    fn param_type() -> (r: ParamKind) {
        ParamKind::Bytes
    }

    fn into_token(self) -> (r: AbiToken) {
        AbiToken::Bytes(self)
    }

    fn from_token(token: AbiToken) -> (r: Result<Vec<u8>, InvalidOutputType>) {
        match token {
            AbiToken::Bytes(b) => Ok(b),
            _ => Err(InvalidOutputType("expected a bytes token".to_owned())),
        }
    }

    proof fn lemma_token_round_trip(v: Vec<u8>) {
    }

    proof fn lemma_wrong_arity_rejected(ts: Seq<TokenModel>) {
    }
}

/// A one-tuple is a composite of a single field.
impl<A: Tokenizable> Tokenizable for (A,) {
    open spec fn spec_param_type() -> ParamModel {
        ParamModel::Tuple(seq![A::spec_param_type()])
    }

    open spec fn spec_into_token(self) -> TokenModel {
        TokenModel::Tuple(seq![self.0.spec_into_token()])
    }

    open spec fn spec_from_token(token: TokenModel) -> Option<(A,)> {
        match token {
            TokenModel::Tuple(ts) => {
                if ts.len() == 1 {
                    match A::spec_from_token(ts[0]) {
                        Some(a) => Some((a,)),
                        None => None,
                    }
                } else {
                    None
                }
            },
            _ => None,
        }
    }

    open spec fn spec_rejection(token: TokenModel) -> Seq<char> {
        match token {
            TokenModel::Tuple(ts) => {
                if ts.len() != 1 {
                    "expected a tuple of one token"@
                } else {
                    A::spec_rejection(ts[0])
                }
            },
            _ => "expected a tuple token"@,
        }
    }

    fn param_type() -> (r: ParamKind) {
        let fields = vec![A::param_type()];
        proof {
            lemma_param_models_index(fields@);
            assert(param_models(fields@) =~= seq![A::spec_param_type()]);
        }
        ParamKind::Tuple(fields)
    }

    fn into_token(self) -> (r: AbiToken) {
        let ghost m = self.spec_into_token();
        let tokens = vec![self.0.into_token()];
        proof {
            lemma_token_models_index(tokens@);
            assert(token_models(tokens@) =~= m->Tuple_0);
        }
        AbiToken::Tuple(tokens)
    }

    fn from_token(token: AbiToken) -> (r: Result<(A,), InvalidOutputType>) {
        match token {
            AbiToken::Tuple(ts) => {
                let mut ts = ts;
                let ghost all = ts@;
                proof {
                    lemma_token_models_index(all);
                }
                if ts.len() != 1 {
                    return Err(InvalidOutputType("expected a tuple of one token".to_owned()));
                }
                let first = ts.pop().unwrap();
                assert(first == all[0]);
                match A::from_token(first) {
                    Err(e) => Err(e),
                    Ok(a) => Ok((a,)),
                }
            },
            _ => Err(InvalidOutputType("expected a tuple token".to_owned())),
        }
    }

    proof fn lemma_token_round_trip(v: (A,)) {
        A::lemma_token_round_trip(v.0);
    }

    proof fn lemma_wrong_arity_rejected(ts: Seq<TokenModel>) {
    }
}

/// A pair is a composite of two fields, in this order.
impl<A: Tokenizable, B: Tokenizable> Tokenizable for (A, B) {
    open spec fn spec_param_type() -> ParamModel {
        ParamModel::Tuple(seq![A::spec_param_type(), B::spec_param_type()])
    }

    open spec fn spec_into_token(self) -> TokenModel {
        TokenModel::Tuple(seq![self.0.spec_into_token(), self.1.spec_into_token()])
    }

    open spec fn spec_from_token(token: TokenModel) -> Option<(A, B)> {
        match token {
            TokenModel::Tuple(ts) => {
                if ts.len() == 2 {
                    match (A::spec_from_token(ts[0]), B::spec_from_token(ts[1])) {
                        (Some(a), Some(b)) => Some((a, b)),
                        _ => None,
                    }
                } else {
                    None
                }
            },
            _ => None,
        }
    }

    open spec fn spec_rejection(token: TokenModel) -> Seq<char> {
        match token {
            TokenModel::Tuple(ts) => {
                if ts.len() != 2 {
                    "expected a tuple of two tokens"@
                } else if A::spec_from_token(ts[0]) is None {
                    A::spec_rejection(ts[0])
                } else {
                    B::spec_rejection(ts[1])
                }
            },
            _ => "expected a tuple token"@,
        }
    }

    fn param_type() -> (r: ParamKind) {
        let fields = vec![A::param_type(), B::param_type()];
        proof {
            lemma_param_models_index(fields@);
            assert(param_models(fields@) =~= seq![A::spec_param_type(), B::spec_param_type()]);
        }
        ParamKind::Tuple(fields)
    }

    fn into_token(self) -> (r: AbiToken) {
        let ghost m = self.spec_into_token();
        let tokens = vec![self.0.into_token(), self.1.into_token()];
        proof {
            lemma_token_models_index(tokens@);
            assert(token_models(tokens@) =~= m->Tuple_0);
        }
        AbiToken::Tuple(tokens)
    }

    fn from_token(token: AbiToken) -> (r: Result<(A, B), InvalidOutputType>) {
        match token {
            AbiToken::Tuple(ts) => {
                let mut ts = ts;
                let ghost all = ts@;
                proof {
                    lemma_token_models_index(all);
                }
                if ts.len() != 2 {
                    return Err(InvalidOutputType("expected a tuple of two tokens".to_owned()));
                }
                let second = ts.pop().unwrap();
                let first = ts.pop().unwrap();
                assert(first == all[0] && second == all[1]);
                match A::from_token(first) {
                    Err(e) => Err(e),
                    Ok(a) => match B::from_token(second) {
                        Err(e) => Err(e),
                        Ok(b) => Ok((a, b)),
                    },
                }
            },
            _ => Err(InvalidOutputType("expected a tuple token".to_owned())),
        }
    }

    proof fn lemma_token_round_trip(v: (A, B)) {
        A::lemma_token_round_trip(v.0);
        B::lemma_token_round_trip(v.1);
    }

    proof fn lemma_wrong_arity_rejected(ts: Seq<TokenModel>) {
    }
}

/// A triple is a composite of three fields, in this order.
impl<A: Tokenizable, B: Tokenizable, C: Tokenizable> Tokenizable for (A, B, C) {
    open spec fn spec_param_type() -> ParamModel {
        ParamModel::Tuple(seq![A::spec_param_type(), B::spec_param_type(), C::spec_param_type()])
    }

    open spec fn spec_into_token(self) -> TokenModel {
        TokenModel::Tuple(
            seq![self.0.spec_into_token(), self.1.spec_into_token(), self.2.spec_into_token()],
        )
    }

    open spec fn spec_from_token(token: TokenModel) -> Option<(A, B, C)> {
        match token {
            TokenModel::Tuple(ts) => {
                if ts.len() == 3 {
                    match (
                        A::spec_from_token(ts[0]),
                        B::spec_from_token(ts[1]),
                        C::spec_from_token(ts[2]),
                    ) {
                        (Some(a), Some(b), Some(c)) => Some((a, b, c)),
                        _ => None,
                    }
                } else {
                    None
                }
            },
            _ => None,
        }
    }

    open spec fn spec_rejection(token: TokenModel) -> Seq<char> {
        match token {
            TokenModel::Tuple(ts) => {
                if ts.len() != 3 {
                    "expected a tuple of three tokens"@
                } else if A::spec_from_token(ts[0]) is None {
                    A::spec_rejection(ts[0])
                } else if B::spec_from_token(ts[1]) is None {
                    B::spec_rejection(ts[1])
                } else {
                    C::spec_rejection(ts[2])
                }
            },
            _ => "expected a tuple token"@,
        }
    }

    fn param_type() -> (r: ParamKind) {
        let fields = vec![A::param_type(), B::param_type(), C::param_type()];
        proof {
            lemma_param_models_index(fields@);
            assert(param_models(fields@) =~= seq![
                A::spec_param_type(),
                B::spec_param_type(),
                C::spec_param_type(),
            ]);
        }
        ParamKind::Tuple(fields)
    }

    fn into_token(self) -> (r: AbiToken) {
        let ghost m = self.spec_into_token();
        let tokens = vec![self.0.into_token(), self.1.into_token(), self.2.into_token()];
        proof {
            lemma_token_models_index(tokens@);
            assert(token_models(tokens@) =~= m->Tuple_0);
        }
        AbiToken::Tuple(tokens)
    }

    fn from_token(token: AbiToken) -> (r: Result<(A, B, C), InvalidOutputType>) {
        match token {
            AbiToken::Tuple(ts) => {
                let mut ts = ts;
                let ghost all = ts@;
                proof {
                    lemma_token_models_index(all);
                }
                if ts.len() != 3 {
                    return Err(InvalidOutputType("expected a tuple of three tokens".to_owned()));
                }
                let third = ts.pop().unwrap();
                let second = ts.pop().unwrap();
                let first = ts.pop().unwrap();
                assert(first == all[0] && second == all[1] && third == all[2]);
                match A::from_token(first) {
                    Err(e) => Err(e),
                    Ok(a) => match B::from_token(second) {
                        Err(e) => Err(e),
                        Ok(b) => match C::from_token(third) {
                            Err(e) => Err(e),
                            Ok(c) => Ok((a, b, c)),
                        },
                    },
                }
            },
            _ => Err(InvalidOutputType("expected a tuple token".to_owned())),
        }
    }

    proof fn lemma_token_round_trip(v: (A, B, C)) {
        A::lemma_token_round_trip(v.0);
        B::lemma_token_round_trip(v.1);
        C::lemma_token_round_trip(v.2);
    }

    proof fn lemma_wrong_arity_rejected(ts: Seq<TokenModel>) {
    }
}

} // verus!
