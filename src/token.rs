use vstd::prelude::*;
use vstd::utf8::encode_utf8;

verus! {

/// One ABI value, between a language-level value and its encoding.
#[derive(Debug)]
pub enum AbiToken {
    Address([u8; 20]),
    FixedBytes(Vec<u8>),
    Bytes(Vec<u8>),
    /// Two's complement, big-endian.
    Int([u8; 32]),
    /// Big-endian.
    Uint([u8; 32]),
    Bool(bool),
    String(String),
    FixedArray(Vec<AbiToken>),
    Array(Vec<AbiToken>),
    Tuple(Vec<AbiToken>),
}

/// Mathematical form of a `AbiToken`, with the members of a container as a sequence.
pub enum TokenModel {
    Address([u8; 20]),
    FixedBytes(Vec<u8>),
    Bytes(Vec<u8>),
    Int([u8; 32]),
    Uint([u8; 32]),
    Bool(bool),
    String(String),
    FixedArray(Seq<TokenModel>),
    Array(Seq<TokenModel>),
    Tuple(Seq<TokenModel>),
}

pub open spec fn token_model(t: AbiToken) -> TokenModel
    decreases t,
{
    match t {
        AbiToken::Address(a) => TokenModel::Address(a),
        AbiToken::FixedBytes(b) => TokenModel::FixedBytes(b),
        AbiToken::Bytes(b) => TokenModel::Bytes(b),
        AbiToken::Int(w) => TokenModel::Int(w),
        AbiToken::Uint(w) => TokenModel::Uint(w),
        AbiToken::Bool(b) => TokenModel::Bool(b),
        AbiToken::String(s) => TokenModel::String(s),
        AbiToken::FixedArray(ts) => TokenModel::FixedArray(token_models(ts@)),
        AbiToken::Array(ts) => TokenModel::Array(token_models(ts@)),
        AbiToken::Tuple(ts) => TokenModel::Tuple(token_models(ts@)),
    }
}

pub open spec fn token_models(ts: Seq<AbiToken>) -> Seq<TokenModel>
    decreases ts,
{
    if ts.len() == 0 {
        Seq::empty()
    } else {
        token_models(ts.subrange(0, ts.len() - 1)).push(token_model(ts[ts.len() - 1]))
    }
}

pub proof fn lemma_token_models_index(ts: Seq<AbiToken>)
    ensures
        token_models(ts).len() == ts.len(),
        forall|i: int| 0 <= i < ts.len() ==> #[trigger] token_models(ts)[i] == token_model(ts[i]),
    decreases ts.len(),
{
    if ts.len() > 0 {
        lemma_token_models_index(ts.subrange(0, ts.len() - 1));
    }
}

/// Encodings must stay below this many bytes: the primitive encoder keeps
/// head and tail offsets in 32 bits.
pub const ENCODING_LIMIT: u64 = 0x1_0000_0000;

/// Bytes of the UTF-8 form of a text, as `str::len` gives them.
pub open spec fn text_len(s: String) -> nat {
    (encode_utf8(s@).len() as usize) as nat
}

/// An upper bound on the bytes of the encoding of a token, head and tail:
/// a word for each scalar, the bytes plus padding, a length word and an offset
/// slot for each byte string, and an offset slot and a length word for each
/// container besides its members.
pub open spec fn size_bound(t: TokenModel) -> nat
    decreases t,
{
    match t {
        TokenModel::FixedBytes(b) => b@.len() + 32,
        TokenModel::Bytes(b) => b@.len() + 96,
        TokenModel::String(s) => text_len(s) + 96,
        TokenModel::FixedArray(ts) => sizes_bound(ts) + 64,
        TokenModel::Array(ts) => sizes_bound(ts) + 64,
        TokenModel::Tuple(ts) => sizes_bound(ts) + 64,
        _ => 32,
    }
}

/// An upper bound on the bytes of the encoding of a sequence of tokens.
pub open spec fn sizes_bound(ts: Seq<TokenModel>) -> nat
    decreases ts,
{
    if ts.len() == 0 {
        0
    } else {
        sizes_bound(ts.subrange(0, ts.len() - 1)) + size_bound(ts[ts.len() - 1])
    }
}

/// `Some` of the bound when it is below the encoding limit, else `None`.
pub open spec fn within_limit(n: nat) -> Option<u64> {
    if n < ENCODING_LIMIT {
        Some(n as u64)
    } else {
        None
    }
}

proof fn lemma_sizes_bound_prefix(ts: Seq<TokenModel>, j: int)
    requires
        0 <= j <= ts.len(),
    ensures
        sizes_bound(ts.subrange(0, j)) <= sizes_bound(ts),
    decreases ts.len(),
{
    if j < ts.len() {
        let front = ts.subrange(0, ts.len() - 1);
        lemma_sizes_bound_prefix(front, j);
        assert(front.subrange(0, j) =~= ts.subrange(0, j));
    } else {
        assert(ts.subrange(0, j) =~= ts);
    }
}

/// The bound on the bytes of the encoding of `ts`, where it is below the
/// encoding limit.
pub fn encoded_sizes_bound(ts: &Vec<AbiToken>) -> (r: Option<u64>)
    ensures
        r == within_limit(sizes_bound(token_models(ts@))),
    decreases ts@,
{
    let ghost ms = token_models(ts@);
    proof {
        lemma_token_models_index(ts@);
        assert(ms.subrange(0, 0) =~= Seq::<TokenModel>::empty());
    }
    let mut total: u64 = 0;
    let mut i: usize = 0;
    while i < ts.len()
        invariant
            i <= ts@.len(),
            ms == token_models(ts@),
            ms.len() == ts@.len(),
            forall|k: int| 0 <= k < ts@.len() ==> #[trigger] ms[k] == token_model(ts@[k]),
            total as nat == sizes_bound(ms.subrange(0, i as int)),
            total < ENCODING_LIMIT,
        decreases ts@.len() - i,
    {
        proof {
            assert(decreases_to!(ts@ => ts@[i as int]));
            assert(ms.subrange(0, i + 1).subrange(0, i as int) =~= ms.subrange(0, i as int));
        }
        match ts[i].encoded_size_bound() {
            None => {
                proof {
                    lemma_sizes_bound_prefix(ms, i + 1);
                }
                return None;
            },
            Some(n) => {
                if total + n >= ENCODING_LIMIT {
                    proof {
                        lemma_sizes_bound_prefix(ms, i + 1);
                    }
                    return None;
                }
                total = total + n;
            },
        }
        i = i + 1;
    }
    proof {
        assert(ms.subrange(0, ts@.len() as int) =~= ms);
    }
    Some(total)
}

impl AbiToken {
    /// The bound on the bytes of the encoding of this token, where it is
    /// below the encoding limit.
    pub fn encoded_size_bound(&self) -> (r: Option<u64>)
        ensures
            r == within_limit(size_bound(token_model(*self))),
        decreases *self,
    {
        let (inner, fixed): (u64, u64) = match self {
            AbiToken::FixedBytes(b) => (b.len() as u64, 32),
            AbiToken::Bytes(b) => {
                (b.len() as u64, 96)
            },
            AbiToken::String(s) => {
                let text: &str = s.as_str();
                let n = text.len();
                (n as u64, 96)
            },
            AbiToken::FixedArray(ts) | AbiToken::Array(ts) | AbiToken::Tuple(ts) => {
                proof {
                    assert(decreases_to!(*self => *ts));
                    assert(decreases_to!(*ts => ts@));
                }
                match encoded_sizes_bound(ts) {
                    None => {
                        return None;
                    },
                    Some(n) => (n, 64),
                }
            },
            _ => (0, 32),
        };
        if inner >= ENCODING_LIMIT || inner + fixed >= ENCODING_LIMIT {
            return None;
        }
        Some(inner + fixed)
    }
}

} // verus!
