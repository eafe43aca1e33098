use vstd::prelude::*;

verus! {

/// Schema of one ABI value: what kind of token is expected at a position.
#[derive(Debug)]
pub enum ParamKind {
    Address,
    Bytes,
    Int(usize),
    Uint(usize),
    Bool,
    String,
    Array(Box<ParamKind>),
    FixedBytes(usize),
    FixedArray(Box<ParamKind>, usize),
    Tuple(Vec<ParamKind>),
}

/// Mathematical form of a `ParamKind`, with the tuple members as a sequence.
pub enum ParamModel {
    Address,
    Bytes,
    Int(nat),
    Uint(nat),
    Bool,
    String,
    Array(Box<ParamModel>),
    FixedBytes(nat),
    FixedArray(Box<ParamModel>, nat),
    Tuple(Seq<ParamModel>),
}

pub open spec fn param_model(p: ParamKind) -> ParamModel
    decreases p,
{
    match p {
        ParamKind::Address => ParamModel::Address,
        ParamKind::Bytes => ParamModel::Bytes,
        ParamKind::Int(n) => ParamModel::Int(n as nat),
        ParamKind::Uint(n) => ParamModel::Uint(n as nat),
        ParamKind::Bool => ParamModel::Bool,
        ParamKind::String => ParamModel::String,
        ParamKind::Array(inner) => ParamModel::Array(Box::new(param_model(*inner))),
        ParamKind::FixedBytes(n) => ParamModel::FixedBytes(n as nat),
        ParamKind::FixedArray(inner, n) => ParamModel::FixedArray(
            Box::new(param_model(*inner)),
            n as nat,
        ),
        ParamKind::Tuple(ps) => ParamModel::Tuple(param_models(ps@)),
    }
}

pub open spec fn param_models(ps: Seq<ParamKind>) -> Seq<ParamModel>
    decreases ps,
{
    if ps.len() == 0 {
        Seq::empty()
    } else {
        param_models(ps.subrange(0, ps.len() - 1)).push(param_model(ps[ps.len() - 1]))
    }
}

pub proof fn lemma_param_models_index(ps: Seq<ParamKind>)
    ensures
        param_models(ps).len() == ps.len(),
        forall|i: int| 0 <= i < ps.len() ==> #[trigger] param_models(ps)[i] == param_model(ps[i]),
    decreases ps.len(),
{
    if ps.len() > 0 {
        lemma_param_models_index(ps.subrange(0, ps.len() - 1));
    }
}

/// A dynamic value sits in the head as an offset to its payload.
pub open spec fn is_dynamic(p: ParamModel) -> bool
    decreases p,
{
    match p {
        ParamModel::Bytes | ParamModel::String | ParamModel::Array(_) => true,
        ParamModel::FixedArray(inner, _) => is_dynamic(*inner),
        ParamModel::Tuple(ps) => any_dynamic(ps),
        _ => false,
    }
}

pub open spec fn any_dynamic(ps: Seq<ParamModel>) -> bool
    decreases ps,
{
    if ps.len() == 0 {
        false
    } else {
        any_dynamic(ps.subrange(0, ps.len() - 1)) || is_dynamic(ps[ps.len() - 1])
    }
}

/// Bytes that a value of schema `p` takes in the head of an encoding: one
/// 32-byte offset slot when it is dynamic, else its whole inline size.
pub open spec fn head_size(p: ParamModel) -> nat
    decreases p,
{
    if is_dynamic(p) {
        32
    } else {
        match p {
            ParamModel::FixedArray(inner, n) => n * head_size(*inner),
            ParamModel::Tuple(ps) => heads_size(ps),
            _ => 32,
        }
    }
}

/// Sum of the head sizes of a sequence of schemas: the least number of bytes
/// that an encoding of a tuple of them can have.
pub open spec fn heads_size(ps: Seq<ParamModel>) -> nat
    decreases ps,
{
    if ps.len() == 0 {
        0
    } else {
        heads_size(ps.subrange(0, ps.len() - 1)) + head_size(ps[ps.len() - 1])
    }
}

/// `Some` of the size when it fits in a `usize`, else `None`.
pub open spec fn fitting(n: nat) -> Option<usize> {
    if n <= usize::MAX {
        Some(n as usize)
    } else {
        None
    }
}

proof fn lemma_heads_size_prefix(ps: Seq<ParamModel>, j: int)
    requires
        0 <= j <= ps.len(),
    ensures
        heads_size(ps.subrange(0, j)) <= heads_size(ps),
    decreases ps.len(),
{
    if j < ps.len() {
        let front = ps.subrange(0, ps.len() - 1);
        lemma_heads_size_prefix(front, j);
        assert(front.subrange(0, j) =~= ps.subrange(0, j));
    } else {
        assert(ps.subrange(0, j) =~= ps);
    }
}

/// Least number of bytes that an encoding of a tuple of `ps` can have; `None`
/// where that number does not fit in a `usize`.
pub fn minimum_len(ps: &Vec<ParamKind>) -> (r: Option<usize>)
    ensures
        r == fitting(heads_size(param_models(ps@))),
    decreases ps@,
{
    let ghost ms = param_models(ps@);
    proof {
        lemma_param_models_index(ps@);
        assert(ms.subrange(0, 0) =~= Seq::<ParamModel>::empty());
    }
    let mut total: usize = 0;
    let mut i: usize = 0;
    while i < ps.len()
        invariant
            i <= ps@.len(),
            ms == param_models(ps@),
            ms.len() == ps@.len(),
            forall|k: int| 0 <= k < ps@.len() ==> #[trigger] ms[k] == param_model(ps@[k]),
            total as nat == heads_size(ms.subrange(0, i as int)),
        decreases ps@.len() - i,
    {
        proof {
            assert(decreases_to!(ps@ => ps@[i as int]));
            assert(ms.subrange(0, i + 1).subrange(0, i as int) =~= ms.subrange(0, i as int));
        }
        let size = ps[i].minimum_size();
        match size {
            None => {
                proof {
                    lemma_heads_size_prefix(ms, i + 1);
                }
                return None;
            },
            Some(n) => {
                match total.checked_add(n) {
                    None => {
                        proof {
                            lemma_heads_size_prefix(ms, i + 1);
                        }
                        return None;
                    },
                    Some(t) => {
                        total = t;
                    },
                }
            },
        }
        i = i + 1;
    }
    proof {
        assert(ms.subrange(0, ps@.len() as int) =~= ms);
    }
    Some(total)
}

/// Whether the primitive decoder reads a schema to an end: every fixed byte
/// string is at most one word long, and every array element takes room in the
/// head, so that each element read consumes input.
pub open spec fn decodable(p: ParamModel) -> bool
    decreases p,
{
    match p {
        ParamModel::FixedBytes(n) => n <= 32,
        ParamModel::Array(inner) => decodable(*inner) && head_size(*inner) > 0,
        ParamModel::FixedArray(inner, _) => decodable(*inner) && head_size(*inner) > 0,
        ParamModel::Tuple(ps) => all_decodable(ps),
        _ => true,
    }
}

pub open spec fn all_decodable(ps: Seq<ParamModel>) -> bool
    decreases ps,
{
    if ps.len() == 0 {
        true
    } else {
        all_decodable(ps.subrange(0, ps.len() - 1)) && decodable(ps[ps.len() - 1])
    }
}

/// Whether the primitive decoder reads every schema of `ps` to an end.
pub fn schema_decodable(ps: &Vec<ParamKind>) -> (r: bool)
    ensures
        r == all_decodable(param_models(ps@)),
    decreases ps@,
{
    let ghost ms = param_models(ps@);
    proof {
        lemma_param_models_index(ps@);
        assert(ms.subrange(0, 0) =~= Seq::<ParamModel>::empty());
    }
    let mut ok = true;
    let mut i: usize = 0;
    while i < ps.len()
        invariant
            i <= ps@.len(),
            ms == param_models(ps@),
            ms.len() == ps@.len(),
            forall|k: int| 0 <= k < ps@.len() ==> #[trigger] ms[k] == param_model(ps@[k]),
            ok == all_decodable(ms.subrange(0, i as int)),
        decreases ps@.len() - i,
    {
        proof {
            assert(decreases_to!(ps@ => ps@[i as int]));
            assert(ms.subrange(0, i + 1).subrange(0, i as int) =~= ms.subrange(0, i as int));
        }
        let d = ps[i].is_decodable();
        ok = ok && d;
        i = i + 1;
    }
    proof {
        assert(ms.subrange(0, ps@.len() as int) =~= ms);
    }
    ok
}

impl ParamKind {
    /// Whether the primitive decoder reads this schema to an end.
    pub fn is_decodable(&self) -> (r: bool)
        ensures
            r == decodable(param_model(*self)),
        decreases *self,
    {
        match self {
            ParamKind::FixedBytes(n) => *n <= 32,
            ParamKind::Array(inner) => {
                let d = inner.is_decodable();
                let room = match inner.minimum_size() {
                    Some(size) => size > 0,
                    None => true,
                };
                d && room
            },
            ParamKind::FixedArray(inner, _) => {
                let d = inner.is_decodable();
                let room = match inner.minimum_size() {
                    Some(size) => size > 0,
                    None => true,
                };
                d && room
            },
            ParamKind::Tuple(ps) => {
                proof {
                    assert(decreases_to!(*self => *ps));
                    assert(decreases_to!(*ps => ps@));
                }
                schema_decodable(ps)
            },
            _ => true,
        }
    }

    /// Least number of bytes that a value of this schema takes in the head of
    /// an encoding; `None` where that number does not fit in a `usize`.
    pub fn minimum_size(&self) -> (r: Option<usize>)
        ensures
            r == fitting(head_size(param_model(*self))),
        decreases *self,
    {
        if self.is_dynamic() {
            return Some(32);
        }
        match self {
            ParamKind::FixedArray(inner, n) => {
                assert(head_size(param_model(*self)) == (*n as nat) * head_size(param_model(**inner)));
                if *n == 0 {
                    assert((*n as nat) * head_size(param_model(**inner)) == 0) by (nonlinear_arith)
                        requires *n == 0;
                    return Some(0);
                }
                match inner.minimum_size() {
                    None => {
                        proof {
                            let h = head_size(param_model(**inner));
                            assert((*n as nat) * h >= h) by (nonlinear_arith)
                                requires *n >= 1;
                        }
                        None
                    },
                    Some(size) => {
                        proof {
                            assert(size as nat * (*n as nat) == (*n as nat) * size as nat) by (nonlinear_arith);
                        }
                        let r = size.checked_mul(*n);
                        assert(r == fitting(size as nat * (*n as nat)));
                        r
                    },
                }
            },
            ParamKind::Tuple(ps) => {
                proof {
                    assert(decreases_to!(*self => *ps));
                    assert(decreases_to!(*ps => ps@));
                }
                minimum_len(ps)
            },
            _ => Some(32),
        }
    }

    /// Whether values of this schema are encoded behind an offset.
    pub fn is_dynamic(&self) -> (r: bool)
        ensures
            r == is_dynamic(param_model(*self)),
        decreases *self,
    {
        match self {
            ParamKind::Bytes | ParamKind::String | ParamKind::Array(_) => true,
            ParamKind::FixedArray(inner, _) => inner.is_dynamic(),
            ParamKind::Tuple(ps) => {
                proof {
                    lemma_param_models_index(ps@);
                    assert forall|k: int| 0 <= k < ps@.len() implies decreases_to!(*self => #[trigger] ps@[k]) by {
                        assert(decreases_to!(*self => *ps));
                        assert(decreases_to!(*ps => ps@));
                        assert(decreases_to!(ps@ => ps@[k]));
                    }
                }
                let mut i: usize = 0;
                let mut found = false;
                while i < ps.len()
                    invariant
                        forall|k: int| 0 <= k < ps@.len() ==> decreases_to!(*self => #[trigger] ps@[k]),
                        i <= ps@.len(),
                        param_models(ps@).len() == ps@.len(),
                        forall|k: int| 0 <= k < ps@.len() ==> #[trigger] param_models(ps@)[k] == param_model(ps@[k]),
                        found == any_dynamic(param_models(ps@).subrange(0, i as int)),
                    decreases ps@.len() - i,
                {
                    let d = ps[i].is_dynamic();
                    let ghost ms = param_models(ps@);
                    assert(ms.subrange(0, i + 1).subrange(0, i as int) =~= ms.subrange(0, i as int));
                    found = found || d;
                    i = i + 1;
                }
                assert(param_models(ps@).subrange(0, ps@.len() as int) =~= param_models(ps@));
                found
            },
            _ => false,
        }
    }
}

} // verus!
