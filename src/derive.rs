//! The shape of a type definition, as a code generator for the codec reads
//! it: which field types must themselves be tokenizable.
use vstd::prelude::*;

verus! {

/// The fields of a type definition, by their types.
pub enum DataShape<T> {
    /// A struct, with its field types in declared order.
    Struct(Vec<T>),
    /// An enum, with the field types of each variant in declared order.
    Enum(Vec<Vec<T>>),
    /// A union, which has no ordered tuple of fields.
    Union,
}

/// The field types of all variants, variant after variant.
pub open spec fn concat_fields<T>(variants: Seq<Vec<T>>) -> Seq<T>
    decreases variants.len(),
{
    if variants.len() == 0 {
        Seq::empty()
    } else {
        concat_fields(variants.subrange(0, variants.len() - 1)) + variants[variants.len() - 1]@
    }
}

/// The field types that must each be tokenizable for the codec to be
/// generated, in declared order; `None` for a union, which is not supported.
pub fn bounded_fields<T>(shape: DataShape<T>) -> (r: Option<Vec<T>>)
    ensures
        match shape {
            DataShape::Struct(fields) => r matches Some(v) && v@ == fields@,
            DataShape::Enum(variants) => r matches Some(v) && v@ == concat_fields(variants@),
            DataShape::Union => r is None,
        },
{
    match shape {
        DataShape::Struct(fields) => Some(fields),
        DataShape::Enum(variants) => {
            let ghost all = variants@;
            let mut rest = variants;
            let mut out: Vec<T> = Vec::new();
            let mut k: usize = 0;
            let n: usize = rest.len();
            while rest.len() > 0
                invariant
                    n == all.len(),
                    k <= all.len(),
                    rest@ == all.subrange(k as int, all.len() as int),
                    out@ == concat_fields(all.subrange(0, k as int)),
                decreases rest@.len(),
            {
                let mut variant = rest.remove(0);
                proof {
                    assert(all.subrange(0, k + 1).subrange(0, k as int) =~= all.subrange(0, k as int));
                }
                out.append(&mut variant);
                k = k + 1;
                assert(rest@ =~= all.subrange(k as int, all.len() as int));
            }
            assert(all.subrange(0, all.len() as int) =~= all);
            Some(out)
        },
        DataShape::Union => None,
    }
}

} // verus!
