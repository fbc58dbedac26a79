//! Sizes, in memory cells, of the types that a Sierra program declares.
use vstd::prelude::*;

use std::collections::HashMap;

verus! {

/// Identifier of a concrete type of the program.
pub type ConcreteTypeId = u64;

/// What the size of a concrete type depends on.
pub enum TypeShape {
    /// One cell: felt252, the integer types, builtins, boxes, nullables,
    /// dictionaries, dictionary entries, segment arenas and the StarkNet
    /// system, address and hash types.
    SingleCell,
    /// Two cells: arrays, spans, EC points and squashed dictionaries.
    TwoCells,
    /// Three cells.
    EcState,
    /// Four cells.
    Uint128MulGuarantee,
    /// As large as the wrapped type: non-zero, snapshot and uninitialized
    /// wrappers.
    Wrapper(ConcreteTypeId),
    /// One cell for the variant index and room for the largest variant.
    Enum(Vec<ConcreteTypeId>),
    /// The members one after another.
    Struct(Vec<ConcreteTypeId>),
}

/// A type declaration: the type's identifier and its shape, or `None`
/// where the program's registry does not know the type.
pub struct TypeDeclaration {
    pub id: ConcreteTypeId,
    pub shape: Option<TypeShape>,
}

/// Whether every identifier of `ids` has a size in `sizes`.
pub open spec fn all_sized(ids: Seq<ConcreteTypeId>, sizes: Map<ConcreteTypeId, i16>) -> bool {
    forall|i: int| 0 <= i < ids.len() ==> sizes.contains_key(#[trigger] ids[i])
}

/// The largest size among `ids`, or zero for none.
pub open spec fn max_size(ids: Seq<ConcreteTypeId>, sizes: Map<ConcreteTypeId, i16>) -> int
    decreases ids.len(),
{
    if ids.len() == 0 {
        0
    } else {
        let rest = max_size(ids.drop_last(), sizes);
        let last = sizes[ids.last()] as int;
        if last > rest {
            last
        } else {
            rest
        }
    }
}

/// The sum of the sizes of `ids`.
pub open spec fn sum_sizes(ids: Seq<ConcreteTypeId>, sizes: Map<ConcreteTypeId, i16>) -> int
    decreases ids.len(),
{
    if ids.len() == 0 {
        0
    } else {
        sum_sizes(ids.drop_last(), sizes) + sizes[ids.last()] as int
    }
}

/// The size of a type of shape `shape`, given the sizes of the types
/// declared before it; `None` where it depends on a type without a size.
pub open spec fn shape_size(shape: TypeShape, sizes: Map<ConcreteTypeId, i16>) -> Option<int> {
    match shape {
        TypeShape::SingleCell => Some(1),
        TypeShape::TwoCells => Some(2),
        TypeShape::EcState => Some(3),
        TypeShape::Uint128MulGuarantee => Some(4),
        TypeShape::Wrapper(id) => if sizes.contains_key(id) {
            Some(sizes[id] as int)
        } else {
            None
        },
        TypeShape::Enum(variants) => if all_sized(variants@, sizes) {
            Some(1 + max_size(variants@, sizes))
        } else {
            None
        },
        TypeShape::Struct(members) => if all_sized(members@, sizes) {
            Some(sum_sizes(members@, sizes))
        } else {
            None
        },
    }
}

/// The sizes of the types of `declarations`, each computed from those
/// declared before it; `None` if a type is unknown, depends on a type
/// without a size, or is larger than an `i16` holds.
pub open spec fn type_sizes(declarations: Seq<TypeDeclaration>) -> Option<Map<ConcreteTypeId, i16>>
    decreases declarations.len(),
{
    if declarations.len() == 0 {
        Some(Map::empty())
    } else {
        match type_sizes(declarations.drop_last()) {
            None => None,
            Some(sizes) => {
                let declaration = declarations.last();
                match declaration.shape {
                    None => None,
                    Some(shape) => match shape_size(shape, sizes) {
                        Some(size) => if i16::MIN <= size <= i16::MAX {
                            Some(sizes.insert(declaration.id, size as i16))
                        } else {
                            None
                        },
                        None => None,
                    },
                }
            },
        }
    }
}

/// Sizes are never negative.
pub open spec fn sizes_nonnegative(sizes: Map<ConcreteTypeId, i16>) -> bool {
    forall|id: ConcreteTypeId| #[trigger] sizes.contains_key(id) ==> sizes[id] >= 0
}

proof fn lemma_max_nonnegative(ids: Seq<ConcreteTypeId>, sizes: Map<ConcreteTypeId, i16>)
    ensures
        max_size(ids, sizes) >= 0,
    decreases ids.len(),
{
    if ids.len() > 0 {
        lemma_max_nonnegative(ids.drop_last(), sizes);
    }
}

/// The sum of the sizes of `ids`, if each has a size and the sum fits.
fn members_size(ids: &Vec<ConcreteTypeId>, sizes: &HashMap<ConcreteTypeId, i16>) -> (r: Option<i16>)
    requires
        sizes_nonnegative(sizes@),
    ensures
        match r {
            Some(s) => all_sized(ids@, sizes@) && s == sum_sizes(ids@, sizes@) && s >= 0,
            None => !all_sized(ids@, sizes@) || sum_sizes(ids@, sizes@) > i16::MAX,
        },
{
    let mut total: i16 = 0;
    let mut i: usize = 0;
    while i < ids.len()
        invariant
            i <= ids@.len(),
            sizes_nonnegative(sizes@),
            all_sized(ids@.subrange(0, i as int), sizes@),
            total == sum_sizes(ids@.subrange(0, i as int), sizes@),
            total >= 0,
        decreases ids@.len() - i,
    {
        let ghost prefix = ids@.subrange(0, i + 1);
        assert(prefix.drop_last() == ids@.subrange(0, i as int));
        match sizes.get(&ids[i]) {
            None => {
                assert(!all_sized(ids@, sizes@));
                return None;
            },
            Some(size) => {
                if *size > i16::MAX - total {
                    assert(all_sized(ids@, sizes@) ==> sum_sizes(ids@, sizes@) > i16::MAX) by {
                        if all_sized(ids@, sizes@) {
                            lemma_sum_grows(ids@, sizes@, i + 1);
                        }
                    }
                    return None;
                }
                total = total + *size;
            },
        }
        i = i + 1;
    }
    assert(ids@.subrange(0, ids@.len() as int) == ids@);
    Some(total)
}

proof fn lemma_sum_grows(ids: Seq<ConcreteTypeId>, sizes: Map<ConcreteTypeId, i16>, k: int)
    requires
        sizes_nonnegative(sizes),
        all_sized(ids, sizes),
        0 <= k <= ids.len(),
    ensures
        sum_sizes(ids, sizes) >= sum_sizes(ids.subrange(0, k), sizes),
    decreases ids.len() - k,
{
    if k < ids.len() {
        lemma_sum_grows(ids, sizes, k + 1);
        let next = ids.subrange(0, k + 1);
        assert(next.drop_last() == ids.subrange(0, k));
        assert(sizes.contains_key(ids[k]));
    } else {
        assert(ids.subrange(0, k) == ids);
    }
}

/// The largest size among `ids`, if each has a size.
fn largest_size(ids: &Vec<ConcreteTypeId>, sizes: &HashMap<ConcreteTypeId, i16>) -> (r: Option<i16>)
    ensures
        match r {
            Some(s) => all_sized(ids@, sizes@) && s == max_size(ids@, sizes@),
            None => !all_sized(ids@, sizes@),
        },
{
    let mut largest: i16 = 0;
    let mut i: usize = 0;
    while i < ids.len()
        invariant
            i <= ids@.len(),
            all_sized(ids@.subrange(0, i as int), sizes@),
            largest == max_size(ids@.subrange(0, i as int), sizes@),
        decreases ids@.len() - i,
    {
        let ghost prefix = ids@.subrange(0, i + 1);
        assert(prefix.drop_last() == ids@.subrange(0, i as int));
        match sizes.get(&ids[i]) {
            None => {
                assert(!all_sized(ids@, sizes@));
                return None;
            },
            Some(size) => {
                if *size > largest {
                    largest = *size;
                }
            },
        }
        i = i + 1;
    }
    assert(ids@.subrange(0, ids@.len() as int) == ids@);
    Some(largest)
}

/// The sizes of all types that the program declares, each computed from
/// those declared before it.
pub fn get_type_size_map(declarations: &Vec<TypeDeclaration>) -> (r: Option<HashMap<ConcreteTypeId, i16>>)
    ensures
        match r {
            Some(m) => type_sizes(declarations@) == Some(m@),
            None => type_sizes(declarations@).is_none(),
        },
{
    let mut sizes: HashMap<ConcreteTypeId, i16> = HashMap::new();
    let mut i: usize = 0;
    while i < declarations.len()
        invariant
            i <= declarations@.len(),
            type_sizes(declarations@.subrange(0, i as int)) == Some(sizes@),
            sizes_nonnegative(sizes@),
        decreases declarations@.len() - i,
    {
        let ghost prefix = declarations@.subrange(0, i + 1);
        assert(prefix.drop_last() == declarations@.subrange(0, i as int));
        assert(prefix.last() == declarations@[i as int]);
        let declaration = &declarations[i];
        let size: Option<i16> = match &declaration.shape {
            None => None,
            Some(TypeShape::SingleCell) => Some(1),
            Some(TypeShape::TwoCells) => Some(2),
            Some(TypeShape::EcState) => Some(3),
            Some(TypeShape::Uint128MulGuarantee) => Some(4),
            Some(TypeShape::Wrapper(id)) => match sizes.get(id) {
                Some(s) => {
                    assert(sizes@.contains_key(*id));
                    Some(*s)
                },
                None => None,
            },
            Some(TypeShape::Enum(variants)) => match largest_size(variants, &sizes) {
                Some(s) => {
                    proof {
                        lemma_max_nonnegative(variants@, sizes@);
                    }
                    if s < i16::MAX {
                        Some(s + 1)
                    } else {
                        None
                    }
                },
                None => None,
            },
            Some(TypeShape::Struct(members)) => members_size(members, &sizes),
        };
        match size {
            None => {
                proof {
                    lemma_no_size_stops(declarations@, i as int);
                }
                return None;
            },
            Some(s) => {
                assert(s >= 0);
                sizes.insert(declaration.id, s);
            },
        }
        i = i + 1;
    }
    assert(declarations@.subrange(0, declarations@.len() as int) == declarations@);
    Some(sizes)
}

/// A prefix without sizes leaves the whole program without sizes.
proof fn lemma_no_size_stops(declarations: Seq<TypeDeclaration>, k: int)
    requires
        0 <= k < declarations.len(),
        type_sizes(declarations.subrange(0, k + 1)).is_none(),
    ensures
        type_sizes(declarations).is_none(),
    decreases declarations.len() - k,
{
    if k + 1 < declarations.len() {
        let next = declarations.subrange(0, k + 2);
        assert(next.drop_last() == declarations.subrange(0, k + 1));
        lemma_no_size_stops(declarations, k + 1);
    } else {
        assert(declarations.subrange(0, k + 1) == declarations);
    }
}

} // verus!
