//! The first of several candidates that has a property.
//!
//! Precedence in this library is always by position: of the rules, hosts or
//! backends that qualify, the one that comes first is the one that counts.

use vstd::prelude::*;

verus! {

/// Index `i` is below `n` and has the property, and no index before it
/// has.
pub open spec fn is_first(holds: spec_fn(int) -> bool, n: int, i: int) -> bool {
    &&& 0 <= i < n
    &&& holds(i)
    &&& forall|j: int| 0 <= j < i ==> !#[trigger] holds(j)
}

/// The least index below `n` that has the property, if any has.
pub open spec fn first_index(holds: spec_fn(int) -> bool, n: int) -> Option<int> {
    if exists|i: int| is_first(holds, n, i) {
        Some(choose|i: int| is_first(holds, n, i))
    } else {
        None
    }
}

/// An index that has the property, with none before it that has, is the
/// first index.
pub proof fn lemma_first_index_found(holds: spec_fn(int) -> bool, n: int, i: int)
    requires
        is_first(holds, n, i),
    ensures
        first_index(holds, n) == Some(i),
{
    let chosen = choose|k: int| is_first(holds, n, k);
    if chosen < i {
        assert(!holds(chosen));
    } else if i < chosen {
        assert(!holds(i));
    }
}

/// Where no index has the property there is no first index.
pub proof fn lemma_first_index_none(holds: spec_fn(int) -> bool, n: int)
    requires
        forall|j: int| 0 <= j < n ==> !#[trigger] holds(j),
    ensures
        first_index(holds, n) is None,
{
}

/// The first index has the property and is the least that has it; there is
/// none exactly where no index has the property.
pub proof fn lemma_first_index_is_least(holds: spec_fn(int) -> bool, n: int)
    ensures
        match first_index(holds, n) {
            Some(i) => is_first(holds, n, i),
            None => forall|j: int| 0 <= j < n ==> !#[trigger] holds(j),
        },
    decreases n,
{
    if first_index(holds, n) is None {
        assert forall|j: int| 0 <= j < n implies !#[trigger] holds(j) by {
            if holds(j) {
                lemma_some_index_is_first(holds, n, j);
            }
        }
    }
}

/// Below any index that has the property there is a first one.
proof fn lemma_some_index_is_first(holds: spec_fn(int) -> bool, n: int, j: int)
    requires
        0 <= j < n,
        holds(j),
    ensures
        exists|i: int| is_first(holds, n, i) && i <= j,
    decreases j,
{
    if exists|k: int| 0 <= k < j && #[trigger] holds(k) {
        let k = choose|k: int| 0 <= k < j && #[trigger] holds(k);
        lemma_some_index_is_first(holds, n, k);
    } else {
        assert(is_first(holds, n, j));
    }
}

} // verus!
