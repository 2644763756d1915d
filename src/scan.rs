//! Searching byte strings for a given byte.

use vstd::prelude::*;

verus! {

broadcast use vstd::slice::group_slice_axioms;

/// `k` is the index of the first occurrence of `c` in `bytes`.
pub open spec fn is_first(bytes: Seq<u8>, c: u8, k: int) -> bool {
    &&& 0 <= k < bytes.len()
    &&& bytes[k] == c
    &&& forall|j: int| 0 <= j < k ==> bytes[j] != c
}

pub open spec fn occurs(bytes: Seq<u8>, c: u8) -> bool {
    exists|k: int| 0 <= k < bytes.len() && bytes[k] == c
}

/// Index of the first occurrence of `c`, if any.
pub open spec fn first_index(bytes: Seq<u8>, c: u8) -> Option<int> {
    if exists|k: int| is_first(bytes, c, k) {
        Some(choose|k: int| is_first(bytes, c, k))
    } else {
        None
    }
}

/// The bytes before the first `c`, or all of them where there is none.
pub open spec fn before_first(bytes: Seq<u8>, c: u8) -> Seq<u8> {
    match first_index(bytes, c) {
        Some(k) => bytes.take(k),
        None => bytes,
    }
}

/// There is one first occurrence, and it is what `first_index` names.
pub proof fn lemma_first_index(bytes: Seq<u8>, c: u8, k: int)
    requires
        is_first(bytes, c, k),
    ensures
        first_index(bytes, c) == Some(k),
{
    let f = choose|k: int| is_first(bytes, c, k);
    assert(is_first(bytes, c, f));
    if f < k {
        assert(bytes[f] != c);
    } else if k < f {
        assert(bytes[k] != c);
    }
}

/// Without an occurrence there is no first one.
pub proof fn lemma_no_first_index(bytes: Seq<u8>, c: u8)
    requires
        !occurs(bytes, c),
    ensures
        first_index(bytes, c) is None,
{
    if exists|k: int| is_first(bytes, c, k) {
        let k = choose|k: int| is_first(bytes, c, k);
        assert(0 <= k < bytes.len() && bytes[k] == c);
    }
}

/// Finds the first occurrence of `c`.
pub fn find_byte(bytes: &[u8], c: u8) -> (r: Option<usize>)
    ensures
        r == match first_index(bytes@, c) {
            Some(k) => Some(k as usize),
            None => None::<usize>,
        },
        r matches Some(k) ==> is_first(bytes@, c, k as int),
        r is None <==> !occurs(bytes@, c),
{
    let mut i: usize = 0;
    while i < bytes.len()
        invariant
            i <= bytes@.len(),
            forall|j: int| 0 <= j < i ==> bytes@[j] != c,
        decreases bytes@.len() - i,
    {
        if bytes[i] == c {
            proof {
                lemma_first_index(bytes@, c, i as int);
            }
            return Some(i);
        }
        i += 1;
    }
    proof {
        lemma_no_first_index(bytes@, c);
    }
    None
}

} // verus!
