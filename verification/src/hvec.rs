//! Bindings for the fixed-capacity vectors of the `heapless` crate, which
//! hold the peer-address lists and the per-peer timestamp slots without heap
//! allocation, together with a verified first-occurrence address search.
//!
//! The two `uninterp` functions name the mathematical contents of the two
//! vector instantiations the protocol uses; every trusted wrapper below
//! states its effect over those names, as the `heapless` source shows it.

use vstd::prelude::*;

verus! {

#[verifier::external_type_specification]
#[verifier::external_body]
#[verifier::reject_recursive_types(T)]
pub struct ExHeaplessVec<T, const N: usize>(heapless::Vec<T, N>);

/// The addresses held by a capacity-16 address vector, in order.
pub uninterp spec fn addr_list(v: heapless::Vec<u16, 16>) -> Seq<u16>;

/// The timestamps held by a capacity-16 timestamp vector, in order.
pub uninterp spec fn ts_list(v: heapless::Vec<u64, 16>) -> Seq<u64>;

/// Relies on `heapless::Vec::new`: constructs an empty vector.
#[verifier::external_body]
pub(crate) fn addr_new() -> (r: heapless::Vec<u16, 16>)
    ensures
        addr_list(r) == Seq::<u16>::empty(),
{
    heapless::Vec::new()
}

/// Relies on `heapless::Vec::new`: constructs an empty vector.
#[verifier::external_body]
pub(crate) fn ts_new() -> (r: heapless::Vec<u64, 16>)
    ensures
        ts_list(r) == Seq::<u64>::empty(),
{
    heapless::Vec::new()
}

/// Relies on `<[T]>::len` through `heapless::Vec`'s `Deref` impl: the number
/// of elements, which `heapless` keeps at or under the capacity 16.
#[verifier::external_body]
pub(crate) fn addr_len(v: &heapless::Vec<u16, 16>) -> (r: usize)
    ensures
        r == addr_list(*v).len(),
        r <= 16,
{
    v.len()
}

/// Relies on `<[T]>::len` through `heapless::Vec`'s `Deref` impl: the number
/// of elements, which `heapless` keeps at or under the capacity 16.
#[verifier::external_body]
pub(crate) fn ts_len(v: &heapless::Vec<u64, 16>) -> (r: usize)
    ensures
        r == ts_list(*v).len(),
        r <= 16,
{
    v.len()
}

/// Relies on slice indexing through `heapless::Vec`'s `Deref` impl: returns
/// the element at `i`.
#[verifier::external_body]
pub(crate) fn addr_get(v: &heapless::Vec<u16, 16>, i: usize) -> (r: u16)
    requires
        i < addr_list(*v).len(),
    ensures
        r == addr_list(*v)[i as int],
{
    v[i]
}

/// Relies on slice indexing through `heapless::Vec`'s `Deref` impl: returns
/// the element at `i`.
#[verifier::external_body]
pub(crate) fn ts_get(v: &heapless::Vec<u64, 16>, i: usize) -> (r: u64)
    requires
        i < ts_list(*v).len(),
    ensures
        r == ts_list(*v)[i as int],
{
    v[i]
}

/// Relies on slice indexing through `heapless::Vec`'s `DerefMut` impl:
/// overwrites the element at `i`.
#[verifier::external_body]
pub(crate) fn ts_set(v: &mut heapless::Vec<u64, 16>, i: usize, x: u64)
    requires
        i < ts_list(*old(v)).len(),
    ensures
        ts_list(*final(v)) == ts_list(*old(v)).update(i as int, x),
{
    v[i] = x;
}

/// Relies on `heapless::Vec::push`: appends when the vector is below its
/// capacity, which the caller guarantees here.
#[verifier::external_body]
pub(crate) fn ts_push(v: &mut heapless::Vec<u64, 16>, x: u64)
    requires
        ts_list(*old(v)).len() < 16,
    ensures
        ts_list(*final(v)) == ts_list(*old(v)).push(x),
{
    let _ = v.push(x);
}

/// Relies on `heapless::Vec`'s `Clone` impl: element-by-element copy.
#[verifier::external_body]
pub(crate) fn addr_clone(v: &heapless::Vec<u16, 16>) -> (r: heapless::Vec<u16, 16>)
    ensures
        addr_list(r) == addr_list(*v),
{
    v.clone()
}

/// Relies on `heapless::Vec`'s `Clone` impl: element-by-element copy.
#[verifier::external_body]
pub(crate) fn ts_clone(v: &heapless::Vec<u64, 16>) -> (r: heapless::Vec<u64, 16>)
    ensures
        ts_list(r) == ts_list(*v),
{
    v.clone()
}

/// Builds a timestamp vector holding `n` zeroed slots.
pub(crate) fn ts_zeroed(n: usize) -> (r: heapless::Vec<u64, 16>)
    requires
        n <= 16,
    ensures
        ts_list(r) == Seq::new(n as nat, |j: int| 0u64),
{
    let mut v = ts_new();
    let mut i: usize = 0;
    while i < n
        invariant
            i <= n,
            n <= 16,
            ts_list(v) == Seq::new(i as nat, |j: int| 0u64),
        decreases n - i,
    {
        ts_push(&mut v, 0);
        proof {
            assert(ts_list(v) =~= Seq::new((i + 1) as nat, |j: int| 0u64));
        }
        i = i + 1;
    }
    v
}

/// Position of the first occurrence of `addr` in the list, if any.
pub(crate) fn find_addr(v: &heapless::Vec<u16, 16>, addr: u16) -> (r: Option<usize>)
    ensures
        match r {
            Some(i) => addr_list(*v).index_of_first(addr) == Some(i as int),
            None => addr_list(*v).index_of_first(addr) is None,
        },
{
    let n = addr_len(v);
    let mut i: usize = 0;
    while i < n
        invariant
            i <= n,
            n == addr_list(*v).len(),
            forall|j: int| 0 <= j < i ==> addr_list(*v)[j] != addr,
        decreases n - i,
    {
        if addr_get(v, i) == addr {
            proof {
                addr_list(*v).index_of_first_ensures(addr);
            }
            return Some(i);
        }
        i = i + 1;
    }
    proof {
        addr_list(*v).index_of_first_ensures(addr);
    }
    None
}

} // verus!
