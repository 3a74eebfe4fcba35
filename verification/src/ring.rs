//! Ring coordinates: integers modulo a fixed extent.
//!
//! The arithmetic itself is done by `bare_metal_modulo::ModNumC`; the
//! functions here pass plain numbers in and out of it. Their contracts are the
//! only part of this crate that is stated without proof.

use bare_metal_modulo::{MNum, ModNumC, ModNumIterator};
use vstd::prelude::*;

verus! {

/// The sum of two ring values, wrapped into `[0, m)`.
pub open spec fn wrap_add(a: int, b: int, m: int) -> int {
    (a + b) % m
}

/// The ring value `a` less the plain number `n`, wrapped into `[0, m)`.
pub open spec fn wrap_sub(a: int, n: int, m: int) -> int {
    (a + m - n % m) % m
}

/// `ModNumC::<usize, M>::new(n).a()`: the representative of `n` in `[0, M)`.
/// Trusted: the constructor reduces its argument by `mod_floor` with `M`.
#[verifier::external_body]
pub(crate) fn ring_new<const M: usize>(n: usize) -> (r: usize)
    requires
        M > 0,
    ensures
        r == n % M,
{
    ModNumC::<usize, M>::new(n).a()
}

/// `ModNumC + ModNumC` on the ring of `M` elements, for two reduced values.
/// Trusted: the sum is rebuilt by the constructor from the plain sum of the
/// two representatives, which reduces it by `M`.
#[verifier::external_body]
pub(crate) fn ring_add<const M: usize>(a: usize, b: usize) -> (r: usize)
    requires
        M > 0,
        a < M,
        b < M,
        a + b <= usize::MAX,
    ensures
        r == wrap_add(a as int, b as int, M as int),
{
    let mut x = ModNumC::<usize, M>::new(a);
    x += ModNumC::<usize, M>::new(b);
    x.a()
}

/// `ModNumC + usize` on the ring of `M` elements: a reduced value moved
/// forward by a plain number. Trusted: the plain number is added to the
/// representative and the constructor reduces the sum by `M`.
#[verifier::external_body]
pub(crate) fn ring_add_plain<const M: usize>(a: usize, n: usize) -> (r: usize)
    requires
        M > 0,
        a < M,
        a + n <= usize::MAX,
    ensures
        r == wrap_add(a as int, n as int, M as int),
{
    let mut x = ModNumC::<usize, M>::new(a);
    x += n;
    x.a()
}

/// `ModNumC - usize` on the ring of `M` elements: a reduced value moved back
/// by a plain number. Trusted: the crate reduces the number by `M`, takes the
/// difference of `M` and that, and adds it as `ModNumC + usize` does.
#[verifier::external_body]
pub(crate) fn ring_sub_plain<const M: usize>(a: usize, n: usize) -> (r: usize)
    requires
        M > 0,
        a < M,
        a + M <= usize::MAX,
    ensures
        r == wrap_sub(a as int, n as int, M as int),
{
    let mut x = ModNumC::<usize, M>::new(a);
    x -= n;
    x.a()
}

/// `ModNumIterator::new` run to its end: the full walk round the ring of `M`
/// elements that starts at a reduced value. Trusted: the iterator hands out
/// the start, then each successor in turn, and stops after `M` values, just
/// before it would hand out the start again.
#[verifier::external_body]
pub(crate) fn ring_walk<const M: usize>(start: usize) -> (r: Vec<usize>)
    requires
        M > 0,
        start < M,
        start + M <= usize::MAX,
    ensures
        r@.len() == M,
        forall|i: int| 0 <= i < M ==> #[trigger] r@[i] == wrap_add(start as int, i, M as int),
{
    ModNumIterator::new(ModNumC::<usize, M>::new(start)).map(|x| x.a()).collect()
}

} // verus!
