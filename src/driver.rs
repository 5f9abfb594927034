use vstd::prelude::*;

use crate::lane::Lane;

verus! {

/// Number of datasets in a pool.
pub const M: usize = 300;

/// Number of records in a benchmark dataset.
pub const N: usize = 256;

/// Distance the pool cursor moves between two timed calls.
pub const STRIDE: usize = 7;

/// Builds a pool of `M` datasets, dataset `seed` being `f(seed)`.
pub fn make_datasets<T, F: Fn(usize) -> T>(f: F) -> (r: Vec<T>)
    requires
        forall|seed: usize| seed < M ==> #[trigger] f.requires((seed,)),
    ensures
        r@.len() == M,
        forall|seed: int| 0 <= seed < M ==> f.ensures((seed as usize,), #[trigger] r@[seed]),
{
    let mut v: Vec<T> = Vec::with_capacity(M);
    let mut seed: usize = 0;
    while seed < M
        invariant
            seed <= M,
            v@.len() == seed,
            forall|s: usize| s < M ==> #[trigger] f.requires((s,)),
            forall|s: int| 0 <= s < seed ==> f.ensures((s as usize,), #[trigger] v@[s]),
        decreases M - seed,
    {
        v.push(f(seed));
        seed += 1;
    }
    v
}

/// The pool position after `cursor` when the cursor moves `stride` places
/// through a pool of `pool_size` datasets, wrapping around at the end.
pub fn next_cursor(cursor: usize, stride: usize, pool_size: usize) -> (r: usize)
    requires
        pool_size > 0,
        cursor < pool_size,
    ensures
        r == (cursor + stride) % (pool_size as int),
        r < pool_size,
{
    let s = stride % pool_size;
    let room = pool_size - cursor;
    proof {
        vstd::arithmetic::div_mod::lemma_add_mod_noop(cursor as int, stride as int, pool_size as int);
        vstd::arithmetic::div_mod::lemma_small_mod(cursor as nat, pool_size as nat);
    }
    if s >= room {
        let r = s - room;
        proof {
            vstd::arithmetic::div_mod::lemma_mod_sub_multiples_vanish((cursor + s) as int, pool_size as int);
            vstd::arithmetic::div_mod::lemma_small_mod(r as nat, pool_size as nat);
        }
        r
    } else {
        let r = cursor + s;
        proof {
            vstd::arithmetic::div_mod::lemma_small_mod(r as nat, pool_size as nat);
        }
        r
    }
}

/// A five-field struct-of-arrays dataset with named fields.
pub struct Data<L> {
    pub a: Vec<L>,
    pub b: Vec<L>,
    pub c: Vec<L>,
    pub d: Vec<L>,
    pub e: Vec<L>,
}

/// `n` copies of `v`.
pub open spec fn repeated<L>(v: L, n: nat) -> Seq<L> {
    Seq::new(n, |i: int| v)
}

fn splat_vec<L: Lane>(value: usize, n: usize) -> (r: Vec<L>)
    ensures
        r@ == repeated(L::splat_spec(value as int), n as nat),
{
    let x = L::splat(value);
    let mut r: Vec<L> = Vec::with_capacity(n);
    let mut i: usize = 0;
    while i < n
        invariant
            i <= n,
            x == L::splat_spec(value as int),
            r@ =~= repeated(x, i as nat),
        decreases n - i,
    {
        r.push(x);
        i += 1;
    }
    r
}

/// A dataset of `N` records whose fields are constants: `a = 4`, `b = 1`,
/// `c = 3`, `d = 2`, `e = 5`, broadcast to every lane.
pub fn make_data<L: Lane>() -> (r: Data<L>)
    ensures
        r.a@ == repeated(L::splat_spec(4), N as nat),
        r.b@ == repeated(L::splat_spec(1), N as nat),
        r.c@ == repeated(L::splat_spec(3), N as nat),
        r.d@ == repeated(L::splat_spec(2), N as nat),
        r.e@ == repeated(L::splat_spec(5), N as nat),
{
    Data {
        b: splat_vec(1, N),
        d: splat_vec(2, N),
        c: splat_vec(3, N),
        a: splat_vec(4, N),
        e: splat_vec(5, N),
    }
}

} // verus!
