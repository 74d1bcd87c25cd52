//! Algebraic operations on vectors.
//!
//! A vector is an ordered sequence of scalars of one capability-bearing
//! type. Every binary operation works over the range shared by its two
//! operands: when the lengths differ it silently truncates to the shorter
//! one, by design, and leaves the extra components of the longer operand
//! untouched. Out-of-range access is impossible by construction and no
//! operation here returns a runtime error.

use vstd::prelude::*;
use crate::traits::{ConvertTo, IsField, IsNumerical};

verus! {

/// The length of the range that a binary vector operation works over:
/// the length of the shorter of the two operands.
pub open spec fn min_len<T, U>(u: Seq<T>, v: Seq<U>) -> int {
    if u.len() <= v.len() {
        u.len() as int
    } else {
        v.len() as int
    }
}

/// The dot product of the first `n` components of `u` and `v`, folded
/// from the additive identity upward.
pub open spec fn dot_prefix<T: IsNumerical>(u: Seq<T>, v: Seq<T>, n: int) -> T
    decreases n,
{
    if n <= 0 {
        T::zero_spec()
    } else {
        dot_prefix(u, v, n - 1).add_spec(u[n - 1].mul_spec(v[n - 1]))
    }
}

/// The dot product of `u` and `v`, taken over the shorter length.
pub open spec fn dot_spec<T: IsNumerical>(u: Seq<T>, v: Seq<T>) -> T {
    dot_prefix(u, v, min_len(u, v))
}

/// Creates a new vector holding the same scalars as the input, in
/// independent storage: mutating one never affects the other.
pub fn copy<T: Copy>(u: &Vec<T>) -> (v: Vec<T>)
    ensures
        v@ == u@,
{
    let mut v: Vec<T> = Vec::new();
    let mut i: usize = 0;
    while i < u.len()
        invariant
            i <= u@.len(),
            v@ == u@.take(i as int),
        decreases u@.len() - i,
    {
        v.push(u[i]);
        proof {
            assert(v@ =~= u@.take((i + 1) as int));
        }
        i += 1;
    }
    proof {
        assert(u@.take(u@.len() as int) =~= u@);
    }
    v
}

/// The elements of `u` standing over a `true` mark in `keep`, in their
/// original order.
pub open spec fn filter_by<T>(u: Seq<T>, keep: Seq<bool>) -> Seq<T>
    recommends
        keep.len() == u.len(),
    decreases u.len(),
{
    if u.len() == 0 {
        Seq::empty()
    } else {
        let rest = filter_by(u.drop_last(), keep.drop_last());
        if keep[u.len() - 1] {
            rest.push(u.last())
        } else {
            rest
        }
    }
}

/// When each mark agrees with a predicate on the element under it,
/// selecting by the marks is the same as filtering by the predicate: the
/// result holds exactly the elements satisfying the predicate, in their
/// original relative order.
pub proof fn lemma_filter_by_matches<T>(u: Seq<T>, keep: Seq<bool>, p: spec_fn(T) -> bool)
    requires
        keep.len() == u.len(),
        forall|i: int| 0 <= i < u.len() ==> keep[i] == p(u[i]),
    ensures
        filter_by(u, keep) == u.filter(p),
    decreases u.len(),
{
    reveal(Seq::filter);
    if u.len() == 0 {
        assert(filter_by(u, keep) =~= u.filter(p));
    } else {
        assert(forall|i: int|
            0 <= i < u.drop_last().len() ==> u.drop_last()[i] == u[i]);
        assert(forall|i: int|
            0 <= i < keep.drop_last().len() ==> keep.drop_last()[i] == keep[i]);
        lemma_filter_by_matches(u.drop_last(), keep.drop_last(), p);
    }
}

/// Creates a new vector holding, in their original order, exactly those
/// elements of `u` for which the predicate returned `true`. The marks the
/// predicate produced are reflected in the contract, so a predicate that
/// implements a specification-level condition yields `u@.filter` of that
/// condition (see [`lemma_filter_by_matches`]).
pub fn filtered_copy<T: Copy, F: Fn(T) -> bool>(u: &Vec<T>, predicate: F) -> (r: Vec<T>)
    requires
        forall|i: int| 0 <= i < u@.len() ==> call_requires(predicate, (u@[i],)),
    ensures
        r@.len() <= u@.len(),
        exists|keep: Seq<bool>|
            {
                &&& keep.len() == u@.len()
                &&& forall|i: int|
                    0 <= i < u@.len() ==> call_ensures(predicate, (u@[i],), keep[i])
                &&& r@ == #[trigger] filter_by(u@, keep)
            },
{
    let mut r: Vec<T> = Vec::new();
    let ghost mut keep: Seq<bool> = Seq::empty();
    let mut i: usize = 0;
    while i < u.len()
        invariant
            i <= u@.len(),
            keep.len() == i,
            forall|t: int| 0 <= t < u@.len() ==> call_requires(predicate, (u@[t],)),
            forall|t: int| 0 <= t < i ==> call_ensures(predicate, (u@[t],), keep[t]),
            r@ == filter_by(u@.take(i as int), keep),
            r@.len() <= i,
        decreases u@.len() - i,
    {
        let x = u[i];
        let chosen = predicate(x);
        if chosen {
            r.push(x);
        }
        proof {
            let former = keep;
            let prefix = u@.take((i + 1) as int);
            keep = keep.push(chosen);
            assert(prefix.len() == i + 1);
            assert(prefix.drop_last() =~= u@.take(i as int));
            assert(keep.drop_last() =~= former);
            assert(keep[i as int] == chosen);
            assert(prefix.last() == u@[i as int]);
            assert(filter_by(prefix, keep) == (if chosen {
                filter_by(u@.take(i as int), former).push(u@[i as int])
            } else {
                filter_by(u@.take(i as int), former)
            }));
        }
        i += 1;
    }
    proof {
        assert(u@.take(u@.len() as int) =~= u@);
    }
    r
}

/// Scales every element of `u` in place by the coefficient `a`.
pub fn scale<T: IsField>(u: &mut Vec<T>, a: T)
    ensures
        final(u)@.len() == old(u)@.len(),
        forall|i: int| 0 <= i < old(u)@.len() ==> final(u)@[i] == old(u)@[i].mul_spec(a),
{
    let mut i: usize = 0;
    while i < u.len()
        invariant
            i <= u@.len(),
            u@.len() == old(u)@.len(),
            forall|t: int| 0 <= t < i ==> u@[t] == old(u)@[t].mul_spec(a),
            forall|t: int| i <= t < u@.len() ==> u@[t] == old(u)@[t],
        decreases u@.len() - i,
    {
        let mut x = u[i];
        x.mul_assign(a);
        u[i] = x;
        i += 1;
    }
}

/// Sets every element of `u` in place to the additive identity, by
/// scaling with it.
pub fn zero<T: IsField>(u: &mut Vec<T>)
    ensures
        final(u)@.len() == old(u)@.len(),
        forall|i: int| 0 <= i < old(u)@.len() ==> final(u)@[i] == T::zero_spec(),
{
    scale(u, T::zero());
    proof {
        assert forall|i: int| 0 <= i < old(u)@.len() implies u@[i] == T::zero_spec() by {
            T::zero_muls(old(u)@[i]);
        }
    }
}

/// Computes the dot product of two vectors of the same scalar type,
/// over the range shared by both: extra components of the longer vector
/// are ignored. Length mismatch is not an error.
pub fn dot<U: IsNumerical>(u: &Vec<U>, v: &Vec<U>) -> (r: U)
    ensures
        r == dot_spec(u@, v@),
{
    let n: usize = if u.len() <= v.len() {
        u.len()
    } else {
        v.len()
    };
    let mut res = U::zero();
    let mut i: usize = 0;
    while i < n
        invariant
            n == min_len(u@, v@),
            i <= n,
            n <= u@.len(),
            n <= v@.len(),
            res == dot_prefix(u@, v@, i as int),
        decreases n - i,
    {
        res = res.add(u[i].mul(v[i]));
        i += 1;
    }
    res
}

/// Computes the square norm of a vector: its dot product with itself.
pub fn square_norm<T: IsNumerical>(u: &Vec<T>) -> (r: T)
    ensures
        r == dot_spec(u@, u@),
{
    dot(u, u)
}

/// The accumulated dot product of the first `n` components of `u` and
/// `v`, each product term converted into the destination type before
/// being added.
pub open spec fn dot_in_prefix<W: IsNumerical, U: IsNumerical + ConvertTo<W>>(
    u: Seq<U>,
    v: Seq<U>,
    n: int,
) -> W
    decreases n,
{
    if n <= 0 {
        W::zero_spec()
    } else {
        dot_in_prefix(u, v, n - 1).add_spec(u[n - 1].mul_spec(v[n - 1]).to_spec())
    }
}

/// The dot product of `u` and `v` carried into the destination type,
/// taken over the shorter length.
pub open spec fn dot_in_spec<W: IsNumerical, U: IsNumerical + ConvertTo<W>>(
    u: Seq<U>,
    v: Seq<U>,
) -> W {
    dot_in_prefix(u, v, min_len(u, v))
}

/// Computes the dot product of two vectors of one scalar type into a
/// destination of a possibly wider type: the destination is reset to the
/// additive identity first, and each product term is converted into the
/// destination type before being accumulated.
pub fn dot_in<W: IsNumerical, U: IsNumerical + ConvertTo<W>>(dest: &mut W, u: &Vec<U>, v: &Vec<U>)
    ensures
        *final(dest) == dot_in_spec::<W, U>(u@, v@),
{
    let n: usize = if u.len() <= v.len() {
        u.len()
    } else {
        v.len()
    };
    *dest = W::zero();
    let mut i: usize = 0;
    while i < n
        invariant
            n == min_len(u@, v@),
            i <= n,
            n <= u@.len(),
            n <= v@.len(),
            *dest == dot_in_prefix::<W, U>(u@, v@, i as int),
        decreases n - i,
    {
        let term = u[i].mul(v[i]).convert();
        let mut acc = *dest;
        acc.add_assign(term);
        *dest = acc;
        i += 1;
    }
}

/// The linear combination `a * u + b * v`, component by component, over
/// the shorter length.
pub open spec fn lin_com_spec<T: IsNumerical>(a: T, u: Seq<T>, b: T, v: Seq<T>) -> Seq<T> {
    Seq::new(
        min_len(u, v) as nat,
        |i: int| a.mul_spec(u[i]).add_spec(b.mul_spec(v[i])),
    )
}

/// Creates the linear combination `a * u + b * v`. The result has the
/// length of the shorter input; extra components of the longer input are
/// ignored.
pub fn lin_com<T: IsNumerical>(a: T, u: &Vec<T>, b: T, v: &Vec<T>) -> (w: Vec<T>)
    ensures
        w@ == lin_com_spec(a, u@, b, v@),
        w@.len() == min_len(u@, v@),
{
    let n: usize = if u.len() <= v.len() {
        u.len()
    } else {
        v.len()
    };
    let mut w: Vec<T> = Vec::new();
    let mut i: usize = 0;
    while i < n
        invariant
            n == min_len(u@, v@),
            i <= n,
            n <= u@.len(),
            n <= v@.len(),
            w@.len() == i,
            forall|t: int| 0 <= t < i ==> w@[t] == a.mul_spec(u@[t]).add_spec(b.mul_spec(v@[t])),
        decreases n - i,
    {
        w.push(a.mul(u[i]).add(b.mul(v[i])));
        i += 1;
    }
    proof {
        assert(w@ =~= lin_com_spec(a, u@, b, v@));
    }
    w
}

/// Accumulates a scaled vector in place: `u[i]` becomes
/// `u[i] + convert(a) * convert(v[i])`, over the shorter length. The
/// coefficient and the second vector may be of other scalar types, as
/// long as they convert into the element type of `u`; components of `u`
/// beyond the shared range are left unmodified.
pub fn mlt_add<U, A, V>(u: &mut Vec<U>, a: A, v: &Vec<V>) where
    U: IsNumerical,
    A: IsNumerical + ConvertTo<U>,
    V: IsNumerical + ConvertTo<U>,

    ensures
        final(u)@.len() == old(u)@.len(),
        forall|i: int|
            0 <= i < min_len(old(u)@, v@) ==> final(u)@[i] == old(u)@[i].add_spec(
                a.to_spec().mul_spec(v@[i].to_spec()),
            ),
        forall|i: int|
            min_len(old(u)@, v@) <= i < old(u)@.len() ==> final(u)@[i] == old(u)@[i],
{
    let n: usize = if u.len() <= v.len() {
        u.len()
    } else {
        v.len()
    };
    let mut i: usize = 0;
    while i < n
        invariant
            n == min_len(old(u)@, v@),
            i <= n,
            n <= v@.len(),
            u@.len() == old(u)@.len(),
            n <= u@.len(),
            forall|t: int|
                0 <= t < i ==> u@[t] == old(u)@[t].add_spec(a.to_spec().mul_spec(v@[t].to_spec())),
            forall|t: int| i <= t < u@.len() ==> u@[t] == old(u)@[t],
        decreases n - i,
    {
        let term = a.convert().mul(v[i].convert());
        let mut x = u[i];
        x.add_assign(term);
        u[i] = x;
        i += 1;
    }
}

proof fn lemma_dot_prefix_commutes<T: IsNumerical>(u: Seq<T>, v: Seq<T>, n: int)
    requires
        n <= u.len(),
        n <= v.len(),
    ensures
        dot_prefix(u, v, n) == dot_prefix(v, u, n),
    decreases n,
{
    if n > 0 {
        lemma_dot_prefix_commutes(u, v, n - 1);
        T::mul_commutes(u[n - 1], v[n - 1]);
    }
}

/// The dot product is commutative: for all same-type vectors `u` and
/// `v`, `dot(u, v) == dot(v, u)`.
pub proof fn lemma_dot_commutes<T: IsNumerical>(u: Seq<T>, v: Seq<T>)
    ensures
        dot_spec(u, v) == dot_spec(v, u),
{
    lemma_dot_prefix_commutes(u, v, min_len(u, v));
}

proof fn lemma_dot_prefix_take<T: IsNumerical>(u: Seq<T>, v: Seq<T>, m: int, n: int)
    requires
        0 <= n <= m,
        m <= u.len(),
        m <= v.len(),
    ensures
        dot_prefix(u, v, n) == dot_prefix(u.take(m), v.take(m), n),
    decreases n,
{
    if n > 0 {
        lemma_dot_prefix_take(u, v, m, n - 1);
    }
}

/// The dot product reads exactly the shared prefix of its operands:
/// components beyond the shorter length have no bearing on the result.
pub proof fn lemma_dot_truncates<T: IsNumerical>(u: Seq<T>, v: Seq<T>)
    ensures
        dot_spec(u, v) == dot_spec(u.take(min_len(u, v)), v.take(min_len(u, v))),
{
    let m = min_len(u, v);
    lemma_dot_prefix_take(u, v, m, m);
}

proof fn lemma_dot_prefix_of_zeros<T: IsNumerical>(u: Seq<T>, v: Seq<T>, n: int)
    requires
        n <= u.len(),
        n <= v.len(),
        forall|i: int| 0 <= i < n ==> u[i] == T::zero_spec(),
    ensures
        dot_prefix(u, v, n) == T::zero_spec(),
    decreases n,
{
    if n > 0 {
        lemma_dot_prefix_of_zeros(u, v, n - 1);
        T::zero_muls(v[n - 1]);
        T::zero_adds(T::zero_spec());
    }
}

/// A vector whose components are all the additive identity has a dot
/// product of the additive identity with any vector; in particular,
/// zeroing a vector and dotting it with itself yields the scalar zero.
pub proof fn lemma_dot_zero<T: IsNumerical>(u: Seq<T>, v: Seq<T>)
    requires
        forall|i: int| 0 <= i < u.len() ==> u[i] == T::zero_spec(),
    ensures
        dot_spec(u, v) == T::zero_spec(),
{
    lemma_dot_prefix_of_zeros(u, v, min_len(u, v));
}

} // verus!
