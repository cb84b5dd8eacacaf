//! Number types that compute exactly.
//!
//! The tracer is proved for whatever numbers the operations of a
//! [`Component`] give. What it computes is right in the sense of geometry
//! only as far as those numbers are: this module says what it means for a
//! number type to compute exactly, and derives the arithmetic that the laws
//! of [`geometry`](crate::geometry) rest on.

use crate::component::{one, two, zero, Component};
use vstd::prelude::*;

verus! {

/// Whether sums, differences and products on `S` are exact: they obey the
/// laws of a commutative ring, in which two is one and one.
///
/// A number type that rounds, as floating-point and fixed-point numbers do,
/// is not exact, and what is proved here holds for it only up to rounding.
#[verifier::opaque]
pub open spec fn is_exact<S: Component>() -> bool {
    &&& forall|a: S, b: S| #[trigger] a.sum(b) == b.sum(a)
    &&& forall|a: S, b: S, c: S| #[trigger] a.sum(b).sum(c) == a.sum(b.sum(c))
    &&& forall|a: S| #[trigger] zero::<S>().sum(a) == a
    &&& forall|a: S| #[trigger] a.sum(a.negation()) == zero::<S>()
    &&& forall|a: S, b: S| #[trigger] a.difference(b) == a.sum(b.negation())
    &&& forall|a: S, b: S| #[trigger] a.product(b) == b.product(a)
    &&& forall|a: S, b: S, c: S| #[trigger] a.product(b).product(c) == a.product(b.product(c))
    &&& forall|a: S| #[trigger] one::<S>().product(a) == a
    &&& forall|a: S, b: S, c: S|
        #[trigger] a.sum(b).product(c) == a.product(c).sum(b.product(c))
    &&& two::<S>() == one::<S>().sum(one::<S>())
}

/// `a + b == b + a`.
pub proof fn lemma_sum_commutes<S: Component>(a: S, b: S)
    requires
        is_exact::<S>(),
    ensures
        a.sum(b) == b.sum(a),
{
    reveal(is_exact);
}

/// `(a + b) + c == a + (b + c)`.
pub proof fn lemma_sum_associates<S: Component>(a: S, b: S, c: S)
    requires
        is_exact::<S>(),
    ensures
        a.sum(b).sum(c) == a.sum(b.sum(c)),
{
    reveal(is_exact);
}

/// `0 + a == a`, `a + 0 == a`, `a + -a == 0` and `-a + a == 0`.
pub proof fn lemma_zero_and_negation<S: Component>(a: S)
    requires
        is_exact::<S>(),
    ensures
        zero::<S>().sum(a) == a,
        a.sum(zero()) == a,
        a.sum(a.negation()) == zero::<S>(),
        a.negation().sum(a) == zero::<S>(),
{
    reveal(is_exact);
    assert(a.sum(zero()) == zero::<S>().sum(a));
    assert(a.negation().sum(a) == a.sum(a.negation()));
}

/// `a - b == a + -b`.
pub proof fn lemma_difference_is_sum<S: Component>(a: S, b: S)
    requires
        is_exact::<S>(),
    ensures
        a.difference(b) == a.sum(b.negation()),
{
    reveal(is_exact);
}

/// `a * b == b * a`.
pub proof fn lemma_product_commutes<S: Component>(a: S, b: S)
    requires
        is_exact::<S>(),
    ensures
        a.product(b) == b.product(a),
{
    reveal(is_exact);
}

/// `(a * b) * c == a * (b * c)`.
pub proof fn lemma_product_associates<S: Component>(a: S, b: S, c: S)
    requires
        is_exact::<S>(),
    ensures
        a.product(b).product(c) == a.product(b.product(c)),
{
    reveal(is_exact);
}

/// `(a + b) * c == a * c + b * c`.
pub proof fn lemma_product_distributes<S: Component>(a: S, b: S, c: S)
    requires
        is_exact::<S>(),
    ensures
        a.sum(b).product(c) == a.product(c).sum(b.product(c)),
{
    reveal(is_exact);
}

/// `1 * a == a` and `2 * a == a + a`.
pub proof fn lemma_one_and_two<S: Component>(a: S)
    requires
        is_exact::<S>(),
    ensures
        one::<S>().product(a) == a,
        two::<S>().product(a) == a.sum(a),
{
    reveal(is_exact);
    assert(one::<S>().sum(one::<S>()).product(a) == one::<S>().product(a).sum(
        one::<S>().product(a),
    ));
}

/// What adds up to zero with `x` is `-x`.
pub proof fn lemma_negation_is_unique<S: Component>(x: S, y: S)
    requires
        is_exact::<S>(),
        x.sum(y) == zero::<S>(),
    ensures
        y == x.negation(),
{
    let nx = x.negation();
    lemma_zero_and_negation(y);
    lemma_zero_and_negation(x);
    lemma_zero_and_negation(nx);
    lemma_sum_associates(nx, x, y);
    // y == 0 + y == (-x + x) + y == -x + (x + y) == -x + 0 == -x
}

/// `-(a + b) == -a + -b`.
pub proof fn lemma_negation_of_sum<S: Component>(a: S, b: S)
    requires
        is_exact::<S>(),
    ensures
        a.sum(b).negation() == a.negation().sum(b.negation()),
{
    let na = a.negation();
    let nb = b.negation();
    // (a + b) + (-a + -b) == a + ((b + -a) + -b) == a + ((-a + b) + -b)
    //     == a + (-a + (b + -b)) == a + (-a + 0) == a + -a == 0
    lemma_sum_associates(a, b, na.sum(nb));
    lemma_sum_associates(b, na, nb);
    lemma_sum_commutes(b, na);
    lemma_sum_associates(na, b, nb);
    lemma_zero_and_negation(b);
    lemma_zero_and_negation(na);
    lemma_zero_and_negation(a);
    lemma_negation_is_unique(a.sum(b), na.sum(nb));
}

/// `0 * c == 0`.
pub proof fn lemma_zero_times<S: Component>(c: S)
    requires
        is_exact::<S>(),
    ensures
        zero::<S>().product(c) == zero::<S>(),
{
    let z = zero::<S>();
    let p = z.product(c);
    // p == (0 + 0) * c == p + p, so 0 == p + -p == (p + p) + -p == p + (p + -p) == p
    lemma_zero_and_negation(z);
    lemma_product_distributes(z, z, c);
    lemma_sum_associates(p, p, p.negation());
    lemma_zero_and_negation(p);
}

/// `(-b) * c == -(b * c)`.
pub proof fn lemma_negation_times<S: Component>(b: S, c: S)
    requires
        is_exact::<S>(),
    ensures
        b.negation().product(c) == b.product(c).negation(),
{
    lemma_product_distributes(b, b.negation(), c);
    lemma_zero_and_negation(b);
    lemma_zero_times(c);
    lemma_negation_is_unique(b.product(c), b.negation().product(c));
}

/// `(a - b) * c == a * c - b * c`.
pub proof fn lemma_difference_times<S: Component>(a: S, b: S, c: S)
    requires
        is_exact::<S>(),
    ensures
        a.difference(b).product(c) == a.product(c).difference(b.product(c)),
{
    lemma_difference_is_sum(a, b);
    lemma_product_distributes(a, b.negation(), c);
    lemma_negation_times(b, c);
    lemma_difference_is_sum(a.product(c), b.product(c));
}

/// `(a - b) + (c - d) == (a + c) - (b + d)`.
pub proof fn lemma_sum_of_differences<S: Component>(a: S, b: S, c: S, d: S)
    requires
        is_exact::<S>(),
    ensures
        a.difference(b).sum(c.difference(d)) == a.sum(c).difference(b.sum(d)),
{
    let nb = b.negation();
    let nd = d.negation();
    lemma_difference_is_sum(a, b);
    lemma_difference_is_sum(c, d);
    lemma_difference_is_sum(a.sum(c), b.sum(d));
    lemma_negation_of_sum(b, d);
    // (a + -b) + (c + -d) == a + ((-b + c) + -d) == a + ((c + -b) + -d)
    //     == a + (c + (-b + -d)) == (a + c) + (-b + -d)
    lemma_sum_associates(a, nb, c.sum(nd));
    lemma_sum_associates(nb, c, nd);
    lemma_sum_commutes(nb, c);
    lemma_sum_associates(c, nb, nd);
    lemma_sum_associates(a, c, nb.sum(nd));
}

/// `k - 2 * k == -k`.
pub proof fn lemma_less_twice<S: Component>(k: S)
    requires
        is_exact::<S>(),
    ensures
        k.difference(two::<S>().product(k)) == k.negation(),
{
    let nk = k.negation();
    // k - (k + k) == k + (-k + -k) == (k + -k) + -k == 0 + -k == -k
    lemma_one_and_two(k);
    lemma_difference_is_sum(k, k.sum(k));
    lemma_negation_of_sum(k, k);
    lemma_sum_associates(k, nk, nk);
    lemma_zero_and_negation(k);
    lemma_zero_and_negation(nk);
}

/// `(a * k) * c == (a * c) * k`.
pub proof fn lemma_factor_moves<S: Component>(a: S, k: S, c: S)
    requires
        is_exact::<S>(),
    ensures
        a.product(k).product(c) == a.product(c).product(k),
{
    // (a * k) * c == a * (k * c) == a * (c * k) == (a * c) * k
    lemma_product_associates(a, k, c);
    lemma_product_commutes(k, c);
    lemma_product_associates(a, c, k);
}

/// `0 == 0 - 0`.
pub proof fn lemma_zero_less_zero<S: Component>()
    requires
        is_exact::<S>(),
    ensures
        zero::<S>() == zero::<S>().difference(zero::<S>()),
{
    lemma_difference_is_sum(zero::<S>(), zero::<S>());
    lemma_zero_and_negation(zero::<S>());
}

/// `(a + b) + (c + d) == (a + c) + (b + d)`.
pub proof fn lemma_sum_of_sums<S: Component>(a: S, b: S, c: S, d: S)
    requires
        is_exact::<S>(),
    ensures
        a.sum(b).sum(c.sum(d)) == a.sum(c).sum(b.sum(d)),
{
    // (a + b) + (c + d) == a + ((b + c) + d) == a + ((c + b) + d)
    //     == a + (c + (b + d)) == (a + c) + (b + d)
    lemma_sum_associates(a, b, c.sum(d));
    lemma_sum_associates(b, c, d);
    lemma_sum_commutes(b, c);
    lemma_sum_associates(c, b, d);
    lemma_sum_associates(a, c, b.sum(d));
}

/// `-(-a) == a`.
pub proof fn lemma_negation_of_negation<S: Component>(a: S)
    requires
        is_exact::<S>(),
    ensures
        a.negation().negation() == a,
{
    lemma_zero_and_negation(a);
    lemma_negation_is_unique(a.negation(), a);
}

/// `c * a - c * b == c * (a - b)`.
pub proof fn lemma_times_difference<S: Component>(c: S, a: S, b: S)
    requires
        is_exact::<S>(),
    ensures
        c.product(a).difference(c.product(b)) == c.product(a.difference(b)),
{
    lemma_difference_times(a, b, c);
    lemma_product_commutes(a, c);
    lemma_product_commutes(b, c);
    lemma_product_commutes(a.difference(b), c);
}

/// `(a - b) - a == -b`.
pub proof fn lemma_less_itself<S: Component>(a: S, b: S)
    requires
        is_exact::<S>(),
    ensures
        a.difference(b).difference(a) == b.negation(),
{
    let na = a.negation();
    let nb = b.negation();
    // (a + -b) + -a == (-b + a) + -a == -b + (a + -a) == -b + 0 == -b
    lemma_difference_is_sum(a, b);
    lemma_difference_is_sum(a.difference(b), a);
    lemma_sum_commutes(a, nb);
    lemma_sum_associates(nb, a, na);
    lemma_zero_and_negation(a);
    lemma_zero_and_negation(nb);
}

/// `(o + h) - c == h - (c - o)`.
pub proof fn lemma_from_the_other_end<S: Component>(o: S, h: S, c: S)
    requires
        is_exact::<S>(),
    ensures
        o.sum(h).difference(c) == h.difference(c.difference(o)),
{
    let no = o.negation();
    let nc = c.negation();
    // h - (c - o) == h + -(c + -o) == h + (-c + o) == h + (o + -c)
    //     == (h + o) + -c == (o + h) + -c == (o + h) - c
    lemma_difference_is_sum(c, o);
    lemma_difference_is_sum(h, c.difference(o));
    lemma_negation_of_sum(c, no);
    lemma_negation_of_negation(o);
    lemma_sum_commutes(nc, o);
    lemma_sum_associates(h, o, nc);
    lemma_sum_commutes(h, o);
    lemma_difference_is_sum(o.sum(h), c);
}

/// `(a - b) - (-b) == a`.
pub proof fn lemma_less_and_more<S: Component>(a: S, b: S)
    requires
        is_exact::<S>(),
    ensures
        a.difference(b).difference(b.negation()) == a,
{
    let nb = b.negation();
    // (a + -b) + -(-b) == (a + -b) + b == a + (-b + b) == a + 0 == a
    lemma_difference_is_sum(a, b);
    lemma_difference_is_sum(a.difference(b), nb);
    lemma_negation_of_negation(b);
    lemma_sum_associates(a, nb, b);
    lemma_zero_and_negation(b);
    lemma_zero_and_negation(a);
}

/// Whether quotients, roots and comparisons on `S` are exact as well: `S`
/// is exact, division by a number above zero undoes the product with it, the
/// root undoes the square, no square and no root is below zero, one is above
/// zero, `<` is transitive and goes one way only, the negation of a number
/// above zero and the product of a number below zero with one above zero are
/// below zero, and `same` tells whether two numbers are one number.
#[verifier::opaque]
pub open spec fn is_exact_field<S: Component>() -> bool {
    &&& is_exact::<S>()
    &&& zero::<S>().less(one())
    &&& forall|a: S, b: S, c: S| #[trigger] a.less(b) && #[trigger] b.less(c) ==> a.less(c)
    &&& forall|a: S, b: S| #[trigger] a.same(b) == (a == b)
    &&& forall|a: S, b: S| zero::<S>().less(b) ==> (#[trigger] a.quotient(b)).product(b) == a
    &&& forall|a: S, b: S| zero::<S>().less(b) ==> #[trigger] a.product(b).quotient(b) == a
    &&& forall|a: S| zero::<S>().less(#[trigger] a.root()) ==> a.root().product(a.root()) == a
    &&& forall|a: S| zero::<S>().less(a) ==> #[trigger] a.product(a).root() == a
    &&& forall|a: S| !#[trigger] a.product(a).less(zero())
    &&& forall|a: S| !(#[trigger] a.root()).less(zero())
    &&& forall|a: S, b: S| #[trigger] a.less(b) ==> !b.less(a)
    &&& forall|a: S| zero::<S>().less(a) ==> (#[trigger] a.negation()).less(zero())
    &&& forall|a: S, b: S|
        a.less(zero()) && zero::<S>().less(b) ==> (#[trigger] a.product(b)).less(zero())
}

/// An exact field is exact, with one above zero.
pub proof fn lemma_field_is_exact<S: Component>()
    requires
        is_exact_field::<S>(),
    ensures
        is_exact::<S>(),
        zero::<S>().less(one()),
{
    reveal(is_exact_field);
}

/// `a < b` and `b < c` give `a < c`.
pub proof fn lemma_less_is_transitive<S: Component>(a: S, b: S, c: S)
    requires
        is_exact_field::<S>(),
        a.less(b),
        b.less(c),
    ensures
        a.less(c),
{
    reveal(is_exact_field);
}

/// `same` tells whether two numbers are one number.
pub proof fn lemma_same_is_equal<S: Component>(a: S, b: S)
    requires
        is_exact_field::<S>(),
    ensures
        a.same(b) == (a == b),
{
    reveal(is_exact_field);
}

/// `(a / b) * b == a` and `(a * b) / b == a` for `b` above zero.
pub proof fn lemma_quotient_undoes_product<S: Component>(a: S, b: S)
    requires
        is_exact_field::<S>(),
        zero::<S>().less(b),
    ensures
        a.quotient(b).product(b) == a,
        a.product(b).quotient(b) == a,
{
    reveal(is_exact_field);
}

/// A root above zero is the root of its square, and the root of the square
/// of a number above zero is the number.
pub proof fn lemma_root_undoes_square<S: Component>(a: S)
    requires
        is_exact_field::<S>(),
    ensures
        zero::<S>().less(a.root()) ==> a.root().product(a.root()) == a,
        zero::<S>().less(a) ==> a.product(a).root() == a,
        !a.product(a).less(zero()),
{
    reveal(is_exact_field);
}

/// `a * b == c * b` gives `a == c` for `b` above zero.
pub proof fn lemma_factor_cancels<S: Component>(a: S, c: S, b: S)
    requires
        is_exact_field::<S>(),
        zero::<S>().less(b),
        a.product(b) == c.product(b),
    ensures
        a == c,
{
    lemma_quotient_undoes_product(a, b);
    lemma_quotient_undoes_product(c, b);
}

/// `a - 0 == a`.
pub proof fn lemma_less_zero<S: Component>(a: S)
    requires
        is_exact::<S>(),
    ensures
        a.difference(zero()) == a,
{
    let z = zero::<S>();
    // -0 == 0 + -0 == 0
    lemma_zero_and_negation(z);
    lemma_zero_and_negation(z.negation());
    lemma_difference_is_sum(a, z);
    lemma_zero_and_negation(a);
}

/// `a - a == 0`.
pub proof fn lemma_less_the_same<S: Component>(a: S)
    requires
        is_exact::<S>(),
    ensures
        a.difference(a) == zero::<S>(),
{
    lemma_difference_is_sum(a, a);
    lemma_zero_and_negation(a);
}

/// `a - b == -(b - a)`.
pub proof fn lemma_difference_turns<S: Component>(a: S, b: S)
    requires
        is_exact::<S>(),
    ensures
        a.difference(b) == b.difference(a).negation(),
{
    // -(b + -a) == -b + -(-a) == -b + a == a + -b
    lemma_difference_is_sum(b, a);
    lemma_negation_of_sum(b, a.negation());
    lemma_negation_of_negation(a);
    lemma_sum_commutes(b.negation(), a);
    lemma_difference_is_sum(a, b);
}

/// `(a * b) * c == (c * b) * a`.
pub proof fn lemma_factors_turn<S: Component>(a: S, b: S, c: S)
    requires
        is_exact::<S>(),
    ensures
        a.product(b).product(c) == c.product(b).product(a),
{
    // (a * b) * c == c * (a * b) == c * (b * a) == (c * b) * a
    lemma_product_commutes(a.product(b), c);
    lemma_product_commutes(a, b);
    lemma_product_associates(c, b, a);
}

/// Three differences add up to nothing where what is taken away adds up to
/// what it is taken from.
pub proof fn lemma_differences_cancel<S: Component>(a: S, b: S, c: S, d: S, e: S, f: S)
    requires
        is_exact::<S>(),
        zero::<S>().sum(a).sum(c).sum(e) == zero::<S>().sum(b).sum(d).sum(f),
    ensures
        zero::<S>().sum(a.difference(b)).sum(c.difference(d)).sum(e.difference(f)) == zero::<S>(),
{
    let z = zero::<S>();
    lemma_zero_less_zero::<S>();
    lemma_sum_of_differences(z, z, a, b);
    lemma_sum_of_differences(z.sum(a), z.sum(b), c, d);
    lemma_sum_of_differences(z.sum(a).sum(c), z.sum(b).sum(d), e, f);
    lemma_less_the_same(z.sum(a).sum(c).sum(e));
}

/// `((0 + a) + b) + c == ((0 + b) + c) + a` and
/// `((0 + a) + b) + c == ((0 + c) + a) + b`.
pub proof fn lemma_sum_turns<S: Component>(a: S, b: S, c: S)
    requires
        is_exact::<S>(),
    ensures
        zero::<S>().sum(a).sum(b).sum(c) == zero::<S>().sum(b).sum(c).sum(a),
        zero::<S>().sum(a).sum(b).sum(c) == zero::<S>().sum(c).sum(a).sum(b),
{
    lemma_zero_and_negation(a);
    lemma_zero_and_negation(b);
    lemma_zero_and_negation(c);
    // (a + b) + c == a + (b + c) == (b + c) + a
    lemma_sum_associates(a, b, c);
    lemma_sum_commutes(a, b.sum(c));
    // (c + a) + b == c + (a + b) == (a + b) + c
    lemma_sum_associates(c, a, b);
    lemma_sum_commutes(c, a.sum(b));
}

/// No root is below zero; a number above zero is not below it, and its
/// negation is.
pub proof fn lemma_signs<S: Component>(a: S)
    requires
        is_exact_field::<S>(),
    ensures
        !a.root().less(zero()),
        zero::<S>().less(a) ==> !a.less(zero()),
        zero::<S>().less(a) ==> a.negation().less(zero()),
        a.less(zero()) ==> !zero::<S>().less(a),
{
    reveal(is_exact_field);
}

/// A number below zero times a number above zero is below zero.
pub proof fn lemma_sign_of_product<S: Component>(a: S, b: S)
    requires
        is_exact_field::<S>(),
        a.less(zero()),
        zero::<S>().less(b),
    ensures
        a.product(b).less(zero()),
{
    reveal(is_exact_field);
}

/// `-0 == 0`.
pub proof fn lemma_negation_of_zero<S: Component>()
    requires
        is_exact::<S>(),
    ensures
        zero::<S>().negation() == zero::<S>(),
{
    lemma_zero_and_negation(zero::<S>());
    lemma_zero_and_negation(zero::<S>().negation());
}

} // verus!
