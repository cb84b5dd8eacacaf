//! What holds of the tracer's geometry where the numbers compute exactly:
//! normalised vectors have length one, a mirror reflects at the angle of
//! incidence, and a ray aimed at the centre of a sphere meets it at the
//! distance to the centre less the radius, on the sphere.
//!
//! The laws are stated for every kind of vector whose dot product is
//! bilinear and that divides exactly; the vectors of two, three and four
//! components are proved to be of that kind over exact numbers.
//!
//! A number type that rounds, as floating-point and fixed-point numbers do,
//! is not exact, and these laws hold for it only up to rounding.

use crate::component::{one, square, two, zero, Component};
use crate::exact::{
    is_exact, is_exact_field, lemma_difference_is_sum, lemma_difference_times,
    lemma_factor_cancels, lemma_factor_moves, lemma_field_is_exact, lemma_from_the_other_end,
    lemma_less_and_more, lemma_less_is_transitive, lemma_less_itself, lemma_less_twice,
    lemma_less_zero, lemma_negation_of_negation, lemma_negation_times, lemma_one_and_two,
    lemma_product_commutes, lemma_product_distributes, lemma_quotient_undoes_product,
    lemma_root_undoes_square, lemma_same_is_equal, lemma_sum_of_differences, lemma_sum_of_sums,
    lemma_times_difference, lemma_zero_and_negation, lemma_zero_less_zero, lemma_zero_times,
};
use crate::exact::{
    lemma_negation_of_sum, lemma_negation_of_zero, lemma_sign_of_product, lemma_signs,
};
use crate::exact::{
    lemma_difference_turns, lemma_differences_cancel, lemma_factors_turn, lemma_less_the_same,
    lemma_sum_turns,
};
use crate::material::{
    bitangent, facing_normal, mirrored, reflection, scattered_direction, tangent, DiffuseMaterial,
};
use crate::shape::{Hit, NSphere, Shape};
use crate::vectors::vector::{divides, lemma_unit_idempotent};
use crate::vectors::{cross_value, length, unit, Normalized, Ray, Vec2, Vec3, Vec4, Vector};
use vstd::prelude::*;

verus! {

/// Whether the dot product on `V` goes through sums, differences, scalings
/// and negations in its first place, `(a + b) . c == a . c + b . c`,
/// `(a - b) . c == a . c - b . c`, `(a * k) . c == (a . c) * k` and
/// `(-a) . c == -(a . c)`, and is the same in either order; whether a vector scaled by one is itself; and
/// whether the difference of a vector and itself has no length.
#[verifier::opaque]
pub open spec fn is_bilinear<V: Vector>() -> bool {
    &&& forall|a: V, b: V, c: V|
        #[trigger] a.difference(b).inner(c) == a.inner(c).difference(b.inner(c))
    &&& forall|a: V, b: V, c: V| #[trigger] a.sum(b).inner(c) == a.inner(c).sum(b.inner(c))
    &&& forall|a: V, k: V::Scalar, c: V| #[trigger] a.scaled(k).inner(c) == a.inner(c).product(k)
    &&& forall|a: V, c: V| #[trigger] a.negation().inner(c) == a.inner(c).negation()
    &&& forall|a: V, b: V| #[trigger] a.inner(b) == b.inner(a)
    &&& forall|a: V| #[trigger] a.scaled(one()) == a
    &&& forall|a: V|
        (#[trigger] a.difference(a)).inner(a.difference(a)) == zero::<V::Scalar>()
}

/// Over an exact number type the dot product of two components is bilinear.
pub proof fn lemma_vec2_is_bilinear<S: Component>()
    requires
        is_exact::<S>(),
    ensures
        is_bilinear::<Vec2<S>>(),
{
    reveal(is_bilinear);
    let z = zero::<S>();
    assert forall|a: Vec2<S>, c: Vec2<S>| #[trigger] a.negation().inner(c) == a.inner(c).negation() by {
        lemma_negation_times(a.x, c.x);
        lemma_negation_times(a.y, c.y);
        lemma_negation_of_zero::<S>();
        lemma_negation_of_sum(z, a.x.product(c.x));
        lemma_negation_of_sum(z.sum(a.x.product(c.x)), a.y.product(c.y));
    }
    assert forall|a: Vec2<S>, b: Vec2<S>, c: Vec2<S>| #[trigger]
        a.sum(b).inner(c) == a.inner(c).sum(b.inner(c)) by {
        let (ac1, bc1) = (a.x.product(c.x), b.x.product(c.x));
        let (ac2, bc2) = (a.y.product(c.y), b.y.product(c.y));
        lemma_product_distributes(a.x, b.x, c.x);
        lemma_product_distributes(a.y, b.y, c.y);
        lemma_zero_and_negation(z);
        lemma_sum_of_sums(z, z, ac1, bc1);
        lemma_sum_of_sums(z.sum(ac1), z.sum(bc1), ac2, bc2);
    }
    assert forall|a: Vec2<S>, b: Vec2<S>, c: Vec2<S>| #[trigger]
        a.difference(b).inner(c) == a.inner(c).difference(b.inner(c)) by {
        let (ac1, bc1) = (a.x.product(c.x), b.x.product(c.x));
        let (ac2, bc2) = (a.y.product(c.y), b.y.product(c.y));
        lemma_difference_times(a.x, b.x, c.x);
        lemma_difference_times(a.y, b.y, c.y);
        lemma_zero_less_zero::<S>();
        lemma_sum_of_differences(z, z, ac1, bc1);
        lemma_sum_of_differences(z.sum(ac1), z.sum(bc1), ac2, bc2);
    }
    assert forall|a: Vec2<S>, k: S, c: Vec2<S>| #[trigger]
        a.scaled(k).inner(c) == a.inner(c).product(k) by {
        let ac1 = a.x.product(c.x);
        let ac2 = a.y.product(c.y);
        lemma_factor_moves(a.x, k, c.x);
        lemma_factor_moves(a.y, k, c.y);
        lemma_zero_times(k);
        lemma_product_distributes(z, ac1, k);
        lemma_product_distributes(z.sum(ac1), ac2, k);
    }
    assert forall|a: Vec2<S>, b: Vec2<S>| #[trigger] a.inner(b) == b.inner(a) by {
        lemma_product_commutes(a.x, b.x);
        lemma_product_commutes(a.y, b.y);
    }
    assert forall|a: Vec2<S>| #[trigger] a.scaled(one()) == a by {
        lemma_product_commutes(a.x, one::<S>());
        lemma_one_and_two(a.x);
        lemma_product_commutes(a.y, one::<S>());
        lemma_one_and_two(a.y);
    }
    assert forall|a: Vec2<S>| (#[trigger] a.difference(a)).inner(a.difference(a)) == z by {
        lemma_difference_is_sum(a.x, a.x);
        lemma_zero_and_negation(a.x);
        lemma_difference_is_sum(a.y, a.y);
        lemma_zero_and_negation(a.y);
        lemma_zero_times(z);
        lemma_zero_and_negation(z);
    }
}

/// Over an exact number type the dot product of three components is bilinear.
pub proof fn lemma_vec3_is_bilinear<S: Component>()
    requires
        is_exact::<S>(),
    ensures
        is_bilinear::<Vec3<S>>(),
{
    reveal(is_bilinear);
    let z = zero::<S>();
    assert forall|a: Vec3<S>, c: Vec3<S>| #[trigger] a.negation().inner(c) == a.inner(c).negation() by {
        lemma_negation_times(a.x, c.x);
        lemma_negation_times(a.y, c.y);
        lemma_negation_times(a.z, c.z);
        lemma_negation_of_zero::<S>();
        lemma_negation_of_sum(z, a.x.product(c.x));
        lemma_negation_of_sum(z.sum(a.x.product(c.x)), a.y.product(c.y));
        lemma_negation_of_sum(z.sum(a.x.product(c.x)).sum(a.y.product(c.y)), a.z.product(c.z));
    }
    assert forall|a: Vec3<S>, b: Vec3<S>, c: Vec3<S>| #[trigger]
        a.sum(b).inner(c) == a.inner(c).sum(b.inner(c)) by {
        let (ac1, bc1) = (a.x.product(c.x), b.x.product(c.x));
        let (ac2, bc2) = (a.y.product(c.y), b.y.product(c.y));
        let (ac3, bc3) = (a.z.product(c.z), b.z.product(c.z));
        lemma_product_distributes(a.x, b.x, c.x);
        lemma_product_distributes(a.y, b.y, c.y);
        lemma_product_distributes(a.z, b.z, c.z);
        lemma_zero_and_negation(z);
        lemma_sum_of_sums(z, z, ac1, bc1);
        lemma_sum_of_sums(z.sum(ac1), z.sum(bc1), ac2, bc2);
        lemma_sum_of_sums(z.sum(ac1).sum(ac2), z.sum(bc1).sum(bc2), ac3, bc3);
    }
    assert forall|a: Vec3<S>, b: Vec3<S>, c: Vec3<S>| #[trigger]
        a.difference(b).inner(c) == a.inner(c).difference(b.inner(c)) by {
        let (ac1, bc1) = (a.x.product(c.x), b.x.product(c.x));
        let (ac2, bc2) = (a.y.product(c.y), b.y.product(c.y));
        let (ac3, bc3) = (a.z.product(c.z), b.z.product(c.z));
        lemma_difference_times(a.x, b.x, c.x);
        lemma_difference_times(a.y, b.y, c.y);
        lemma_difference_times(a.z, b.z, c.z);
        lemma_zero_less_zero::<S>();
        lemma_sum_of_differences(z, z, ac1, bc1);
        lemma_sum_of_differences(z.sum(ac1), z.sum(bc1), ac2, bc2);
        lemma_sum_of_differences(z.sum(ac1).sum(ac2), z.sum(bc1).sum(bc2), ac3, bc3);
    }
    assert forall|a: Vec3<S>, k: S, c: Vec3<S>| #[trigger]
        a.scaled(k).inner(c) == a.inner(c).product(k) by {
        let ac1 = a.x.product(c.x);
        let ac2 = a.y.product(c.y);
        let ac3 = a.z.product(c.z);
        lemma_factor_moves(a.x, k, c.x);
        lemma_factor_moves(a.y, k, c.y);
        lemma_factor_moves(a.z, k, c.z);
        lemma_zero_times(k);
        lemma_product_distributes(z, ac1, k);
        lemma_product_distributes(z.sum(ac1), ac2, k);
        lemma_product_distributes(z.sum(ac1).sum(ac2), ac3, k);
    }
    assert forall|a: Vec3<S>, b: Vec3<S>| #[trigger] a.inner(b) == b.inner(a) by {
        lemma_product_commutes(a.x, b.x);
        lemma_product_commutes(a.y, b.y);
        lemma_product_commutes(a.z, b.z);
    }
    assert forall|a: Vec3<S>| #[trigger] a.scaled(one()) == a by {
        lemma_product_commutes(a.x, one::<S>());
        lemma_one_and_two(a.x);
        lemma_product_commutes(a.y, one::<S>());
        lemma_one_and_two(a.y);
        lemma_product_commutes(a.z, one::<S>());
        lemma_one_and_two(a.z);
    }
    assert forall|a: Vec3<S>| (#[trigger] a.difference(a)).inner(a.difference(a)) == z by {
        lemma_difference_is_sum(a.x, a.x);
        lemma_zero_and_negation(a.x);
        lemma_difference_is_sum(a.y, a.y);
        lemma_zero_and_negation(a.y);
        lemma_difference_is_sum(a.z, a.z);
        lemma_zero_and_negation(a.z);
        lemma_zero_times(z);
        lemma_zero_and_negation(z);
    }
}

/// Over an exact number type the dot product of four components is bilinear.
pub proof fn lemma_vec4_is_bilinear<S: Component>()
    requires
        is_exact::<S>(),
    ensures
        is_bilinear::<Vec4<S>>(),
{
    reveal(is_bilinear);
    let z = zero::<S>();
    assert forall|a: Vec4<S>, c: Vec4<S>| #[trigger] a.negation().inner(c) == a.inner(c).negation() by {
        lemma_negation_times(a.x, c.x);
        lemma_negation_times(a.y, c.y);
        lemma_negation_times(a.z, c.z);
        lemma_negation_times(a.w, c.w);
        lemma_negation_of_zero::<S>();
        lemma_negation_of_sum(z, a.x.product(c.x));
        lemma_negation_of_sum(z.sum(a.x.product(c.x)), a.y.product(c.y));
        lemma_negation_of_sum(z.sum(a.x.product(c.x)).sum(a.y.product(c.y)), a.z.product(c.z));
        lemma_negation_of_sum(z.sum(a.x.product(c.x)).sum(a.y.product(c.y)).sum(a.z.product(c.z)), a.w.product(c.w));
    }
    assert forall|a: Vec4<S>, b: Vec4<S>, c: Vec4<S>| #[trigger]
        a.sum(b).inner(c) == a.inner(c).sum(b.inner(c)) by {
        let (ac1, bc1) = (a.x.product(c.x), b.x.product(c.x));
        let (ac2, bc2) = (a.y.product(c.y), b.y.product(c.y));
        let (ac3, bc3) = (a.z.product(c.z), b.z.product(c.z));
        let (ac4, bc4) = (a.w.product(c.w), b.w.product(c.w));
        lemma_product_distributes(a.x, b.x, c.x);
        lemma_product_distributes(a.y, b.y, c.y);
        lemma_product_distributes(a.z, b.z, c.z);
        lemma_product_distributes(a.w, b.w, c.w);
        lemma_zero_and_negation(z);
        lemma_sum_of_sums(z, z, ac1, bc1);
        lemma_sum_of_sums(z.sum(ac1), z.sum(bc1), ac2, bc2);
        lemma_sum_of_sums(z.sum(ac1).sum(ac2), z.sum(bc1).sum(bc2), ac3, bc3);
        lemma_sum_of_sums(z.sum(ac1).sum(ac2).sum(ac3), z.sum(bc1).sum(bc2).sum(bc3), ac4, bc4);
    }
    assert forall|a: Vec4<S>, b: Vec4<S>, c: Vec4<S>| #[trigger]
        a.difference(b).inner(c) == a.inner(c).difference(b.inner(c)) by {
        let (ac1, bc1) = (a.x.product(c.x), b.x.product(c.x));
        let (ac2, bc2) = (a.y.product(c.y), b.y.product(c.y));
        let (ac3, bc3) = (a.z.product(c.z), b.z.product(c.z));
        let (ac4, bc4) = (a.w.product(c.w), b.w.product(c.w));
        lemma_difference_times(a.x, b.x, c.x);
        lemma_difference_times(a.y, b.y, c.y);
        lemma_difference_times(a.z, b.z, c.z);
        lemma_difference_times(a.w, b.w, c.w);
        lemma_zero_less_zero::<S>();
        lemma_sum_of_differences(z, z, ac1, bc1);
        lemma_sum_of_differences(z.sum(ac1), z.sum(bc1), ac2, bc2);
        lemma_sum_of_differences(z.sum(ac1).sum(ac2), z.sum(bc1).sum(bc2), ac3, bc3);
        lemma_sum_of_differences(
            z.sum(ac1).sum(ac2).sum(ac3),
            z.sum(bc1).sum(bc2).sum(bc3),
            ac4,
            bc4,
        );
    }
    assert forall|a: Vec4<S>, k: S, c: Vec4<S>| #[trigger]
        a.scaled(k).inner(c) == a.inner(c).product(k) by {
        let ac1 = a.x.product(c.x);
        let ac2 = a.y.product(c.y);
        let ac3 = a.z.product(c.z);
        let ac4 = a.w.product(c.w);
        lemma_factor_moves(a.x, k, c.x);
        lemma_factor_moves(a.y, k, c.y);
        lemma_factor_moves(a.z, k, c.z);
        lemma_factor_moves(a.w, k, c.w);
        lemma_zero_times(k);
        lemma_product_distributes(z, ac1, k);
        lemma_product_distributes(z.sum(ac1), ac2, k);
        lemma_product_distributes(z.sum(ac1).sum(ac2), ac3, k);
        lemma_product_distributes(z.sum(ac1).sum(ac2).sum(ac3), ac4, k);
    }
    assert forall|a: Vec4<S>, b: Vec4<S>| #[trigger] a.inner(b) == b.inner(a) by {
        lemma_product_commutes(a.x, b.x);
        lemma_product_commutes(a.y, b.y);
        lemma_product_commutes(a.z, b.z);
        lemma_product_commutes(a.w, b.w);
    }
    assert forall|a: Vec4<S>| #[trigger] a.scaled(one()) == a by {
        lemma_product_commutes(a.x, one::<S>());
        lemma_one_and_two(a.x);
        lemma_product_commutes(a.y, one::<S>());
        lemma_one_and_two(a.y);
        lemma_product_commutes(a.z, one::<S>());
        lemma_one_and_two(a.z);
        lemma_product_commutes(a.w, one::<S>());
        lemma_one_and_two(a.w);
    }
    assert forall|a: Vec4<S>| (#[trigger] a.difference(a)).inner(a.difference(a)) == z by {
        lemma_difference_is_sum(a.x, a.x);
        lemma_zero_and_negation(a.x);
        lemma_difference_is_sum(a.y, a.y);
        lemma_zero_and_negation(a.y);
        lemma_difference_is_sum(a.z, a.z);
        lemma_zero_and_negation(a.z);
        lemma_difference_is_sum(a.w, a.w);
        lemma_zero_and_negation(a.w);
        lemma_zero_times(z);
        lemma_zero_and_negation(z);
    }
}

/// The angle of reflection is the angle of incidence: over an exact number
/// type, a direction mirrored at a unit normal has with the normal the dot
/// product of the incoming direction, negated. Where the mirrored direction
/// needs no dividing to be a unit vector, that is the direction of the next
/// ray.
pub proof fn lemma_reflection_law<V: Vector>(direction: V, normal: V)
    requires
        is_exact::<V::Scalar>(),
        is_bilinear::<V>(),
        normal.inner(normal) == one::<V::Scalar>(),
    ensures
        reflection(direction, normal).inner(normal) == direction.inner(normal).negation(),
        !divides(reflection(direction, normal)) ==> unit(reflection(direction, normal))@.inner(
            normal,
        ) == direction.inner(normal).negation(),
{
    reveal(is_bilinear);
    let k = direction.inner(normal);
    let twice = normal.scaled(two());
    // (d - (n * 2) * k) . n == d . n - ((n * 2) . n) * k == k - ((n . n) * 2) * k
    //     == k - (1 * 2) * k == k - 2 * k == -k
    assert(direction.difference(twice.scaled(k)).inner(normal) == k.difference(
        twice.scaled(k).inner(normal),
    ));
    assert(twice.scaled(k).inner(normal) == twice.inner(normal).product(k));
    assert(twice.inner(normal) == normal.inner(normal).product(two()));
    lemma_one_and_two(two::<V::Scalar>());
    lemma_less_twice(k);
    Normalized::lemma_wrapping(reflection(direction, normal));
}

/// Whether dividing a vector of `V` by a number above zero is undone by
/// scaling with that number.
#[verifier::opaque]
pub open spec fn divides_exactly<V: Vector>() -> bool {
    forall|a: V, k: V::Scalar|
        zero::<V::Scalar>().less(k) ==> (#[trigger] a.shrunk(k)).scaled(k) == a
}

/// Over an exact field vectors of two components divide exactly.
pub proof fn lemma_vec2_divides_exactly<S: Component>()
    requires
        is_exact_field::<S>(),
    ensures
        divides_exactly::<Vec2<S>>(),
{
    reveal(divides_exactly);
    assert forall|a: Vec2<S>, k: S| zero::<S>().less(k) implies (#[trigger] a.shrunk(k)).scaled(k)
        == a by {
        lemma_quotient_undoes_product(a.x, k);
        lemma_quotient_undoes_product(a.y, k);
    }
}

/// Over an exact field vectors of three components divide exactly.
pub proof fn lemma_vec3_divides_exactly<S: Component>()
    requires
        is_exact_field::<S>(),
    ensures
        divides_exactly::<Vec3<S>>(),
{
    reveal(divides_exactly);
    assert forall|a: Vec3<S>, k: S| zero::<S>().less(k) implies (#[trigger] a.shrunk(k)).scaled(k)
        == a by {
        lemma_quotient_undoes_product(a.x, k);
        lemma_quotient_undoes_product(a.y, k);
        lemma_quotient_undoes_product(a.z, k);
    }
}

/// Over an exact field vectors of four components divide exactly.
pub proof fn lemma_vec4_divides_exactly<S: Component>()
    requires
        is_exact_field::<S>(),
    ensures
        divides_exactly::<Vec4<S>>(),
{
    reveal(divides_exactly);
    assert forall|a: Vec4<S>, k: S| zero::<S>().less(k) implies (#[trigger] a.shrunk(k)).scaled(k)
        == a by {
        lemma_quotient_undoes_product(a.x, k);
        lemma_quotient_undoes_product(a.y, k);
        lemma_quotient_undoes_product(a.z, k);
        lemma_quotient_undoes_product(a.w, k);
    }
}

/// Over an exact field a vector with a length above zero is normalised to a
/// vector of length one that points the same way: scaled by the length it is
/// the vector again. Normalising it once more changes nothing.
pub proof fn lemma_unit_has_length_one<V: Vector>(v: V)
    requires
        is_exact_field::<V::Scalar>(),
        is_bilinear::<V>(),
        divides_exactly::<V>(),
        zero::<V::Scalar>().less(length(v)),
    ensures
        unit(v)@.inner(unit(v)@) == one::<V::Scalar>(),
        length(unit(v)@) == one::<V::Scalar>(),
        unit(v)@.scaled(length(v)) == v,
        unit(unit(v)@) == unit(v),
{
    reveal(is_bilinear);
    reveal(divides_exactly);
    lemma_field_is_exact::<V::Scalar>();
    let unity = one::<V::Scalar>();
    let long = length(v);
    let u = unit(v)@;
    Normalized::lemma_wrapping(v);
    Normalized::lemma_wrapping(v.shrunk(long));
    lemma_same_is_equal(long, unity);
    if divides(v) {
        assert(u == v.shrunk(long));
        assert(u.scaled(long) == v);
    } else {
        assert(long == unity);
        assert(u == v);
        assert(v.scaled(unity) == v);
    }
    // v . v == ((u . u) * long) * long
    let uu = u.inner(u);
    assert(u.scaled(long).inner(v) == u.inner(v).product(long));
    assert(u.inner(v) == v.inner(u));
    assert(u.scaled(long).inner(u) == uu.product(long));
    assert(v.inner(v) == uu.product(long).product(long));
    // long * long == v . v, so (u . u) * long == long == 1 * long
    lemma_root_undoes_square(v.inner(v));
    assert(long.product(long) == v.inner(v));
    lemma_factor_cancels(uu.product(long), long, long);
    lemma_one_and_two(long);
    lemma_factor_cancels(uu, unity, long);
    // the root of one is one
    lemma_one_and_two(unity);
    lemma_root_undoes_square(unity);
    assert(length(u) == unity);
    lemma_same_is_equal(length(u), unity);
    lemma_unit_idempotent(v);
}

/// A ray sent from outside straight at the centre of a sphere meets it where
/// the distance to the centre less the radius is: over an exact field, with
/// the centre at a distance above the radius and the near clipping below
/// their difference, the hit lies at exactly that difference along the ray,
/// and its point at exactly the radius from the centre.
pub proof fn lemma_sphere_round_trip<V: Vector>(sphere: NSphere<V>, origin: V, near_clipping: V::Scalar)
    requires
        is_exact_field::<V::Scalar>(),
        is_bilinear::<V>(),
        divides_exactly::<V>(),
        zero::<V::Scalar>().less(sphere.radius),
        sphere.radius.less(length(sphere.center.difference(origin))),
        near_clipping.less(length(sphere.center.difference(origin)).difference(sphere.radius)),
    ensures
        ({
            let towards = sphere.center.difference(origin);
            let ray = Ray { origin, direction: unit(towards) };
            let found = sphere.nearest_hit(ray, near_clipping);
            &&& found is Some
            &&& found->0.distance == length(towards).difference(sphere.radius)
            &&& found->0.data.intersection == ray.point(found->0.distance)
            &&& length(found->0.data.intersection.difference(sphere.center)) == sphere.radius
        }),
{
    lemma_sphere_hit_lies_on_the_sphere(sphere, origin);
    reveal(is_bilinear);
    lemma_field_is_exact::<V::Scalar>();
    let towards = sphere.center.difference(origin);
    let far = length(towards);
    let ray = Ray { origin, direction: unit(towards) };
    let u = unit(towards)@;
    lemma_less_is_transitive(zero::<V::Scalar>(), sphere.radius, far);
    lemma_unit_has_length_one(towards);
    // the centre projects onto the ray at its own distance
    assert(sphere.offset_center(ray) == towards);
    assert(u.scaled(far).inner(u) == u.inner(u).product(far));
    lemma_one_and_two(far);
    assert(sphere.projection_length(ray) == far);
    // and lies on the ray's line
    assert(u.scaled(far) == towards);
    assert(sphere.cathetus_squared(ray) == zero::<V::Scalar>());
    // so half the chord is the radius
    lemma_root_undoes_square(sphere.radius);
    lemma_less_zero(square(sphere.radius));
    assert(sphere.entry_distance(ray) == far.difference(sphere.radius));
    assert(sphere.meets(ray, near_clipping));
}

/// The point at which such a ray meets the sphere lies on the sphere: over
/// an exact field its distance from the centre is the radius.
pub proof fn lemma_sphere_hit_lies_on_the_sphere<V: Vector>(sphere: NSphere<V>, origin: V)
    requires
        is_exact_field::<V::Scalar>(),
        is_bilinear::<V>(),
        divides_exactly::<V>(),
        zero::<V::Scalar>().less(sphere.radius),
        sphere.radius.less(length(sphere.center.difference(origin))),
    ensures
        ({
            let towards = sphere.center.difference(origin);
            let ray = Ray { origin, direction: unit(towards) };
            let hit = ray.point(length(towards).difference(sphere.radius));
            length(hit.difference(sphere.center)) == sphere.radius
        }),
{
    reveal(is_bilinear);
    lemma_field_is_exact::<V::Scalar>();
    let radius = sphere.radius;
    let towards = sphere.center.difference(origin);
    let far = length(towards);
    let ray = Ray { origin, direction: unit(towards) };
    let u = unit(towards)@;
    let reach = far.difference(radius);
    let hit = ray.point(reach);
    let off = hit.difference(sphere.center);
    lemma_less_is_transitive(zero::<V::Scalar>(), radius, far);
    lemma_unit_has_length_one(towards);
    assert(u.scaled(far) == towards);
    assert(hit == origin.sum(u.scaled(reach)));
    // off . x == -((u . x) * radius) for every x
    assert forall|x: V| off.inner(x) == u.inner(x).product(radius).negation() by {
        let ux = u.inner(x);
        assert(off.inner(x) == hit.inner(x).difference(sphere.center.inner(x)));
        assert(hit.inner(x) == origin.inner(x).sum(u.scaled(reach).inner(x)));
        assert(u.scaled(reach).inner(x) == ux.product(reach));
        assert(towards.inner(x) == sphere.center.inner(x).difference(origin.inner(x)));
        assert(u.scaled(far).inner(x) == ux.product(far));
        lemma_from_the_other_end(origin.inner(x), ux.product(reach), sphere.center.inner(x));
        lemma_times_difference(ux, reach, far);
        lemma_less_itself(far, radius);
        lemma_product_commutes(ux, radius.negation());
        lemma_negation_times(radius, ux);
        lemma_product_commutes(radius, ux);
    }
    // off . off == -((u . off) * radius) == -(-((u . u) * radius) * radius) == radius * radius
    assert(u.inner(off) == off.inner(u));
    lemma_one_and_two(radius);
    assert(u.inner(off) == radius.negation());
    lemma_negation_times(radius, radius);
    lemma_negation_of_negation(radius.product(radius));
    assert(off.inner(off) == radius.product(radius));
    lemma_root_undoes_square(radius);
}

/// The angle of reflection is the angle of incidence: over an exact field,
/// the ray that a mirror sends on from a hit with a unit direction and a unit
/// normal has with the normal the dot product of the incoming direction,
/// negated, and is a unit vector itself.
pub proof fn lemma_mirror_reflects<V: Vector>(hit: Hit<V>)
    requires
        is_exact_field::<V::Scalar>(),
        is_bilinear::<V>(),
        hit.ray_direction@.inner(hit.ray_direction@) == one::<V::Scalar>(),
        hit.normal@.inner(hit.normal@) == one::<V::Scalar>(),
    ensures
        mirrored(hit).next_bounce is Some,
        mirrored(hit).next_bounce->0.origin == hit.intersection,
        mirrored(hit).next_bounce->0.direction@ == reflection(hit.ray_direction@, hit.normal@),
        mirrored(hit).next_bounce->0.direction@.inner(hit.normal@) == hit.ray_direction@.inner(
            hit.normal@,
        ).negation(),
        length(mirrored(hit).next_bounce->0.direction@) == one::<V::Scalar>(),
{
    reveal(is_bilinear);
    lemma_field_is_exact::<V::Scalar>();
    let unity = one::<V::Scalar>();
    let d = hit.ray_direction@;
    let n = hit.normal@;
    let k = d.inner(n);
    let r = reflection(d, n);
    let back = n.scaled(two()).scaled(k);
    lemma_reflection_law(d, n);
    // r . d == 1 - (k * 2) * k and back . r == (-k * 2) * k, so r . r == 1
    let bend = k.product(two()).product(k);
    assert(r.inner(d) == d.inner(d).difference(back.inner(d)));
    assert(back.inner(d) == n.scaled(two()).inner(d).product(k));
    assert(n.scaled(two()).inner(d) == n.inner(d).product(two()));
    assert(n.inner(d) == d.inner(n));
    assert(r.inner(d) == unity.difference(bend));
    assert(r.inner(r) == d.inner(r).difference(back.inner(r)));
    assert(d.inner(r) == r.inner(d));
    assert(back.inner(r) == n.scaled(two()).inner(r).product(k));
    assert(n.scaled(two()).inner(r) == n.inner(r).product(two()));
    assert(n.inner(r) == r.inner(n));
    lemma_negation_times(k, two());
    lemma_negation_times(k.product(two()), k);
    assert(back.inner(r) == bend.negation());
    lemma_less_and_more(unity, bend);
    assert(r.inner(r) == unity);
    // the root of one is one, so the mirrored direction is not divided
    lemma_one_and_two(unity);
    lemma_root_undoes_square(unity);
    lemma_same_is_equal(length(r), unity);
    Normalized::lemma_wrapping(r);
}

/// A matt surface sends the path on along a unit vector: over an exact
/// field, where the scattered direction has a length above zero, the
/// direction of the next ray has length one.
pub proof fn lemma_scattered_is_unit<S: Component>(
    material: DiffuseMaterial<S>,
    hit: Hit<Vec3<S>>,
    cos_elevation: S,
    cos_azimuth: S,
    sin_azimuth: S,
)
    requires
        is_exact_field::<S>(),
        zero::<S>().less(
            length(
                scattered_direction(facing_normal(hit)@, cos_elevation, cos_azimuth, sin_azimuth),
            ),
        ),
    ensures
        material.scattered(hit, cos_elevation, cos_azimuth, sin_azimuth).next_bounce is Some,
        length(
            material.scattered(
                hit,
                cos_elevation,
                cos_azimuth,
                sin_azimuth,
            ).next_bounce->0.direction@,
        ) == one::<S>(),
{
    lemma_field_is_exact::<S>();
    lemma_vec3_is_bilinear::<S>();
    lemma_vec3_divides_exactly::<S>();
    lemma_unit_has_length_one(
        scattered_direction(facing_normal(hit)@, cos_elevation, cos_azimuth, sin_azimuth),
    );
}

/// Over an exact number type the cross product turns around with the order
/// of its factors, and the cross product of a vector with itself is the zero
/// vector.
pub proof fn lemma_cross_turns<S: Component>(a: Vec3<S>, b: Vec3<S>)
    requires
        is_exact::<S>(),
    ensures
        cross_value(a, b) == cross_value(b, a).negation(),
        cross_value(a, a) == Vec3::<S>::origin(),
{
    lemma_product_commutes(a.y, b.z);
    lemma_product_commutes(a.z, b.y);
    lemma_difference_turns(a.y.product(b.z), a.z.product(b.y));
    lemma_product_commutes(a.z, b.x);
    lemma_product_commutes(a.x, b.z);
    lemma_difference_turns(a.z.product(b.x), a.x.product(b.z));
    lemma_product_commutes(a.x, b.y);
    lemma_product_commutes(a.y, b.x);
    lemma_difference_turns(a.x.product(b.y), a.y.product(b.x));
    lemma_product_commutes(a.y, a.z);
    lemma_product_commutes(a.z, a.x);
    lemma_product_commutes(a.x, a.y);
    lemma_less_the_same(a.y.product(a.z));
    lemma_less_the_same(a.z.product(a.x));
    lemma_less_the_same(a.x.product(a.y));
}

/// Over an exact number type the cross product of two vectors is
/// perpendicular to both: its dot product with either is zero.
pub proof fn lemma_cross_is_perpendicular<S: Component>(a: Vec3<S>, b: Vec3<S>)
    requires
        is_exact::<S>(),
    ensures
        cross_value(a, b).inner(a) == zero::<S>(),
        cross_value(a, b).inner(b) == zero::<S>(),
{
    // with a: the six products are equal in pairs
    let first = a.y.product(b.z).product(a.x);
    let second = a.z.product(b.y).product(a.x);
    let third = a.z.product(b.x).product(a.y);
    lemma_difference_times(a.y.product(b.z), a.z.product(b.y), a.x);
    lemma_difference_times(a.z.product(b.x), a.x.product(b.z), a.y);
    lemma_difference_times(a.x.product(b.y), a.y.product(b.x), a.z);
    lemma_factors_turn(a.x, b.z, a.y);
    lemma_factors_turn(a.x, b.y, a.z);
    lemma_factors_turn(a.y, b.x, a.z);
    lemma_sum_turns(first, third, second);
    lemma_differences_cancel(first, second, third, first, second, third);
    // with b: likewise
    let fourth = a.y.product(b.z).product(b.x);
    let fifth = a.z.product(b.y).product(b.x);
    let sixth = a.x.product(b.z).product(b.y);
    lemma_difference_times(a.y.product(b.z), a.z.product(b.y), b.x);
    lemma_difference_times(a.z.product(b.x), a.x.product(b.z), b.y);
    lemma_difference_times(a.x.product(b.y), a.y.product(b.x), b.z);
    lemma_factor_moves(a.z, b.x, b.y);
    lemma_factor_moves(a.x, b.y, b.z);
    lemma_factor_moves(a.y, b.x, b.z);
    lemma_sum_turns(fourth, fifth, sixth);
    lemma_differences_cancel(fourth, fifth, fifth, sixth, sixth, fourth);
}

/// Normalising keeps a vector perpendicular to what it is perpendicular to.
pub proof fn lemma_unit_stays_perpendicular<V: Vector>(a: V, w: V)
    requires
        is_exact_field::<V::Scalar>(),
        is_bilinear::<V>(),
        divides_exactly::<V>(),
        a.inner(w) == zero::<V::Scalar>(),
    ensures
        unit(a)@.inner(w) == zero::<V::Scalar>(),
{
    reveal(is_bilinear);
    reveal(divides_exactly);
    lemma_field_is_exact::<V::Scalar>();
    let long = length(a);
    Normalized::lemma_wrapping(a);
    Normalized::lemma_wrapping(a.shrunk(long));
    if divides(a) {
        let u = a.shrunk(long);
        assert(u.scaled(long) == a);
        assert(u.scaled(long).inner(w) == u.inner(w).product(long));
        lemma_zero_times(long);
        lemma_factor_cancels(u.inner(w), zero::<V::Scalar>(), long);
    }
}

/// Normalising keeps a vector on its side of a plane: where its dot product
/// with `w` is not below zero, that of the normalised vector is not either.
pub proof fn lemma_unit_keeps_its_side<V: Vector>(a: V, w: V)
    requires
        is_exact_field::<V::Scalar>(),
        is_bilinear::<V>(),
        divides_exactly::<V>(),
        !a.inner(w).less(zero()),
    ensures
        !unit(a)@.inner(w).less(zero()),
{
    reveal(is_bilinear);
    reveal(divides_exactly);
    let long = length(a);
    Normalized::lemma_wrapping(a);
    Normalized::lemma_wrapping(a.shrunk(long));
    if divides(a) {
        let u = a.shrunk(long);
        assert(u.scaled(long) == a);
        assert(u.scaled(long).inner(w) == u.inner(w).product(long));
        if u.inner(w).less(zero()) {
            lemma_sign_of_product(u.inner(w), long);
        }
    }
}

/// A matt surface sends the path on to the side that the ray came from:
/// over an exact field and for a unit normal, the normal that the basis is
/// built around does not point along the incoming ray, and the direction of
/// the next ray does not point against that normal.
pub proof fn lemma_scattered_leaves_the_surface<S: Component>(
    material: DiffuseMaterial<S>,
    hit: Hit<Vec3<S>>,
    cos_elevation: S,
    cos_azimuth: S,
    sin_azimuth: S,
)
    requires
        is_exact_field::<S>(),
        hit.normal@.inner(hit.normal@) == one::<S>(),
    ensures
        !zero::<S>().less(facing_normal(hit)@.inner(hit.ray_direction@)),
        material.scattered(hit, cos_elevation, cos_azimuth, sin_azimuth).next_bounce is Some,
        !material.scattered(
            hit,
            cos_elevation,
            cos_azimuth,
            sin_azimuth,
        ).next_bounce->0.direction@.inner(facing_normal(hit)@).less(zero()),
{
    lemma_field_is_exact::<S>();
    lemma_vec3_is_bilinear::<S>();
    lemma_vec3_divides_exactly::<S>();
    reveal(is_bilinear);
    let z = zero::<S>();
    let n = hit.normal@;
    let d = hit.ray_direction@;
    let w = facing_normal(hit)@;
    // the normal is turned to face the ray, and stays a unit vector
    Normalized::lemma_wrapping(n.negation());
    if z.less(n.inner(d)) {
        assert(w == n.negation());
        assert(n.negation().inner(d) == n.inner(d).negation());
        lemma_signs(n.inner(d));
        lemma_signs(n.inner(d).negation());
        assert(n.negation().inner(n.negation()) == n.inner(n.negation()).negation());
        assert(n.inner(n.negation()) == n.negation().inner(n));
        assert(n.negation().inner(n) == n.inner(n).negation());
        lemma_negation_of_negation(n.inner(n));
    }
    assert(w.inner(w) == one::<S>());
    // both tangents are perpendicular to it
    let t = tangent(w);
    let b = bitangent(w);
    lemma_cross_is_perpendicular(Vec3 { x: one::<S>(), y: z, z }, w);
    lemma_unit_stays_perpendicular(cross_value(Vec3 { x: one::<S>(), y: z, z }, w), w);
    lemma_cross_is_perpendicular(w, t);
    lemma_unit_stays_perpendicular(cross_value(w, t), w);
    assert(t.inner(w) == z);
    assert(b.inner(w) == z);
    // so of the scattered direction only the part along the normal counts
    let x = cos_elevation.product(cos_azimuth);
    let y = cos_elevation.product(sin_azimuth);
    let up = one::<S>().difference(cos_elevation.product(cos_elevation)).root();
    let raw = scattered_direction(w, cos_elevation, cos_azimuth, sin_azimuth);
    assert(raw == t.scaled(x).sum(b.scaled(y)).sum(w.scaled(up)));
    assert(raw.inner(w) == t.scaled(x).sum(b.scaled(y)).inner(w).sum(w.scaled(up).inner(w)));
    assert(t.scaled(x).sum(b.scaled(y)).inner(w) == t.scaled(x).inner(w).sum(
        b.scaled(y).inner(w),
    ));
    assert(t.scaled(x).inner(w) == t.inner(w).product(x));
    assert(b.scaled(y).inner(w) == b.inner(w).product(y));
    assert(w.scaled(up).inner(w) == w.inner(w).product(up));
    lemma_zero_times(x);
    lemma_zero_times(y);
    lemma_zero_and_negation(z);
    lemma_one_and_two(up);
    lemma_zero_and_negation(up);
    assert(raw.inner(w) == up);
    lemma_signs(one::<S>().difference(cos_elevation.product(cos_elevation)));
    lemma_unit_keeps_its_side(raw, w);
}

} // verus!
