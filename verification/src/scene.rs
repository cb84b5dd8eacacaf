//! Scenes: shapes with their materials, and collections of them.

use crate::component::{less_is_strict, Component};
use crate::material::{Behavior, Material};
use crate::shape::{Intersection, Shape};
use crate::vectors::{Ray, Vector};
use vstd::prelude::*;

verus! {

/// Anything that a ray can be sent into and that answers with the behaviour
/// of the nearest surface.
pub trait SceneElement<V: Vector>: Send + Sync {
    /// Whether `found` is an answer that the element may give for `ray`.
    /// Where no material draws by chance there is one answer for each ray.
    spec fn may_intersect(
        &self,
        ray: Ray<V>,
        near_clipping: V::Scalar,
        found: Option<Intersection<V::Scalar, Behavior<V>>>,
    ) -> bool;

    /// The nearest surface that `ray` meets strictly beyond `near_clipping`,
    /// with the answer of its material; `None` where it meets none.
    fn first_intersection(&self, ray: Ray<V>, near_clipping: V::Scalar) -> (r: Option<
        Intersection<V::Scalar, Behavior<V>>,
    >)
        ensures
            self.may_intersect(ray, near_clipping, r),
            r matches Some(found) ==> near_clipping.less(found.distance),
    ;
}

/// A scene element that is made of further elements, and that more can be
/// added to.
pub trait Scene<V: Vector>: SceneElement<V> {
    /// The elements of the scene, in the order in which they were added.
    spec fn elements(&self) -> Seq<Box<dyn SceneElement<V>>>;

    /// Puts `element` behind the elements that are there.
    fn add(&mut self, element: Box<dyn SceneElement<V>>)
        ensures
            final(self).elements() == old(self).elements().push(element),
    ;
}

/// A shape together with the material of its surface.
pub struct MaterialShape<S: Shape, M: Material<S::V>> {
    pub shape: S,
    pub material: M,
}

impl<S: Shape, M: Material<S::V>> SceneElement<S::V> for MaterialShape<S, M> {
    /// The shape decides whether and where the ray hits; the material
    /// answers for the hit.
    open spec fn may_intersect(
        &self,
        ray: Ray<S::V>,
        near_clipping: <S::V as Vector>::Scalar,
        found: Option<Intersection<<S::V as Vector>::Scalar, Behavior<S::V>>>,
    ) -> bool {
        match self.shape.nearest_hit(ray, near_clipping) {
            None => found is None,
            Some(hit) => found matches Some(answer) && answer.distance == hit.distance
                && self.material.responds(hit.data, answer.data),
        }
    }

    fn first_intersection(&self, ray: Ray<S::V>, near_clipping: <S::V as Vector>::Scalar) -> (r:
        Option<Intersection<<S::V as Vector>::Scalar, Behavior<S::V>>>) {
        match self.shape.first_intersection(&ray, near_clipping) {
            None => None,
            Some(hit) => Some(
                Intersection { distance: hit.distance, data: self.material.behavior(hit.data) },
            ),
        }
    }
}

/// Of two answers the nearer one; the first where neither is nearer.
pub open spec fn nearer<S: Component, D>(
    first: Option<Intersection<S, D>>,
    second: Option<Intersection<S, D>>,
) -> Option<Intersection<S, D>> {
    match (first, second) {
        (Some(a), Some(b)) => if b.distance.less(a.distance) {
            second
        } else {
            first
        },
        (None, _) => second,
        (_, None) => first,
    }
}

/// The nearest of the answers `found`; of several equally near, the one that
/// comes first.
pub open spec fn nearest<S: Component, D>(found: Seq<Option<Intersection<S, D>>>) -> Option<
    Intersection<S, D>,
>
    decreases found.len(),
{
    if found.len() == 0 {
        None
    } else {
        nearer(nearest(found.drop_last()), found.last())
    }
}

/// A flat list of scene elements, which may be scenes themselves.
#[verifier::reject_recursive_types(V)]
pub struct VecScene<V: Vector> {
    elements: Vec<Box<dyn SceneElement<V>>>,
}

impl<V: Vector> View for VecScene<V> {
    type V = Seq<Box<dyn SceneElement<V>>>;

    /// The elements, in the order in which they were added.
    closed spec fn view(&self) -> Seq<Box<dyn SceneElement<V>>> {
        self.elements@
    }
}

impl<V: Vector> VecScene<V> {
    /// Whether `answers` holds, for each element in turn, an answer that it
    /// may give for `ray`.
    pub open spec fn may_answer(
        self,
        ray: Ray<V>,
        near_clipping: V::Scalar,
        answers: Seq<Option<Intersection<V::Scalar, Behavior<V>>>>,
    ) -> bool {
        &&& answers.len() == self@.len()
        &&& forall|i: int|
            0 <= i < answers.len() ==> (#[trigger] self@[i]).may_intersect(
                ray,
                near_clipping,
                answers[i],
            )
    }

    /// The scene without elements.
    pub fn new() -> (r: Self)
        ensures
            r@ == Seq::<Box<dyn SceneElement<V>>>::empty(),
    {
        VecScene { elements: Vec::new() }
    }
}

impl<V: Vector> Scene<V> for VecScene<V> {
    open spec fn elements(&self) -> Seq<Box<dyn SceneElement<V>>> {
        self@
    }

    fn add(&mut self, element: Box<dyn SceneElement<V>>) {
        self.elements.push(element);
    }
}

impl<V: Vector> SceneElement<V> for VecScene<V> {
    /// Every element answers, and the nearest answer is given.
    open spec fn may_intersect(
        &self,
        ray: Ray<V>,
        near_clipping: V::Scalar,
        found: Option<Intersection<V::Scalar, Behavior<V>>>,
    ) -> bool {
        exists|answers: Seq<Option<Intersection<V::Scalar, Behavior<V>>>>|
            #[trigger] self.may_answer(ray, near_clipping, answers) && found == nearest(answers)
    }

    /// Asks every element and keeps the answer with the least distance. Of
    /// answers that are equally near, the one of the element added first is
    /// kept.
    fn first_intersection(&self, ray: Ray<V>, near_clipping: V::Scalar) -> (r: Option<
        Intersection<V::Scalar, Behavior<V>>,
    >) {
        let mut best: Option<Intersection<V::Scalar, Behavior<V>>> = None;
        let ghost mut answers: Seq<Option<Intersection<V::Scalar, Behavior<V>>>> = Seq::empty();
        let mut i: usize = 0;
        while i < self.elements.len()
            invariant
                i <= self.elements.len(),
                answers.len() == i,
                best == nearest(answers),
                best matches Some(found) ==> near_clipping.less(found.distance),
                forall|j: int|
                    0 <= j < i ==> (#[trigger] self@[j]).may_intersect(
                        ray,
                        near_clipping,
                        answers[j],
                    ),
            decreases self.elements.len() - i,
        {
            let answer = self.elements[i].first_intersection(ray, near_clipping);
            proof {
                assert(answers.push(answer).drop_last() == answers);
                answers = answers.push(answer);
            }
            best = closer(best, answer);
            i = i + 1;
        }
        proof {
            assert(self.may_answer(ray, near_clipping, answers));
        }
        best
    }
}

/// Of two answers the nearer one; the first where neither is nearer.
fn closer<S: Component, D>(
    first: Option<Intersection<S, D>>,
    second: Option<Intersection<S, D>>,
) -> (r: Option<Intersection<S, D>>)
    ensures
        r == nearer(first, second),
{
    match (first, second) {
        (Some(a), Some(b)) => if b.distance.lt(a.distance) {
            Some(b)
        } else {
            Some(a)
        },
        (None, other) => other,
        (some, None) => some,
    }
}

/// Of two answers the one that is strictly nearer is given, whichever of the
/// two comes first.
pub proof fn lemma_nearer_of_two<S: Component, D>(a: Intersection<S, D>, b: Intersection<S, D>)
    requires
        a.distance.less(b.distance),
        !b.distance.less(a.distance),
    ensures
        nearest(seq![Some(a), Some(b)]) == Some(a),
        nearest(seq![Some(b), Some(a)]) == Some(a),
{
    let first = seq![Some(a), Some(b)];
    let second = seq![Some(b), Some(a)];
    assert(first.drop_last() == seq![Some(a)]);
    assert(second.drop_last() == seq![Some(b)]);
    assert(seq![Some(a)].drop_last() == Seq::<Option<Intersection<S, D>>>::empty());
    assert(seq![Some(b)].drop_last() == Seq::<Option<Intersection<S, D>>>::empty());
    reveal_with_fuel(nearest, 3);
}

/// The answer given is one of the answers, and none of the answers is
/// nearer; no answer is given only where there is none. This holds in
/// whatever order the answers stand.
pub proof fn lemma_nearest_is_least<S: Component, D>(found: Seq<Option<Intersection<S, D>>>)
    requires
        less_is_strict::<S>(),
    ensures
        nearest(found) is None <==> forall|i: int| 0 <= i < found.len() ==> found[i] is None,
        nearest(found) is Some ==> exists|k: int| 0 <= k < found.len() && found[k] == nearest(found),
        forall|i: int|
            0 <= i < found.len() && found[i] is Some ==> nearest(found) is Some && !(
            #[trigger] found[i])->0.distance.less(nearest(found)->0.distance),
    decreases found.len(),
{
    if found.len() > 0 {
        let before = found.drop_last();
        lemma_nearest_is_least(before);
        assert forall|i: int| 0 <= i < found.len() - 1 implies found[i] == before[i] by {}
        if nearest(before) is Some {
            let k = choose|k: int| 0 <= k < before.len() && before[k] == nearest(before);
            assert(found[k] == nearest(before));
        }
        if nearest(found) is Some {
            if nearest(found) == found.last() {
                assert(found[found.len() - 1] == nearest(found));
            }
        }
        assert forall|i: int| 0 <= i < found.len() && found[i] is Some implies nearest(found) is Some
            && !(#[trigger] found[i])->0.distance.less(nearest(found)->0.distance) by {
            if i < found.len() - 1 {
                assert(before[i] is Some);
                let kept = nearest(before)->0;
                if found.last() is Some {
                    let last = found.last()->0;
                    if found[i]->0.distance.less(last.distance) && last.distance.less(
                        kept.distance,
                    ) {
                        assert(found[i]->0.distance.less(kept.distance));
                    }
                }
            }
        }
    }
}

/// The answer that is strictly nearer than every other answer is the one
/// given, wherever it stands among the answers.
pub proof fn lemma_strictly_nearest_wins<S: Component, D>(
    found: Seq<Option<Intersection<S, D>>>,
    k: int,
)
    requires
        less_is_strict::<S>(),
        0 <= k < found.len(),
        found[k] is Some,
        forall|i: int|
            0 <= i < found.len() && i != k && found[i] is Some ==> found[k]->0.distance.less(
                (#[trigger] found[i])->0.distance,
            ),
    ensures
        nearest(found) == found[k],
{
    lemma_nearest_is_least(found);
    let j = choose|j: int| 0 <= j < found.len() && found[j] == nearest(found);
    assert(!found[k]->0.distance.less(nearest(found)->0.distance));
    if j != k {
        assert(found[k]->0.distance.less(found[j]->0.distance));
    }
}

/// A scene never gives the answer of an element when another element has
/// answered nearer: whatever a scene answers is one of its elements'
/// answers, and none of them is nearer, in whatever order the elements were
/// added.
pub proof fn lemma_scene_gives_nearest<V: Vector>(
    scene: VecScene<V>,
    ray: Ray<V>,
    near_clipping: V::Scalar,
    answers: Seq<Option<Intersection<V::Scalar, Behavior<V>>>>,
    i: int,
)
    requires
        less_is_strict::<V::Scalar>(),
        scene.may_answer(ray, near_clipping, answers),
        0 <= i < answers.len(),
        answers[i] is Some,
    ensures
        scene.may_intersect(ray, near_clipping, nearest(answers)),
        nearest(answers) is Some,
        !answers[i]->0.distance.less(nearest(answers)->0.distance),
{
    lemma_nearest_is_least(answers);
}

} // verus!
