//! Per-part transform maps and their local to world propagation.
use crate::part::BodyPart;
use crate::skeleton::{
    lemma_index_bijection, lemma_tree_rooted_at_hip, parent_index, parent_of, part_at, part_index,
    Part, PART_COUNT,
};
use vstd::prelude::*;

verus! {

/// A rig map that does not hold one transform for each of the parts.
#[derive(Clone, Copy, Debug, PartialEq, Eq, Structural)]
pub struct MissingJointError {
    /// How many transforms were handed in.
    pub found: usize,
}

/// One transform per part of the skeleton, indexed by part.
///
/// `T` is the transform type of the engine that consumes the rig; the rig
/// itself only stores, reads and composes transforms.
pub struct Body<T> {
    parts: Vec<T>,
}

impl<T> View for Body<T> {
    type V = Seq<T>;

    closed spec fn view(&self) -> Seq<T> {
        self.parts@
    }
}

/// `absolute` is what propagating `relative` through the skeleton gives when
/// transforms are composed by `compose`: the hip is taken as it is, and every
/// other part is its parent's world transform composed with its own local one.
pub open spec fn is_propagation<T, F: Fn(T, T) -> T>(
    compose: F,
    relative: Seq<T>,
    absolute: Seq<T>,
) -> bool {
    &&& relative.len() == PART_COUNT
    &&& absolute.len() == PART_COUNT
    &&& absolute[0] == relative[0]
    &&& forall|i: int|
        0 < i < PART_COUNT ==> call_ensures(
            compose,
            (absolute[parent_index(i)], relative[i]),
            #[trigger] absolute[i],
        )
}

/// `compose` gives one result for each pair of arguments.
pub open spec fn is_deterministic<T, F: Fn(T, T) -> T>(compose: F) -> bool {
    forall|a: T, b: T, r1: T, r2: T|
        #[trigger] call_ensures(compose, (a, b), r1) && #[trigger] call_ensures(compose, (a, b), r2)
            ==> r1 == r2
}

/// `compose` may be called on any pair of transforms.
pub open spec fn is_total<T, F: Fn(T, T) -> T>(compose: F) -> bool {
    forall|a: T, b: T| #[trigger] call_requires(compose, (a, b))
}

impl<T> Body<T> {
    /// A body holds exactly one transform per part.
    pub open spec fn wf(&self) -> bool {
        self@.len() == PART_COUNT
    }

    /// The transform stored for part `p`.
    pub open spec fn at(&self, p: Part) -> T {
        self@[part_index(p)]
    }

    /// Builds a body from transforms listed in propagation order; fails
    /// unless there is exactly one per part.
    pub fn from_parts(parts: Vec<T>) -> (r: Result<Body<T>, MissingJointError>)
        ensures
            parts@.len() == PART_COUNT <==> r is Ok,
            r matches Ok(b) ==> b.wf() && b@ == parts@,
            r matches Err(e) ==> e.found == parts@.len(),
    {
        if parts.len() == PART_COUNT {
            Ok(Body { parts })
        } else {
            let found = parts.len();
            Err(MissingJointError { found })
        }
    }

    /// Builds a body from one transform per part, listed in propagation order.
    pub(crate) fn from_complete(parts: Vec<T>) -> (r: Body<T>)
        requires
            parts@.len() == PART_COUNT,
        ensures
            r.wf(),
            r@ == parts@,
    {
        Body { parts }
    }

    /// The transform of the part named by type `P`.
    pub fn get<P: BodyPart>(&self) -> (r: &T)
        requires
            self.wf(),
        ensures
            *r == self.at(P::spec_part()),
    {
        self.get_part(P::part())
    }

    /// The transform of part `p`.
    pub fn get_part(&self, p: Part) -> (r: &T)
        requires
            self.wf(),
        ensures
            *r == self.at(p),
    {
        &self.parts[p.index()]
    }

    /// The transform of the part named by type `P`, for changing in place.
    pub fn get_mut<P: BodyPart>(&mut self) -> (r: &mut T)
        requires
            old(self).wf(),
        ensures
            *r == old(self).at(P::spec_part()),
            final(self)@ == old(self)@.update(part_index(P::spec_part()), *final(r)),
    {
        let i = P::part().index();
        &mut self.parts[i]
    }

    /// Replaces the transform of the part named by type `P`.
    pub fn set<P: BodyPart>(&mut self, value: T)
        requires
            old(self).wf(),
        ensures
            final(self).wf(),
            final(self)@ == old(self)@.update(part_index(P::spec_part()), value),
    {
        self.set_part(P::part(), value)
    }

    /// Replaces the transform of part `p`.
    pub fn set_part(&mut self, p: Part, value: T)
        requires
            old(self).wf(),
        ensures
            final(self).wf(),
            final(self)@ == old(self)@.update(part_index(p), value),
    {
        let i = p.index();
        self.parts.set(i, value);
    }

    /// Converts every transform with `f`, part by part.
    pub fn map<U, F: Fn(T) -> U>(&self, f: F) -> (r: Body<U>) where T: Copy
        requires
            self.wf(),
            forall|t: T| #[trigger] call_requires(f, (t,)),
        ensures
            r.wf(),
            forall|i: int| 0 <= i < PART_COUNT ==> call_ensures(f, (self@[i],), #[trigger] r@[i]),
    {
        let mut parts: Vec<U> = Vec::new();
        let mut i: usize = 0;
        while i < PART_COUNT
            invariant
                i <= PART_COUNT,
                parts@.len() == i,
                self.parts@.len() == PART_COUNT,
                forall|t: T| #[trigger] call_requires(f, (t,)),
                forall|j: int| 0 <= j < i ==> call_ensures(f, (self@[j],), #[trigger] parts@[j]),
            decreases PART_COUNT - i,
        {
            let u = f(self.parts[i]);
            parts.push(u);
            i = i + 1;
        }
        Body { parts }
    }

    /// World transforms of every part, from the local transforms in `self`.
    ///
    /// Parts are visited in propagation order, each after its parent: the hip
    /// keeps its own transform and every other part gets
    /// `compose(world of its parent, its local transform)`.
    pub fn propagated<F: Fn(T, T) -> T>(&self, compose: F) -> (r: Body<T>) where T: Copy
        requires
            self.wf(),
            is_total(compose),
        ensures
            r.wf(),
            is_propagation(compose, self@, r@),
            r.at(Part::Hip) == self.at(Part::Hip),
            forall|c: Part|
                c != Part::Hip ==> call_ensures(
                    compose,
                    (r.at(parent_of(c).unwrap()), self.at(c)),
                    #[trigger] r.at(c),
                ),
    {
        proof {
            lemma_tree_rooted_at_hip();
            lemma_index_bijection();
        }
        let mut parts: Vec<T> = Vec::new();
        parts.push(self.parts[0]);
        let mut i: usize = 1;
        while i < PART_COUNT
            invariant
                1 <= i <= PART_COUNT,
                parts@.len() == i,
                self.parts@.len() == PART_COUNT,
                is_total(compose),
                parts@[0] == self@[0],
                forall|k: int| 0 < k < PART_COUNT ==> 0 <= #[trigger] parent_index(k) < k,
                forall|j: int|
                    0 < j < i ==> call_ensures(
                        compose,
                        (parts@[parent_index(j)], self@[j]),
                        #[trigger] parts@[j],
                    ),
            decreases PART_COUNT - i,
        {
            let p = Part::from_index(i).parent().unwrap();
            let pi = p.index();
            assert(pi == parent_index(i as int));
            let world = compose(parts[pi], self.parts[i]);
            parts.push(world);
            i = i + 1;
        }
        let r = Body { parts };
        proof {
            assert forall|c: Part| c != Part::Hip implies call_ensures(
                compose,
                (r.at(parent_of(c).unwrap()), self.at(c)),
                #[trigger] r.at(c),
            ) by {
                let k = part_index(c);
                assert(part_at(k) == c);
                assert(0 < k < PART_COUNT);
            }
        }
        r
    }
}

/// Propagating the same local transforms twice gives the same world
/// transforms, whenever composition gives one result per pair of arguments.
pub proof fn lemma_propagation_idempotent<T, F: Fn(T, T) -> T>(
    compose: F,
    relative: Seq<T>,
    first: Seq<T>,
    second: Seq<T>,
)
    requires
        is_deterministic(compose),
        is_propagation(compose, relative, first),
        is_propagation(compose, relative, second),
    ensures
        first == second,
{
    lemma_tree_rooted_at_hip();
    lemma_prefix_agrees(compose, relative, first, second, PART_COUNT as int);
    assert(first =~= second);
}

proof fn lemma_prefix_agrees<T, F: Fn(T, T) -> T>(
    compose: F,
    relative: Seq<T>,
    first: Seq<T>,
    second: Seq<T>,
    n: int,
)
    requires
        is_deterministic(compose),
        is_propagation(compose, relative, first),
        is_propagation(compose, relative, second),
        0 <= n <= PART_COUNT,
        forall|k: int| 0 < k < PART_COUNT ==> 0 <= #[trigger] parent_index(k) < k,
    ensures
        forall|j: int| 0 <= j < n ==> first[j] == second[j],
    decreases n,
{
    if n > 0 {
        lemma_prefix_agrees(compose, relative, first, second, n - 1);
        let j = n - 1;
        if j > 0 {
            let p = parent_index(j);
            assert(first[p] == second[p]);
            assert(call_ensures(compose, (first[p], relative[j]), first[j]));
            assert(call_ensures(compose, (second[p], relative[j]), second[j]));
        }
    }
}

/// The world transform of the hip is its local transform.
pub proof fn lemma_root_identity<T, F: Fn(T, T) -> T>(
    compose: F,
    relative: Seq<T>,
    absolute: Seq<T>,
)
    requires
        is_propagation(compose, relative, absolute),
    ensures
        absolute[part_index(Part::Hip)] == relative[part_index(Part::Hip)],
{
}

/// After propagation, every edge `(p, c)` of the skeleton has the world
/// transform of `c` given by composing the world transform of `p` with the
/// local transform of `c`.
pub proof fn lemma_composition_consistent<T, F: Fn(T, T) -> T>(
    compose: F,
    relative: Seq<T>,
    absolute: Seq<T>,
    p: Part,
    c: Part,
)
    requires
        is_propagation(compose, relative, absolute),
        parent_of(c) == Some(p),
    ensures
        call_ensures(compose, (absolute[part_index(p)], relative[part_index(c)]), absolute[part_index(c)]),
{
    lemma_index_bijection();
    let k = part_index(c);
    assert(part_at(k) == c);
    assert(0 < k < PART_COUNT);
}

/// The local and world transforms of one character.
pub struct PlayerBody<T> {
    pub relative: Body<T>,
    pub absolute: Body<T>,
}

impl<T> PlayerBody<T> {
    /// Both maps hold one transform per part.
    pub open spec fn wf(&self) -> bool {
        self.relative.wf() && self.absolute.wf()
    }

    pub fn new(body: Body<T>, propagated: Body<T>) -> (r: PlayerBody<T>)
        ensures
            r.relative@ == body@,
            r.absolute@ == propagated@,
    {
        PlayerBody { relative: body, absolute: propagated }
    }

    /// Builds the pair from local transforms, deriving the world ones.
    pub fn from_relative<F: Fn(T, T) -> T>(body: Body<T>, compose: F) -> (r: PlayerBody<T>) where T: Copy
        requires
            body.wf(),
            is_total(compose),
        ensures
            r.wf(),
            r.relative@ == body@,
            is_propagation(compose, r.relative@, r.absolute@),
    {
        let absolute = body.propagated(compose);
        PlayerBody { relative: body, absolute }
    }

    /// Sets the local transform of part `p` and derives the world transforms
    /// again, so that they never go stale.
    pub fn set_relative<F: Fn(T, T) -> T>(&mut self, p: Part, value: T, compose: F) where T: Copy
        requires
            old(self).wf(),
            is_total(compose),
        ensures
            final(self).wf(),
            final(self).relative@ == old(self).relative@.update(part_index(p), value),
            is_propagation(compose, final(self).relative@, final(self).absolute@),
    {
        self.relative.set_part(p, value);
        self.absolute = self.relative.propagated(compose);
    }
}

} // verus!