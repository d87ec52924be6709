//! Point masses in the plane and the gravitational force between them.
//!
//! Every quantity is a [`Scalar`]; a vector is an array of two of them. The
//! spec functions here fix the order of the rounded operations, so a contract
//! that names one of them pins its result down to the last bit.

use vstd::prelude::*;
use crate::scalar::Scalar;

verus! {

/// The encoding of the gravitational constant, `6.6743e-11` in SI units.
pub const GRAVITATIONAL_CONSTANT_BITS: u64 = 0x3DD2_589E_FFED_8ACC;

/// A point mass: position in metres, velocity in metres per second, mass in
/// kilograms.
#[derive(Clone, Debug)]
pub struct PhysObject {
    pub body_name: String,
    pub pos: [Scalar; 2],
    pub vel: [Scalar; 2],
    pub mass: Scalar,
}

/// The gravitational constant, `6.6743e-11`.
pub open spec fn spec_gravitational_constant() -> Scalar {
    Scalar { bits: GRAVITATIONAL_CONSTANT_BITS }
}

/// The square root of the sum of the squares of the components.
pub open spec fn spec_vector_length(vector: [Scalar; 2]) -> Scalar {
    vector[0].mul(vector[0]).add(vector[1].mul(vector[1])).sqrt()
}

/// The vector divided by its length; the zero vector stays as it is.
pub open spec fn spec_normalize_vector(vector: [Scalar; 2]) -> [Scalar; 2] {
    if vector[0].is_zero() && vector[1].is_zero() {
        vector
    } else {
        let length = spec_vector_length(vector);
        [vector[0].div(length), vector[1].div(length)]
    }
}

/// The vector from `b` to `a`.
pub open spec fn spec_separation(a: PhysObject, b: PhysObject) -> [Scalar; 2] {
    [a.pos[0].sub(b.pos[0]), a.pos[1].sub(b.pos[1])]
}

/// The length of the vector from one body to the other.
pub open spec fn spec_distance(a: PhysObject, b: PhysObject) -> Scalar {
    spec_vector_length(spec_separation(a, b))
}

/// Newton's law: `G * mass_a * mass_b / distance^2`.
pub open spec fn spec_gravitational_force(a: PhysObject, b: PhysObject) -> Scalar {
    let distance = spec_distance(a, b);
    spec_gravitational_constant().mul(a.mass).mul(b.mass).div(distance.mul(distance))
}

/// The two bodies sit at one and the same finite position.
pub open spec fn coincident(a: PhysObject, b: PhysObject) -> bool {
    a.pos[0].same_finite(b.pos[0]) && a.pos[1].same_finite(b.pos[1])
}

/// Neither component is finite.
pub open spec fn divergent(vector: [Scalar; 2]) -> bool {
    !vector[0].is_finite() && !vector[1].is_finite()
}

/// The impulse that `source` gives to `target` during `dt`: the force between
/// the two, times `dt`, along the unit vector that points from `target` to
/// `source`.
pub open spec fn spec_pair_impulse(source: PhysObject, target: PhysObject, dt: Scalar) -> [Scalar; 2] {
    let force = spec_gravitational_force(source, target).mul(dt);
    let direction = spec_normalize_vector(spec_separation(source, target));
    [force.mul(direction[0]), force.mul(direction[1])]
}

/// The impulses of all `sources` on `target`, summed from zero in the order
/// of the sequence.
pub open spec fn spec_impulse_from(sources: Seq<PhysObject>, target: PhysObject, dt: Scalar) -> [
    Scalar;
    2
]
    decreases sources.len(),
{
    if sources.len() == 0 {
        [Scalar::zero(), Scalar::zero()]
    } else {
        let before = spec_impulse_from(sources.drop_last(), target, dt);
        let last = spec_pair_impulse(sources.last(), target, dt);
        [before[0].add(last[0]), before[1].add(last[1])]
    }
}

/// One accumulated impulse per body: on the body at index `i`, the impulses
/// of all the others. Which bodies are "the others" is a matter of position
/// in the sequence and of nothing else.
pub open spec fn spec_forces_for_bodies(bodies: Seq<PhysObject>, dt: Scalar) -> Seq<[Scalar; 2]> {
    Seq::new(bodies.len(), |i: int| spec_impulse_from(bodies.remove(i), bodies[i], dt))
}

/// Some other body sits where the body at index `target` sits.
pub open spec fn shares_position(bodies: Seq<PhysObject>, target: int) -> bool {
    exists|source: int|
        0 <= source < bodies.len() && source != target && #[trigger] coincident(
            bodies[source],
            bodies[target],
        )
}

/// Some two bodies, distinct by index, sit at one finite position.
pub open spec fn has_coincident_bodies(bodies: Seq<PhysObject>) -> bool {
    exists|target: int| 0 <= target < bodies.len() && #[trigger] shares_position(bodies, target)
}

/// Every component of every position and velocity is finite.
pub open spec fn all_finite(bodies: Seq<PhysObject>) -> bool {
    forall|i: int| 0 <= i < bodies.len() ==> (#[trigger] bodies[i]).spec_is_finite()
}

/// The body after its velocity took up `force / mass`.
pub open spec fn spec_apply_force(body: PhysObject, force: [Scalar; 2]) -> PhysObject {
    PhysObject {
        vel: [
            body.vel[0].add(force[0].div(body.mass)),
            body.vel[1].add(force[1].div(body.mass)),
        ],
        ..body
    }
}

/// The body after it moved with its velocity for `dtime`.
pub open spec fn spec_update(body: PhysObject, dtime: Scalar) -> PhysObject {
    PhysObject {
        pos: [
            body.pos[0].add(body.vel[0].mul(dtime)),
            body.pos[1].add(body.vel[1].mul(dtime)),
        ],
        ..body
    }
}

/// Every body after its velocity took up the force at its index.
pub open spec fn spec_apply_forces(bodies: Seq<PhysObject>, forces: Seq<[Scalar; 2]>) -> Seq<
    PhysObject,
> {
    Seq::new(bodies.len(), |i: int| spec_apply_force(bodies[i], forces[i]))
}

/// Every body after it moved with its velocity for `dtime`.
pub open spec fn spec_update_all(bodies: Seq<PhysObject>, dtime: Scalar) -> Seq<PhysObject> {
    Seq::new(bodies.len(), |i: int| spec_update(bodies[i], dtime))
}

/// Semi-implicit Euler: forces at the current positions, then the velocities,
/// then the positions with the new velocities.
pub open spec fn spec_update_bodies(bodies: Seq<PhysObject>, dt: Scalar) -> Seq<PhysObject> {
    spec_update_all(spec_apply_forces(bodies, spec_forces_for_bodies(bodies, dt)), dt)
}

/// The gravitational constant.
#[verifier::when_used_as_spec(spec_gravitational_constant)]
pub fn gravitational_constant() -> (g: Scalar)
    ensures
        g == spec_gravitational_constant(),
{
    Scalar::from_bits(GRAVITATIONAL_CONSTANT_BITS)
}

/// The Euclidean length of a vector. The zero vector has length zero.
pub fn vector_length(vector: [Scalar; 2]) -> (length: Scalar)
    ensures
        length == spec_vector_length(vector),
        vector[0].is_zero() && vector[1].is_zero() ==> length.is_zero(),
{
    vector[0].mul(vector[0]).add(vector[1].mul(vector[1])).sqrt()
}

/// The vector divided by its length. The zero vector, of either sign in
/// either component, comes back as it went in.
pub fn normalize_vector(vector: [Scalar; 2]) -> (unit: [Scalar; 2])
    ensures
        unit == spec_normalize_vector(vector),
        vector[0].is_zero() && vector[1].is_zero() ==> unit == vector,
{
    if vector[0].is_zero() && vector[1].is_zero() {
        return vector;
    }
    let length = vector_length(vector);
    [vector[0].div(length), vector[1].div(length)]
}

fn separation(a: &PhysObject, b: &PhysObject) -> (d: [Scalar; 2])
    ensures
        d == spec_separation(*a, *b),
        coincident(*a, *b) ==> d[0].is_zero() && d[1].is_zero(),
{
    [a.pos[0].sub(b.pos[0]), a.pos[1].sub(b.pos[1])]
}

/// The distance between two bodies. It is zero between two bodies at one
/// finite position.
pub fn distance(a: &PhysObject, b: &PhysObject) -> (d: Scalar)
    ensures
        d == spec_distance(*a, *b),
        coincident(*a, *b) ==> d.is_zero(),
{
    vector_length(separation(a, b))
}

/// The magnitude of the gravitational force between two bodies. Between two
/// bodies at one finite position it is infinite or a NaN.
pub fn get_gravitational_force(a: &PhysObject, b: &PhysObject) -> (force: Scalar)
    ensures
        force == spec_gravitational_force(*a, *b),
        coincident(*a, *b) ==> !force.is_finite(),
{
    let distance = distance(a, b);
    gravitational_constant().mul(a.mass).mul(b.mass).div(distance.mul(distance))
}

/// The impulse of one body on another; see [`spec_pair_impulse`]. Where the
/// two coincide the force is divided by a zero distance and neither component
/// comes out finite.
pub fn pair_impulse(source: &PhysObject, target: &PhysObject, dt: Scalar) -> (impulse: [Scalar; 2])
    ensures
        impulse == spec_pair_impulse(*source, *target, dt),
        coincident(*source, *target) ==> divergent(impulse),
{
    let force = get_gravitational_force(source, target).mul(dt);
    let direction = normalize_vector(separation(source, target));
    [force.mul(direction[0]), force.mul(direction[1])]
}

/// The bodies before index `upto`, without the one at `target`.
spec fn others_before(bodies: Seq<PhysObject>, target: int, upto: int) -> Seq<PhysObject> {
    if upto <= target {
        bodies.take(upto)
    } else {
        bodies.take(upto).remove(target)
    }
}

/// The accumulated impulse on the body at index `target`.
fn impulse_on(bodies: &[PhysObject], target: usize, dt: Scalar) -> (impulse: [Scalar; 2])
    requires
        target < bodies@.len(),
    ensures
        impulse == spec_impulse_from(bodies@.remove(target as int), bodies@[target as int], dt),
        shares_position(bodies@, target as int) ==> divergent(impulse),
{
    let n = bodies.len();
    let mut impulse = [Scalar::zero(), Scalar::zero()];
    let mut source: usize = 0;
    while source < n
        invariant
            n == bodies@.len(),
            target < n,
            source <= n,
            impulse == spec_impulse_from(
                others_before(bodies@, target as int, source as int),
                bodies@[target as int],
                dt,
            ),
            forall|k: int|
                0 <= k < source && k != target && #[trigger] coincident(
                    bodies@[k],
                    bodies@[target as int],
                ) ==> divergent(impulse),
        decreases n - source,
    {
        let ghost before = others_before(bodies@, target as int, source as int);
        let ghost after = others_before(bodies@, target as int, source + 1);
        if source != target {
            let contribution = pair_impulse(&bodies[source], &bodies[target], dt);
            proof {
                assert(after.drop_last() =~= before);
                assert(after.last() == bodies@[source as int]);
            }
            impulse = [impulse[0].add(contribution[0]), impulse[1].add(contribution[1])];
        } else {
            assert(after =~= before);
        }
        source += 1;
    }
    assert(others_before(bodies@, target as int, n as int) =~= bodies@.remove(target as int));
    impulse
}

/// The force model. For each body, the impulses of all the other bodies over
/// `dt`, each along the line to that body, summed in the order of the slice.
/// A body is left out of its own sum by its index; names play no part. Where
/// two bodies coincide, the impulse on each of them has no finite component.
pub fn get_forces_for_bodies(bodies: &[PhysObject], dt: Scalar) -> (forces: Vec<[Scalar; 2]>)
    ensures
        forces@ == spec_forces_for_bodies(bodies@, dt),
        forall|i: int|
            0 <= i < bodies@.len() && shares_position(bodies@, i) ==> divergent(#[trigger] forces@[i]),
{
    let n = bodies.len();
    let mut forces: Vec<[Scalar; 2]> = Vec::new();
    let mut target: usize = 0;
    while target < n
        invariant
            n == bodies@.len(),
            target <= n,
            forces@.len() == target,
            forall|i: int|
                0 <= i < target ==> #[trigger] forces@[i] == spec_impulse_from(
                    bodies@.remove(i),
                    bodies@[i],
                    dt,
                ),
            forall|i: int|
                0 <= i < target && shares_position(bodies@, i) ==> divergent(#[trigger] forces@[i]),
        decreases n - target,
    {
        let impulse = impulse_on(bodies, target, dt);
        forces.push(impulse);
        target += 1;
    }
    assert(forces@ =~= spec_forces_for_bodies(bodies@, dt));
    forces
}

impl PhysObject {
    /// The position and the velocity are finite in both components.
    pub open spec fn spec_is_finite(&self) -> bool {
        &&& self.pos[0].is_finite()
        &&& self.pos[1].is_finite()
        &&& self.vel[0].is_finite()
        &&& self.vel[1].is_finite()
    }

    /// Whether the position and the velocity are finite in both components.
    #[verifier::when_used_as_spec(spec_is_finite)]
    pub fn is_finite(&self) -> (r: bool)
        ensures
            r == self.spec_is_finite(),
    {
        self.pos[0].is_finite() && self.pos[1].is_finite() && self.vel[0].is_finite()
            && self.vel[1].is_finite()
    }

    /// Adds `force / mass` to the velocity. Where the force or the velocity
    /// had no finite component, the new velocity has none.
    pub fn apply_force(&mut self, force: [Scalar; 2])
        ensures
            *final(self) == spec_apply_force(*old(self), force),
            divergent(force) || divergent(old(self).vel) ==> divergent(final(self).vel),
    {
        self.vel = [
            self.vel[0].add(force[0].div(self.mass)),
            self.vel[1].add(force[1].div(self.mass)),
        ];
    }

    /// Adds `velocity * dtime` to the position.
    pub fn update(&mut self, dtime: Scalar)
        ensures
            *final(self) == spec_update(*old(self), dtime),
    {
        self.pos = [
            self.pos[0].add(self.vel[0].mul(dtime)),
            self.pos[1].add(self.vel[1].mul(dtime)),
        ];
    }
}

/// Applies to each body the force at its index. There must be a force for
/// every body; forces beyond the last body are ignored.
pub fn apply_forces(bodies: &mut [PhysObject], forces: &[[Scalar; 2]])
    requires
        forces@.len() >= old(bodies)@.len(),
    ensures
        final(bodies)@ == spec_apply_forces(old(bodies)@, forces@),
        forall|i: int|
            0 <= i < old(bodies)@.len() && (divergent(forces@[i]) || divergent(
                old(bodies)@[i].vel,
            )) ==> divergent((#[trigger] final(bodies)@[i]).vel),
{
    let n = bodies.len();
    let mut i: usize = 0;
    while i < n
        invariant
            n == old(bodies)@.len(),
            bodies@.len() == n,
            forces@.len() >= n,
            i <= n,
            forall|k: int|
                0 <= k < i ==> #[trigger] bodies@[k] == spec_apply_force(old(bodies)@[k], forces@[k]),
            forall|k: int| i <= k < n ==> #[trigger] bodies@[k] == old(bodies)@[k],
            forall|k: int|
                0 <= k < i && (divergent(forces@[k]) || divergent(old(bodies)@[k].vel))
                    ==> divergent((#[trigger] bodies@[k]).vel),
        decreases n - i,
    {
        bodies[i].apply_force(forces[i]);
        i += 1;
    }
    assert(bodies@ =~= spec_apply_forces(old(bodies)@, forces@));
}

/// Moves every body with its velocity for `dtime`.
pub fn update_all(bodies: &mut [PhysObject], dtime: Scalar)
    ensures
        final(bodies)@ == spec_update_all(old(bodies)@, dtime),
{
    let n = bodies.len();
    let mut i: usize = 0;
    while i < n
        invariant
            n == old(bodies)@.len(),
            bodies@.len() == n,
            i <= n,
            forall|k: int| 0 <= k < i ==> #[trigger] bodies@[k] == spec_update(old(bodies)@[k], dtime),
            forall|k: int| i <= k < n ==> #[trigger] bodies@[k] == old(bodies)@[k],
        decreases n - i,
    {
        bodies[i].update(dtime);
        i += 1;
    }
    assert(bodies@ =~= spec_update_all(old(bodies)@, dtime));
}

/// The two bodies have the same position and the same mass.
pub open spec fn same_matter(a: PhysObject, b: PhysObject) -> bool {
    a.pos == b.pos && a.mass == b.mass
}

/// The two sets have, index by index, bodies of the same position and mass.
pub open spec fn same_matter_throughout(first: Seq<PhysObject>, second: Seq<PhysObject>) -> bool {
    &&& first.len() == second.len()
    &&& forall|i: int| 0 <= i < first.len() ==> same_matter(#[trigger] first[i], second[i])
}

proof fn lemma_impulse_from_matter(
    first: Seq<PhysObject>,
    first_target: PhysObject,
    second: Seq<PhysObject>,
    second_target: PhysObject,
    dt: Scalar,
)
    requires
        same_matter_throughout(first, second),
        same_matter(first_target, second_target),
    ensures
        spec_impulse_from(first, first_target, dt) == spec_impulse_from(second, second_target, dt),
    decreases first.len(),
{
    if first.len() > 0 {
        assert(same_matter(first.last(), second.last()));
        assert(same_matter_throughout(first.drop_last(), second.drop_last())) by {
            assert forall|i: int| 0 <= i < first.drop_last().len() implies same_matter(
                #[trigger] first.drop_last()[i],
                second.drop_last()[i],
            ) by {
                assert(same_matter(first[i], second[i]));
            }
        }
        lemma_impulse_from_matter(
            first.drop_last(),
            first_target,
            second.drop_last(),
            second_target,
            dt,
        );
    }
}

/// The force model reads positions and masses and nothing else. Two sets of
/// bodies that agree in these, index by index, get the same impulses,
/// whatever the bodies are called and however fast they move: a body is told
/// from the others by its index, so two bodies of one name pull at each other
/// like any two.
pub proof fn lemma_forces_ignore_names(first: Seq<PhysObject>, second: Seq<PhysObject>, dt: Scalar)
    requires
        same_matter_throughout(first, second),
    ensures
        spec_forces_for_bodies(first, dt) == spec_forces_for_bodies(second, dt),
{
    assert forall|i: int| 0 <= i < first.len() implies spec_impulse_from(
        first.remove(i),
        first[i],
        dt,
    ) == spec_impulse_from(second.remove(i), second[i], dt) by {
        assert(same_matter(first[i], second[i]));
        assert(same_matter_throughout(first.remove(i), second.remove(i))) by {
            assert forall|k: int| 0 <= k < first.remove(i).len() implies same_matter(
                #[trigger] first.remove(i)[k],
                second.remove(i)[k],
            ) by {
                if k < i {
                    assert(same_matter(first[k], second[k]));
                } else {
                    assert(same_matter(first[k + 1], second[k + 1]));
                }
            }
        }
        lemma_impulse_from_matter(first.remove(i), first[i], second.remove(i), second[i], dt);
    }
    assert(spec_forces_for_bodies(first, dt) =~= spec_forces_for_bodies(second, dt));
}

/// One step of the baseline scheme, semi-implicit Euler. Bodies that
/// coincide do not come out of it with finite velocities.
pub fn update_bodies(bodies: &mut [PhysObject], dt: Scalar)
    ensures
        final(bodies)@ == spec_update_bodies(old(bodies)@, dt),
        has_coincident_bodies(old(bodies)@) ==> !all_finite(final(bodies)@),
{
    let forces = get_forces_for_bodies(bodies, dt);
    apply_forces(bodies, forces.as_slice());
    let ghost kicked = bodies@;
    update_all(bodies, dt);
    proof {
        if has_coincident_bodies(old(bodies)@) {
            let i = choose|i: int|
                0 <= i < old(bodies)@.len() && #[trigger] shares_position(old(bodies)@, i);
            assert(divergent(forces@[i]));
            assert(divergent(kicked[i].vel));
            assert(bodies@[i] == spec_update(kicked[i], dt));
            assert(!bodies@[i].spec_is_finite());
        }
    }
}

} // verus!
