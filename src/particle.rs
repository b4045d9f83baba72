use vstd::prelude::*;
use crate::force_field::{motion_of, next_motion, Motion, JET_SPEED};
use crate::trail::{trail_push, Trail, TRAIL_CAPACITY};

verus! {

/// The moving state of one particle: where it is, how fast it goes, and the
/// positions it has recently passed through. `V` is the caller's vector type.
pub struct Body<V> {
    pub position: V,
    pub velocity: V,
    pub trail: Trail<V>,
}

impl<V: Copy> Body<V> {
    /// A body at rest in the sense of history: it has no trail yet.
    pub fn new(position: V, velocity: V) -> (r: Self)
        ensures
            r.position == position,
            r.velocity == velocity,
            r.trail@ == Seq::<V>::empty(),
    {
        Body { position, velocity, trail: Trail::new() }
    }

    /// Advances the body by one tick under `motion`.
    ///
    /// The caller supplies the vector arithmetic: `eject` maps the position and
    /// the signed jet speed to the position snapped onto the attractor's axis
    /// and the new vertical velocity; `force` maps position and velocity to
    /// the velocity after the pinch and drag forces; `integrate` maps position
    /// and velocity to the position one tick later.
    ///
    /// Coasting leaves the velocity exactly as it was; every regime then moves
    /// the position by the (possibly new) velocity, and the new position is
    /// appended to the trail.
    pub fn tick<E, F, I>(&mut self, motion: Motion, eject: E, force: F, integrate: I)
        where
            E: Fn(V, i32) -> (V, V),
            F: Fn(V, V) -> V,
            I: Fn(V, V) -> V,
        requires
            forall|p: V, s: i32| eject.requires((p, s)),
            forall|p: V, v: V| force.requires((p, v)),
            forall|p: V, v: V| integrate.requires((p, v)),
        ensures
            match motion {
                Motion::Coast => {
                    &&& final(self).velocity == old(self).velocity
                    &&& integrate.ensures((old(self).position, old(self).velocity), final(self).position)
                },
                Motion::Eject { vertical_velocity } => exists|snapped: V|
                    {
                        &&& eject.ensures((old(self).position, vertical_velocity), (snapped, final(self).velocity))
                        &&& integrate.ensures((snapped, final(self).velocity), final(self).position)
                    },
                Motion::Pinch => {
                    &&& force.ensures((old(self).position, old(self).velocity), final(self).velocity)
                    &&& integrate.ensures((old(self).position, final(self).velocity), final(self).position)
                },
            },
            final(self).trail@ == trail_push(old(self).trail@, final(self).position),
            final(self).trail@.len() <= TRAIL_CAPACITY,
    {
        let start = self.position;
        let ghost mut snapped_at: V = start;
        match motion {
            Motion::Coast => {},
            Motion::Eject { vertical_velocity } => {
                let (snapped, velocity) = eject(start, vertical_velocity);
                proof {
                    snapped_at = snapped;
                }
                self.position = snapped;
                self.velocity = velocity;
            },
            Motion::Pinch => {
                self.velocity = force(start, self.velocity);
            },
        }
        self.position = integrate(self.position, self.velocity);
        self.trail.push(self.position);
        proof {
            if let Motion::Eject { vertical_velocity } = motion {
                assert(eject.ensures((start, vertical_velocity), (snapped_at, self.velocity)));
                assert(integrate.ensures((snapped_at, self.velocity), self.position));
            }
        }
    }

    /// One tick of the force field for this body: classifies it from the
    /// caller's measurements of its current position (`|y| > JET_ALTITUDE`,
    /// `r < EJECT_RADIUS`), draws the direction of a fresh jet, and advances
    /// it. Returns the motion applied, so that the caller can recolour an
    /// ejected particle.
    ///
    /// In jet flight the velocity is left exactly as it was; a particle
    /// ejected on this tick leaves with vertical speed `JET_SPEED`, up or down.
    pub fn step<E, F, I>(
        &mut self,
        above_jet_altitude: bool,
        inside_eject_radius: bool,
        eject: E,
        force: F,
        integrate: I,
    ) -> (m: Motion)
        where
            E: Fn(V, i32) -> (V, V),
            F: Fn(V, V) -> V,
            I: Fn(V, V) -> V,
        requires
            forall|p: V, s: i32| eject.requires((p, s)),
            forall|p: V, v: V| force.requires((p, v)),
            forall|p: V, v: V| integrate.requires((p, v)),
        ensures
            exists|upward: bool| m == motion_of(above_jet_altitude, inside_eject_radius, upward),
            above_jet_altitude ==> {
                &&& m == Motion::Coast
                &&& final(self).velocity == old(self).velocity
                &&& integrate.ensures((old(self).position, old(self).velocity), final(self).position)
            },
            !above_jet_altitude && inside_eject_radius ==> exists|s: i32, snapped: V|
                {
                    &&& (s == JET_SPEED || s == -JET_SPEED)
                    &&& m == Motion::Eject { vertical_velocity: s }
                    &&& eject.ensures((old(self).position, s), (snapped, final(self).velocity))
                    &&& integrate.ensures((snapped, final(self).velocity), final(self).position)
                },
            !above_jet_altitude && !inside_eject_radius ==> {
                &&& m == Motion::Pinch
                &&& force.ensures((old(self).position, old(self).velocity), final(self).velocity)
                &&& integrate.ensures((old(self).position, final(self).velocity), final(self).position)
            },
            final(self).trail@ == trail_push(old(self).trail@, final(self).position),
            final(self).trail@.len() <= TRAIL_CAPACITY,
    {
        let m = next_motion(above_jet_altitude, inside_eject_radius);
        self.tick(m, eject, force, integrate);
        m
    }
}

} // verus!
