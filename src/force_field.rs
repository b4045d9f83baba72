use vstd::prelude::*;

verus! {

/// Height above (or below) the attractor's plane past which a particle is in
/// jet flight and feels no force.
pub const JET_ALTITUDE: u32 = 10;

/// Distance from the attractor under which a particle is ejected as a jet.
pub const EJECT_RADIUS: u32 = 3;

/// Vertical speed given to an ejected particle.
pub const JET_SPEED: i32 = 80;

/// Gain of the restoring force toward the particle's ideal spiral position.
pub const PINCH_GAIN: u32 = 10;

/// How a particle is treated on one tick, derived afresh from where it is.
#[derive(PartialEq, Eq, Structural, Clone, Copy, Debug)]
pub enum Regime {
    /// In jet flight: no force, the position integrates the current velocity.
    Ballistic,
    /// Too close to the attractor: snapped onto its axis and shot out vertically.
    Eject,
    /// Pulled toward its ideal spiral position and damped.
    Pinch,
}

/// What the force field does to a particle's velocity on one tick.
#[derive(PartialEq, Eq, Structural, Clone, Copy, Debug)]
pub enum Motion {
    /// Velocity is left unchanged.
    Coast,
    /// Velocity becomes purely vertical with this signed speed.
    Eject { vertical_velocity: i32 },
    /// Velocity receives the pinch and drag forces.
    Pinch,
}

/// The regime of a particle, given whether it is past the jet altitude and
/// whether it is inside the ejection radius. Jet flight takes precedence.
pub open spec fn regime_of(above_jet_altitude: bool, inside_eject_radius: bool) -> Regime {
    if above_jet_altitude {
        Regime::Ballistic
    } else if inside_eject_radius {
        Regime::Eject
    } else {
        Regime::Pinch
    }
}

/// The signed vertical jet velocity: up when `upward`, down otherwise.
pub open spec fn jet_velocity_of(upward: bool) -> i32 {
    if upward {
        JET_SPEED
    } else {
        (-JET_SPEED) as i32
    }
}

/// The motion for a tick, given the regime inputs and the direction a
/// fresh jet would take.
pub open spec fn motion_of(above_jet_altitude: bool, inside_eject_radius: bool, upward: bool) -> Motion {
    match regime_of(above_jet_altitude, inside_eject_radius) {
        Regime::Ballistic => Motion::Coast,
        Regime::Eject => Motion::Eject { vertical_velocity: jet_velocity_of(upward) },
        Regime::Pinch => Motion::Pinch,
    }
}

/// Classifies a particle for this tick (`|y| > JET_ALTITUDE` and
/// `r < EJECT_RADIUS` are measured by the caller from the current position).
pub fn classify(above_jet_altitude: bool, inside_eject_radius: bool) -> (r: Regime)
    ensures
        r == regime_of(above_jet_altitude, inside_eject_radius),
{
    if above_jet_altitude {
        Regime::Ballistic
    } else if inside_eject_radius {
        Regime::Eject
    } else {
        Regime::Pinch
    }
}

/// The vertical velocity of a fresh jet; its magnitude is always `JET_SPEED`.
pub fn jet_velocity(upward: bool) -> (r: i32)
    ensures
        r == jet_velocity_of(upward),
        r == JET_SPEED || r == -JET_SPEED,
{
    if upward {
        JET_SPEED
    } else {
        -JET_SPEED
    }
}

/// The motion for a tick, with the jet direction supplied.
pub fn plan_motion(above_jet_altitude: bool, inside_eject_radius: bool, upward: bool) -> (r: Motion)
    ensures
        r == motion_of(above_jet_altitude, inside_eject_radius, upward),
{
    match classify(above_jet_altitude, inside_eject_radius) {
        Regime::Ballistic => Motion::Coast,
        Regime::Eject => Motion::Eject { vertical_velocity: jet_velocity(upward) },
        Regime::Pinch => Motion::Pinch,
    }
}

/// The motion for a tick, with the jet direction drawn by a fair coin when a
/// particle is ejected.
pub fn next_motion(above_jet_altitude: bool, inside_eject_radius: bool) -> (r: Motion)
    ensures
        exists|upward: bool| r == motion_of(above_jet_altitude, inside_eject_radius, upward),
        (r == Motion::Coast) == above_jet_altitude,
        (r == Motion::Pinch) == (!above_jet_altitude && !inside_eject_radius),
{
    let upward = if !above_jet_altitude && inside_eject_radius {
        rand::random::<bool>()
    } else {
        true
    };
    plan_motion(above_jet_altitude, inside_eject_radius, upward)
}

/// Offset of a spiral arm's angle in half turns (multiples of pi): arm 0 starts
/// at angle 0, arm 1 opposite it.
pub fn arm_offset_half_turns(arm: u32) -> (r: u32)
    ensures
        r == if arm == 0 { 0u32 } else { 1u32 },
{
    if arm == 0 {
        0
    } else {
        1
    }
}

/// Relies on rand::random: a value drawn from the thread-local generator.
/// Nothing is promised of the value. (It panics only when the operating
/// system's entropy source cannot seed the generator.)
pub assume_specification<T>[ rand::random::<T> ]() -> (r: T)
    where
        rand::distributions::Standard: rand::distributions::Distribution<T>,
;

} // verus!
