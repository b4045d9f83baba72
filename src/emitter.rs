use vstd::prelude::*;

verus! {

/// Number of particles emitted by default.
pub const DEFAULT_PARTICLE_COUNT: usize = 50000;

/// Smallest spawn radius.
pub const SPAWN_RADIUS_MIN: u32 = 2;

/// Largest spawn radius.
pub const SPAWN_RADIUS_MAX: u32 = 100;

/// Particles spawned inside this radius take the core colour, the rest the arm colour.
pub const CORE_RADIUS: u32 = 15;

/// Speed of the tangential velocity a particle is spawned with.
pub const ORBITAL_SPEED: u32 = 15;

/// Arm policy: particles alternate between the two arms by their index, even
/// indices on arm 0 and odd ones on arm 1.
pub open spec fn arm_of(i: int) -> u32 {
    (i % 2) as u32
}

/// The arms of the first `n` particles, in spawn order.
pub open spec fn arms_of(n: nat) -> Seq<u32> {
    Seq::new(n, |i: int| arm_of(i))
}

/// How many entries of `s` are `arm`.
pub open spec fn count_arm(s: Seq<u32>, arm: u32) -> nat
    decreases s.len(),
{
    if s.len() == 0 {
        0
    } else {
        count_arm(s.drop_last(), arm) + if s.last() == arm { 1nat } else { 0nat }
    }
}

/// The arm of the particle spawned with index `i`.
pub fn arm_for_index(i: usize) -> (r: u32)
    ensures
        r == arm_of(i as int),
        r == 0 || r == 1,
{
    (i % 2) as u32
}

/// The arms of a population of `n` particles, in spawn order.
pub fn assign_arms(n: usize) -> (r: Vec<u32>)
    ensures
        r@ == arms_of(n as nat),
{
    let mut r: Vec<u32> = Vec::new();
    let mut i: usize = 0;
    while i < n
        invariant
            i <= n,
            r@ =~= arms_of(i as nat),
        decreases n - i,
    {
        let a = arm_for_index(i);
        r.push(a);
        i = i + 1;
    }
    r
}

/// Every emitted particle is on arm 0 or arm 1, and the alternating policy
/// puts exactly `(n + 1) / 2` of `n` particles on arm 0 and `n / 2` on arm 1.
pub proof fn lemma_arm_split(n: nat)
    ensures
        forall|i: int| 0 <= i < n ==> #[trigger] arms_of(n)[i] == 0 || arms_of(n)[i] == 1,
        count_arm(arms_of(n), 0) == (n + 1) / 2,
        count_arm(arms_of(n), 1) == n / 2,
    decreases n,
{
    if n > 0 {
        lemma_arm_split((n - 1) as nat);
        assert(arms_of(n).drop_last() =~= arms_of((n - 1) as nat));
    }
}

/// Fires once: the population is emitted on the first request only.
pub struct EmitterLatch {
    pub fired: bool,
}

impl EmitterLatch {
    /// A latch that has not fired yet.
    pub fn new() -> (r: Self)
        ensures
            !r.fired,
    {
        EmitterLatch { fired: false }
    }

    /// Whether to emit now: true the first time only.
    pub fn fire(&mut self) -> (r: bool)
        ensures
            r == !old(self).fired,
            final(self).fired,
    {
        let r = !self.fired;
        self.fired = true;
        r
    }
}

} // verus!
