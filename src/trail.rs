use vstd::prelude::*;
use std::collections::VecDeque;

verus! {

/// Largest number of positions a trail keeps.
pub const TRAIL_CAPACITY: usize = 20;

/// What a trail holds after `p` is appended to `s`: the newest position goes
/// to the back, and the oldest is evicted once the capacity is exceeded.
pub open spec fn trail_push<T>(s: Seq<T>, p: T) -> Seq<T> {
    let t = s.push(p);
    if t.len() > TRAIL_CAPACITY {
        t.drop_first()
    } else {
        t
    }
}

/// What a trail holds after each position of `pts` is appended in order.
pub open spec fn trail_after<T>(s: Seq<T>, pts: Seq<T>) -> Seq<T>
    decreases pts.len(),
{
    if pts.len() == 0 {
        s
    } else {
        trail_push(trail_after(s, pts.drop_last()), pts.last())
    }
}

/// The newest `TRAIL_CAPACITY` entries of `s` (all of them if there are fewer),
/// oldest first.
pub open spec fn newest<T>(s: Seq<T>) -> Seq<T> {
    if s.len() > TRAIL_CAPACITY {
        s.subrange(s.len() - TRAIL_CAPACITY, s.len() as int)
    } else {
        s
    }
}

/// A bounded first-in first-out history of recent positions, oldest first.
pub struct Trail<T> {
    points: VecDeque<T>,
}

impl<T> View for Trail<T> {
    type V = Seq<T>;

    closed spec fn view(&self) -> Seq<T> {
        self.points@
    }
}

impl<T> Trail<T> {
    #[verifier::type_invariant]
    spec fn bounded(&self) -> bool {
        self.points@.len() <= TRAIL_CAPACITY
    }

    /// An empty trail.
    pub fn new() -> (r: Self)
        ensures
            r@ == Seq::<T>::empty(),
    {
        Trail { points: VecDeque::new() }
    }

    /// Appends `p` as the newest position, evicting the oldest one when the
    /// trail would otherwise exceed its capacity.
    pub fn push(&mut self, p: T)
        ensures
            final(self)@ == trail_push(old(self)@, p),
            final(self)@.len() <= TRAIL_CAPACITY,
    {
        proof {
            use_type_invariant(&*self);
        }
        let mut points = VecDeque::new();
        std::mem::swap(&mut self.points, &mut points);
        points.push_back(p);
        if points.len() > TRAIL_CAPACITY {
            points.pop_front();
        }
        *self = Trail { points };
    }

    /// Number of positions held.
    pub fn len(&self) -> (r: usize)
        ensures
            r == self@.len(),
            r <= TRAIL_CAPACITY,
    {
        proof {
            use_type_invariant(self);
        }
        self.points.len()
    }
}

impl<T: Copy> Trail<T> {
    /// The positions held, oldest first.
    pub fn to_vec(&self) -> (r: Vec<T>)
        ensures
            r@ == self@,
    {
        let mut r: Vec<T> = Vec::new();
        let n = self.points.len();
        let mut i: usize = 0;
        while i < n
            invariant
                n == self@.len(),
                i <= n,
                r@ == self@.subrange(0, i as int),
            decreases n - i,
        {
            r.push(self.points[i]);
            i = i + 1;
        }
        assert(self@.subrange(0, n as int) =~= self@);
        r
    }

    /// The line segments joining consecutive positions, oldest first; none
    /// when fewer than two positions are held.
    pub fn segments(&self) -> (r: Vec<(T, T)>)
        ensures
            r.len() == if self@.len() < 2 { 0 } else { self@.len() - 1 },
            forall|i: int| 0 <= i < r.len() ==> #[trigger] r@[i] == (self@[i], self@[i + 1]),
    {
        let mut r: Vec<(T, T)> = Vec::new();
        let n = self.points.len();
        if n < 2 {
            return r;
        }
        let mut i: usize = 0;
        while i + 1 < n
            invariant
                n == self@.len(),
                n >= 2,
                i + 1 <= n,
                r.len() == i,
                forall|j: int| 0 <= j < i ==> #[trigger] r@[j] == (self@[j], self@[j + 1]),
            decreases n - i,
        {
            r.push((self.points[i], self.points[i + 1]));
            i = i + 1;
        }
        r
    }
}

/// However many positions are appended, a trail that starts within its
/// capacity never holds more than `TRAIL_CAPACITY` of them.
pub proof fn lemma_trail_stays_bounded<T>(s: Seq<T>, pts: Seq<T>)
    requires
        s.len() <= TRAIL_CAPACITY,
    ensures
        trail_after(s, pts).len() <= TRAIL_CAPACITY,
    decreases pts.len(),
{
    if pts.len() > 0 {
        lemma_trail_stays_bounded(s, pts.drop_last());
    }
}

/// A trail holds exactly the newest `TRAIL_CAPACITY` positions of everything
/// it was given, in the order they were appended (oldest first).
pub proof fn lemma_trail_keeps_newest<T>(s: Seq<T>, pts: Seq<T>)
    requires
        s.len() <= TRAIL_CAPACITY,
    ensures
        trail_after(s, pts) == newest(s + pts),
    decreases pts.len(),
{
    if pts.len() > 0 {
        let prev = pts.drop_last();
        lemma_trail_keeps_newest(s, prev);
        assert(s + pts =~= (s + prev).push(pts.last()));
        let a = s + prev;
        let b = a.push(pts.last());
        if newest(a).push(pts.last()).len() > TRAIL_CAPACITY {
            assert(newest(a).push(pts.last()).drop_first() =~= newest(b));
        } else {
            assert(newest(a).push(pts.last()) =~= newest(b));
        }
    }
}

} // verus!
