//! Tempo map with ramps (accelerando/ritardando) and tempo curves.
//!
//! The map keeps its control points sorted by tick and finds, for any tick,
//! the tempo that holds there or the two points that bracket a ramp. It is
//! generic over the tempo value `B` (beats per minute), which it only moves
//! and copies; shaping a ramp between two tempos is up to the curve.

use vstd::prelude::*;

verus! {

/// A point in the tempo map.
#[derive(Debug, Clone, Copy, PartialEq)]
pub struct TempoPoint<B> {
    /// Tick at which this tempo takes effect.
    pub tick: u64,
    /// BPM at this point.
    pub bpm: B,
}

impl<B> TempoPoint<B> {
    /// A point at `tick` with tempo `bpm`.
    pub fn new(tick: u64, bpm: B) -> (p: Self)
        ensures
            p.tick == tick,
            p.bpm == bpm,
    {
        Self { tick, bpm }
    }
}

/// Interpolation curve for tempo ramps.
#[derive(Debug, Clone, Copy, PartialEq, Eq, Structural, Default)]
pub enum TempoCurve {
    /// Linear interpolation between points.
    #[default]
    Linear,
    /// Exponential ease-in.
    Exponential,
    /// Smooth ease-in-out.
    Smooth,
}

/// What holds at a tick of a tempo map.
#[derive(Debug, Clone, Copy, PartialEq)]
pub enum TempoSpan<B> {
    /// A steady tempo.
    Fixed(B),
    /// A ramp from the first point to the second, whose ticks bracket the
    /// tick asked for: `start.tick <= tick < end.tick`.
    Ramp(TempoPoint<B>, TempoPoint<B>),
}

/// Tempo map supporting ramps and curves.
#[derive(Debug, Clone, PartialEq)]
pub struct TempoMap<B> {
    /// Sorted tempo points.
    points: Vec<TempoPoint<B>>,
    /// Default curve for ramps.
    pub default_curve: TempoCurve,
}

/// The abstract state of a tempo map.
pub struct TempoMapView<B> {
    /// The control points, in order.
    pub points: Seq<TempoPoint<B>>,
    /// The curve that shapes ramps.
    pub curve: TempoCurve,
}

impl<B> View for TempoMap<B> {
    type V = TempoMapView<B>;

    closed spec fn view(&self) -> TempoMapView<B> {
        TempoMapView { points: self.points@, curve: self.default_curve }
    }
}

/// The points are in nondecreasing order of tick.
pub open spec fn sorted_by_tick<B>(s: Seq<TempoPoint<B>>) -> bool {
    forall|i: int, j: int| 0 <= i <= j < s.len() ==> s[i].tick <= s[j].tick
}

/// The index of the first point whose tick is later than `tick` (the
/// length, where there is none).
pub open spec fn first_later<B>(s: Seq<TempoPoint<B>>, tick: u64) -> int
    decreases s.len(),
{
    if s.len() == 0 {
        0
    } else if s[0].tick > tick {
        0
    } else {
        1 + first_later(s.drop_first(), tick)
    }
}

/// The points after adding `p`: it goes after every point whose tick is at
/// most its own, so that the order is kept and points at one tick stay in
/// the order they were added.
pub open spec fn with_point<B>(s: Seq<TempoPoint<B>>, p: TempoPoint<B>) -> Seq<TempoPoint<B>> {
    s.insert(first_later(s, p.tick), p)
}

/// What holds at `tick`: nothing in an empty map; the first tempo up to
/// the first point; the last tempo from the last point on; and between,
/// the ramp between the two points that bracket the tick.
pub open spec fn span_of<B>(s: Seq<TempoPoint<B>>, tick: u64) -> Option<TempoSpan<B>> {
    if s.len() == 0 {
        None
    } else if tick <= s[0].tick {
        Some(TempoSpan::Fixed(s[0].bpm))
    } else if tick >= s.last().tick {
        Some(TempoSpan::Fixed(s.last().bpm))
    } else {
        let i: int = first_later(s, tick);
        Some(TempoSpan::Ramp(s[i - 1], s[i]))
    }
}

/// The neighbouring points `i - 1` and `i` bracket `tick`: the first is at
/// or before it, the second after it.
pub open spec fn brackets<B>(s: Seq<TempoPoint<B>>, i: int, tick: u64) -> bool {
    &&& 0 < i < s.len()
    &&& s[i - 1].tick <= tick < s[i].tick
}

/// `first_later` is the first index whose tick is later than `tick`.
pub proof fn lemma_first_later<B>(s: Seq<TempoPoint<B>>, tick: u64)
    ensures
        0 <= first_later(s, tick) <= s.len(),
        forall|j: int| 0 <= j < first_later(s, tick) ==> s[j].tick <= tick,
        first_later(s, tick) < s.len() ==> s[first_later(s, tick)].tick > tick,
    decreases s.len(),
{
    if s.len() > 0 && s[0].tick <= tick {
        lemma_first_later(s.drop_first(), tick);
        assert forall|j: int| 0 <= j < first_later(s, tick) implies s[j].tick <= tick by {
            if j > 0 {
                assert(s[j] == s.drop_first()[j - 1]);
            }
        }
    }
}

/// An index before which every tick is at most `tick`, and at which the
/// tick is later (or the end), is `first_later`.
pub proof fn lemma_first_later_unique<B>(s: Seq<TempoPoint<B>>, tick: u64, i: int)
    requires
        0 <= i <= s.len(),
        forall|j: int| 0 <= j < i ==> s[j].tick <= tick,
        i < s.len() ==> s[i].tick > tick,
    ensures
        first_later(s, tick) == i,
    decreases s.len(),
{
    if s.len() > 0 && i > 0 {
        assert forall|j: int| 0 <= j < i - 1 implies s.drop_first()[j].tick <= tick by {
            assert(s.drop_first()[j] == s[j + 1]);
        }
        lemma_first_later_unique(s.drop_first(), tick, i - 1);
    }
}

/// Adding a point to sorted points keeps them sorted.
pub proof fn lemma_with_point_sorted<B>(s: Seq<TempoPoint<B>>, p: TempoPoint<B>)
    requires
        sorted_by_tick(s),
    ensures
        sorted_by_tick(with_point(s, p)),
        with_point(s, p).len() == s.len() + 1,
{
    lemma_first_later(s, p.tick);
    let k: int = first_later(s, p.tick);
    let t = with_point(s, p);
    assert forall|i: int, j: int| 0 <= i <= j < t.len() implies t[i].tick <= t[j].tick by {
        if j < k {
        } else if j == k {
            if i < k {
            }
        } else if i < k {
            assert(s[k].tick > p.tick);
            assert(s[i].tick <= s[j - 1].tick);
        } else if i == k {
            assert(s[k].tick > p.tick);
            assert(s[k].tick <= s[j - 1].tick);
        } else {
        }
    }
}

impl<B> Default for TempoMap<B> {
    fn default() -> (m: Self)
        ensures
            m@.points == Seq::<TempoPoint<B>>::empty(),
            m@.curve == TempoCurve::Linear,
    {
        Self::new()
    }
}

impl<B> TempoMap<B> {
    /// The map is well formed: its points are sorted by tick.
    pub open spec fn wf(&self) -> bool {
        sorted_by_tick(self@.points)
    }

    /// Create an empty tempo map.
    pub fn new() -> (m: Self)
        ensures
            m.wf(),
            m@.points == Seq::<TempoPoint<B>>::empty(),
            m@.curve == TempoCurve::Linear,
    {
        Self { points: Vec::new(), default_curve: TempoCurve::Linear }
    }

    /// Create a tempo map with a single constant BPM.
    pub fn constant(bpm: B) -> (m: Self)
        ensures
            m.wf(),
            m@.points == seq![TempoPoint { tick: 0, bpm }],
            m@.curve == TempoCurve::Linear,
    {
        let mut map = Self::new();
        map.points.push(TempoPoint::new(0, bpm));
        proof {
            assert(map@.points =~= seq![TempoPoint { tick: 0, bpm }]);
        }
        map
    }

    /// Set the default interpolation curve.
    pub fn set_default_curve(&mut self, curve: TempoCurve)
        ensures
            final(self)@.points == old(self)@.points,
            final(self)@.curve == curve,
    {
        self.default_curve = curve;
    }

    /// Add a tempo point. Points are kept sorted by tick; a point at a tick
    /// that is already present goes after the points there.
    pub fn add_point(&mut self, point: TempoPoint<B>)
        requires
            old(self).wf(),
            old(self)@.points.len() < usize::MAX,
        ensures
            final(self).wf(),
            final(self)@.points == with_point(old(self)@.points, point),
            final(self)@.curve == old(self)@.curve,
    {
        let n: usize = self.points.len();
        let mut i: usize = 0;
        while i < n && self.points[i].tick <= point.tick
            invariant
                n == self.points@.len(),
                self.points@ == old(self)@.points,
                self.default_curve == old(self)@.curve,
                i <= n,
                forall|j: int| 0 <= j < i ==> self.points@[j].tick <= point.tick,
            decreases n - i,
        {
            i = i + 1;
        }
        proof {
            lemma_first_later_unique(self.points@, point.tick, i as int);
            lemma_with_point_sorted(self.points@, point);
        }
        self.points.insert(i, point);
    }

    /// Add an accelerando from `start_tick` to `end_tick`.
    pub fn accelerando(&mut self, start_tick: u64, start_bpm: B, end_tick: u64, end_bpm: B)
        requires
            old(self).wf(),
            old(self)@.points.len() + 2 <= usize::MAX,
        ensures
            final(self).wf(),
            final(self)@.points == with_point(
                with_point(old(self)@.points, TempoPoint { tick: start_tick, bpm: start_bpm }),
                TempoPoint { tick: end_tick, bpm: end_bpm },
            ),
            final(self)@.curve == old(self)@.curve,
    {
        proof {
            lemma_with_point_sorted(old(self)@.points, TempoPoint { tick: start_tick, bpm: start_bpm });
        }
        self.add_point(TempoPoint::new(start_tick, start_bpm));
        self.add_point(TempoPoint::new(end_tick, end_bpm));
    }

    /// Add a ritardando (same mechanism, just decreasing BPM).
    pub fn ritardando(&mut self, start_tick: u64, start_bpm: B, end_tick: u64, end_bpm: B)
        requires
            old(self).wf(),
            old(self)@.points.len() + 2 <= usize::MAX,
        ensures
            final(self).wf(),
            final(self)@.points == with_point(
                with_point(old(self)@.points, TempoPoint { tick: start_tick, bpm: start_bpm }),
                TempoPoint { tick: end_tick, bpm: end_bpm },
            ),
            final(self)@.curve == old(self)@.curve,
    {
        proof {
            lemma_with_point_sorted(old(self)@.points, TempoPoint { tick: start_tick, bpm: start_bpm });
        }
        self.add_point(TempoPoint::new(start_tick, start_bpm));
        self.add_point(TempoPoint::new(end_tick, end_bpm));
    }

    /// Get all tempo points.
    pub fn points(&self) -> (s: &[TempoPoint<B>])
        ensures
            s@ == self@.points,
    {
        self.points.as_slice()
    }

    /// Clear all points.
    pub fn clear(&mut self)
        ensures
            final(self).wf(),
            final(self)@.points == Seq::<TempoPoint<B>>::empty(),
            final(self)@.curve == old(self)@.curve,
    {
        self.points.clear();
    }
}

impl<B: Copy> TempoMap<B> {
    /// What holds at a tick: `None` for an empty map, else the steady tempo
    /// there or the ramp that passes through it.
    pub fn span_at(&self, tick: u64) -> (r: Option<TempoSpan<B>>)
        requires
            self.wf(),
        ensures
            r == span_of(self@.points, tick),
            r matches Some(TempoSpan::Ramp(start, end)) ==> start.tick <= tick < end.tick,
            self@.points.len() == 0 <==> r is None,
            self@.points.len() > 0 && tick <= self@.points[0].tick ==> r == Some(
                TempoSpan::Fixed(self@.points[0].bpm),
            ),
            self@.points.len() > 0 && self@.points[0].tick < tick && self@.points.last().tick
                <= tick ==> r == Some(TempoSpan::Fixed(self@.points.last().bpm)),
            self@.points.len() > 0 && self@.points[0].tick < tick < self@.points.last().tick
                ==> exists|i: int|
                #[trigger] brackets(self@.points, i, tick) && r == Some(
                    TempoSpan::Ramp(self@.points[i - 1], self@.points[i]),
                ),
    {
        let n: usize = self.points.len();
        if n == 0 {
            return None;
        }
        // Before first point: use first BPM
        if tick <= self.points[0].tick {
            return Some(TempoSpan::Fixed(self.points[0].bpm));
        }
        // After last point: use last BPM
        if tick >= self.points[n - 1].tick {
            return Some(TempoSpan::Fixed(self.points[n - 1].bpm));
        }
        // Find bracketing points
        let mut i: usize = 0;
        while i < n && self.points[i].tick <= tick
            invariant
                n == self.points@.len(),
                i <= n,
                forall|j: int| 0 <= j < i ==> self.points@[j].tick <= tick,
            decreases n - i,
        {
            i = i + 1;
        }
        proof {
            lemma_first_later_unique(self.points@, tick, i as int);
        }
        let prev = self.points[i - 1];
        let next = self.points[i];
        proof {
            let k: int = i as int;
            assert(brackets(self@.points, k, tick));
        }
        Some(TempoSpan::Ramp(prev, next))
    }
}

/// A constant map has the same steady tempo at every tick.
pub proof fn lemma_constant_is_steady<B>(bpm: B, tick: u64)
    ensures
        span_of(seq![TempoPoint { tick: 0, bpm }], tick) == Some(TempoSpan::Fixed(bpm)),
{
}

/// Adding a point to sorted points puts it after every point at an
/// earlier or equal tick and before every later one, and keeps the other
/// points in their order: a point added at a tick already present goes
/// after the points there. The result holds exactly the old points and the
/// new one.
pub proof fn lemma_with_point_placement<B>(s: Seq<TempoPoint<B>>, p: TempoPoint<B>)
    requires
        sorted_by_tick(s),
    ensures
        ({
            let k: int = first_later(s, p.tick);
            let t = with_point(s, p);
            &&& 0 <= k <= s.len()
            &&& t[k] == p
            &&& forall|j: int| 0 <= j < k ==> t[j] == s[j] && s[j].tick <= p.tick
            &&& forall|j: int| k < j < t.len() ==> t[j] == s[j - 1] && s[j - 1].tick > p.tick
            &&& t.to_multiset() == s.to_multiset().insert(p)
            &&& sorted_by_tick(t)
        }),
{
    lemma_first_later(s, p.tick);
    lemma_with_point_sorted(s, p);
    vstd::seq_lib::to_multiset_insert(s, first_later(s, p.tick), p);
    let k: int = first_later(s, p.tick);
    assert forall|j: int| k < j < with_point(s, p).len() implies #[trigger] with_point(s, p)[j] == s[j - 1]
        && s[j - 1].tick > p.tick by {
        assert(s[k].tick <= s[j - 1].tick);
    }
}

/// What holds at a tick of a sorted map: nothing for an empty map; up to
/// the first point, the first point's tempo, whatever later points hold;
/// from the last point on, the last point's tempo; and between, the ramp
/// between two neighbouring points whose ticks bracket the tick.
#[verifier::rlimit(30)]
pub proof fn lemma_span_of_sorted<B>(s: Seq<TempoPoint<B>>, tick: u64)
    requires
        sorted_by_tick(s),
    ensures
        s.len() == 0 <==> span_of(s, tick) is None,
        s.len() > 0 && tick <= s[0].tick ==> span_of(s, tick) == Some(TempoSpan::Fixed(s[0].bpm)),
        s.len() > 0 && s[0].tick < tick && s.last().tick <= tick ==> span_of(s, tick) == Some(
            TempoSpan::Fixed(s.last().bpm),
        ),
        s.len() > 0 && s[0].tick < tick < s.last().tick ==> exists|i: int|
            #[trigger] brackets(s, i, tick) && span_of(s, tick) == Some(
                TempoSpan::Ramp(s[i - 1], s[i]),
            ),
{
    if s.len() > 0 && s[0].tick < tick < s.last().tick {
        lemma_first_later(s, tick);
        let i: int = first_later(s, tick);
        assert(i > 0) by {
            if i == 0 {
                assert(s[0].tick > tick);
            }
        }
        assert(i < s.len()) by {
            if i == s.len() {
                assert(s[s.len() - 1].tick <= tick);
            }
        }
        assert(span_of(s, tick) == Some(TempoSpan::Ramp(s[i - 1], s[i])));
        assert(brackets(s, i, tick));
    }
}

} // verus!
