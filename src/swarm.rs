//! The swarm: bulk creation of crawlers, the fixed-period tick clock and the
//! per-tick pulse and repositioning step with its shared growth-frame counter.
use vstd::prelude::*;
use vstd::arithmetic::div_mod::{lemma_fundamental_div_mod, lemma_fundamental_div_mod_converse_mod};
use crate::canvas::{Coord, position_from_samples, position_spec, on_canvas};
use crate::crawler::{Color, Crawler, COLOR_ONE, RADIUS_UPDATE, PIXEL_RADIUS, fade_spec};

verus! {

/// Number of crawlers in the swarm.
pub const CRAWLERS_COUNT: usize = 1300;

/// Every crawler whose creation index is a multiple of this is of group 1.
pub const GROUP_STRIDE: usize = 5;

/// Period of the simulation tick, in nanoseconds.
pub const TIMER_PACE_NANOS: u64 = 16_000_000;

/// The growth frame at which the process starts.
pub const INITIAL_FRAME: u32 = 1;

/// The group of the crawler created at index `i`.
pub open spec fn group_of(i: int) -> u32 {
    if i % GROUP_STRIDE as int == 0 {
        1
    } else {
        0
    }
}

/// The colour a crawler of group `g` is created with: opaque red for group 1,
/// translucent white otherwise.
pub open spec fn group_color(g: u32) -> Color {
    if g == 1 {
        Color { r: COLOR_ONE, g: 0, b: 0, a: COLOR_ONE }
    } else {
        Color { r: COLOR_ONE, g: COLOR_ONE, b: COLOR_ONE, a: 600 }
    }
}

/// The growth-frame counter after one advance (wrapping at the top of `u32`).
pub open spec fn next_frame(f: u32) -> u32 {
    if f == u32::MAX {
        0
    } else {
        (f + 1) as u32
    }
}

/// Whether crawler `c` completes its pulse cycle in the coming tick.
pub open spec fn crosses(c: Crawler) -> bool {
    c.current_radius + RADIUS_UPDATE > c.pixel_radius
}

/// Whether any crawler of `s` completes its pulse cycle in the coming tick.
pub open spec fn any_crosses(s: Seq<Crawler>) -> bool {
    exists|i: int| 0 <= i < s.len() && #[trigger] crosses(s[i])
}

/// Whether `p` is the position that `sampler` can give crawler `id` at growth
/// frame `frame`.
pub open spec fn placed_by<F: Fn(u32, u32) -> (i32, i32)>(sampler: F, id: u32, frame: u32, p: Coord) -> bool {
    exists|s: (i32, i32)| #[trigger] sampler.ensures((id, frame), s) && p == position_spec(s.0 as int, s.1 as int)
}

/// The crawler `c` one tick later, apart from its position.
pub open spec fn stepped(c: Crawler, n: Crawler) -> bool {
    &&& n.id == c.id
    &&& n.pixel_radius == c.pixel_radius
    &&& n.map_id == c.map_id
    &&& n.pixel_color == fade_spec(c.pixel_color)
    &&& n.current_radius == if crosses(c) { 0 } else { (c.current_radius + RADIUS_UPDATE) as u32 }
    &&& !crosses(c) ==> n.start_pos == c.start_pos
}

/// A repeating timer with a fixed period of `TIMER_PACE_NANOS`.
#[derive(Clone, Copy, Debug, PartialEq, Eq, Structural)]
pub struct Clock {
    pub elapsed: u64,
}

impl Clock {
    /// Time accumulated since the last completed period is below the period.
    pub open spec fn wf(&self) -> bool {
        self.elapsed < TIMER_PACE_NANOS
    }

    /// A timer with nothing accumulated.
    pub fn new() -> (r: Self)
        ensures
            r.wf(),
            r.elapsed == 0,
    {
        Clock { elapsed: 0 }
    }

    /// Adds `delta` nanoseconds; returns whether a period was completed. At
    /// most one completion is reported per call, whatever `delta` is.
    pub fn tick(&mut self, delta: u64) -> (fired: bool)
        requires
            old(self).wf(),
        ensures
            final(self).wf(),
            fired == (old(self).elapsed + delta >= TIMER_PACE_NANOS),
            final(self).elapsed == (old(self).elapsed + delta) % (TIMER_PACE_NANOS as int),
    {
        let rem: u64 = delta % TIMER_PACE_NANOS;
        let total: u64 = self.elapsed + rem;
        let fired: bool = delta >= TIMER_PACE_NANOS || total >= TIMER_PACE_NANOS;
        let next: u64 = if total >= TIMER_PACE_NANOS { total - TIMER_PACE_NANOS } else { total };
        proof {
            let p = TIMER_PACE_NANOS as int;
            let e = self.elapsed as int;
            let q = delta as int / p;
            lemma_fundamental_div_mod(delta as int, p);
            let qq = if total >= TIMER_PACE_NANOS { q + 1 } else { q };
            assert(e + delta == qq * p + next) by (nonlinear_arith)
                requires
                    delta as int == p * q + rem,
                    total == e + rem,
                    qq == if total >= p { q + 1 } else { q },
                    next == if total >= p { total - p } else { total as int },
            ;
            lemma_fundamental_div_mod_converse_mod(e + delta, p, qq, next as int);
        }
        self.elapsed = next;
        fired
    }
}

/// The crawlers of a swarm, its growth-frame counter and its tick clock.
#[derive(Debug)]
pub struct Swarm {
    pub crawlers: Vec<Crawler>,
    pub frame_counter: u32,
    pub clock: Clock,
}

impl Swarm {
    /// Crawler `i` has id `i`, the shared radius cap, a radius within the cap,
    /// the group of its index, the RGB of its group and a position on the canvas.
    pub open spec fn wf(&self) -> bool {
        &&& self.clock.wf()
        &&& self.crawlers@.len() <= u32::MAX as int + 1
        &&& forall|i: int| 0 <= i < self.crawlers@.len() ==> #[trigger] crawler_wf(self.crawlers@[i], i)
    }

    /// Creates `count` crawlers by index. Crawler `i` gets group 1 and opaque
    /// red when `i` is a multiple of `GROUP_STRIDE`, else group 0 and
    /// translucent white; its position comes from the samples that `sampler`
    /// gives for `(i, frame_counter)`.
    pub fn spawn_crawlers<F: Fn(u32, u32) -> (i32, i32)>(count: usize, frame_counter: u32, sampler: &F) -> (r: Self)
        requires
            count <= u32::MAX as int + 1,
            forall|id: u32, f: u32| #[trigger] sampler.requires((id, f)),
        ensures
            r.wf(),
            r.crawlers@.len() == count,
            r.frame_counter == frame_counter,
            r.clock.elapsed == 0,
            forall|i: int| 0 <= i < count ==> {
                let c = #[trigger] r.crawlers@[i];
                &&& c.current_radius == 0
                &&& c.pixel_color == group_color(group_of(i))
                &&& placed_by(*sampler, i as u32, frame_counter, c.start_pos)
            },
    {
        let mut crawlers: Vec<Crawler> = Vec::new();
        let mut i: usize = 0;
        while i < count
            invariant
                i <= count <= u32::MAX as int + 1,
                crawlers@.len() == i,
                forall|id: u32, f: u32| #[trigger] sampler.requires((id, f)),
                forall|j: int| 0 <= j < i ==> {
                    let c = #[trigger] crawlers@[j];
                    &&& crawler_wf(c, j)
                    &&& c.current_radius == 0
                    &&& c.pixel_color == group_color(group_of(j))
                    &&& placed_by(*sampler, j as u32, frame_counter, c.start_pos)
                },
            decreases count - i,
        {
            let id: u32 = i as u32;
            let s: (i32, i32) = sampler(id, frame_counter);
            let c: Crawler = if i % GROUP_STRIDE == 0 {
                Crawler::create_as_swarm_part(id, s.0, s.1, Color { r: COLOR_ONE, g: 0, b: 0, a: COLOR_ONE }, 1)
            } else {
                Crawler::create_as_swarm_part(id, s.0, s.1, Color { r: COLOR_ONE, g: COLOR_ONE, b: COLOR_ONE, a: 600 }, 0)
            };
            crawlers.push(c);
            i = i + 1;
        }
        Swarm { crawlers, frame_counter, clock: Clock::new() }
    }

    /// One simulation tick. Every crawler's radius grows by `RADIUS_UPDATE`
    /// and its alpha by one step. A crawler whose radius passes its cap
    /// starts over at radius 0 and is placed anew from the samples that
    /// `sampler` gives for its id and the growth frame. The first such
    /// crawler of the tick advances the growth frame, once; all placements of
    /// the tick use that one advanced value.
    pub fn advance_tick<F: Fn(u32, u32) -> (i32, i32)>(&mut self, sampler: &F)
        requires
            old(self).wf(),
            forall|id: u32, f: u32| #[trigger] sampler.requires((id, f)),
        ensures
            final(self).wf(),
            final(self).clock == old(self).clock,
            final(self).crawlers@.len() == old(self).crawlers@.len(),
            final(self).frame_counter == if any_crosses(old(self).crawlers@) {
                next_frame(old(self).frame_counter)
            } else {
                old(self).frame_counter
            },
            forall|i: int| 0 <= i < old(self).crawlers@.len() ==> {
                let c = old(self).crawlers@[i];
                let n = #[trigger] final(self).crawlers@[i];
                &&& stepped(c, n)
                &&& crosses(c) ==> placed_by(*sampler, c.id, final(self).frame_counter, n.start_pos)
            },
    {
        let ghost old_crawlers = self.crawlers@;
        let ghost old_frame = self.frame_counter;
        let ghost advanced = next_frame(old_frame);
        let mut frame_update: bool = false;
        let len: usize = self.crawlers.len();
        let mut i: usize = 0;
        while i < len
            invariant
                self.wf(),
                self.clock == old(self).clock,
                old_crawlers == old(self).crawlers@,
                old_frame == old(self).frame_counter,
                advanced == next_frame(old_frame),
                len == old_crawlers.len(),
                i <= len,
                self.crawlers@.len() == len,
                forall|id: u32, f: u32| #[trigger] sampler.requires((id, f)),
                frame_update == exists|j: int| 0 <= j < i && #[trigger] crosses(old_crawlers[j]),
                self.frame_counter == if frame_update { advanced } else { old_frame },
                forall|j: int| i <= j < len ==> #[trigger] self.crawlers@[j] == old_crawlers[j],
                forall|j: int| 0 <= j < i ==> {
                    let c = old_crawlers[j];
                    let n = #[trigger] self.crawlers@[j];
                    &&& stepped(c, n)
                    &&& crosses(c) ==> placed_by(*sampler, c.id, advanced, n.start_pos)
                },
            decreases len - i,
        {
            let mut c: Crawler = self.crawlers[i];
            let ghost oc = c;
            assert(crawler_wf(oc, i as int));
            c.current_radius = c.current_radius + RADIUS_UPDATE;
            c.pixel_color = c.pixel_color.faded();
            if c.current_radius > c.pixel_radius {
                c.current_radius = 0;
                if !frame_update {
                    self.frame_counter = self.frame_counter.wrapping_add(1);
                    frame_update = true;
                }
                let s: (i32, i32) = sampler(c.id, self.frame_counter);
                c.start_pos = position_from_samples(s.0, s.1);
            }
            self.crawlers.set(i, c);
            proof {
                assert(oc == old_crawlers[i as int]);
                if crosses(oc) {
                    assert(crosses(old_crawlers[i as int]));
                }
                assert(crawler_wf(c, i as int));
                assert forall|j: int| 0 <= j < len implies #[trigger] crawler_wf(self.crawlers@[j], j) by {
                    if j != i {
                        assert(self.crawlers@[j] == old(self).crawlers@[j] || j < i);
                    }
                }
            }
            i = i + 1;
        }
    }

    /// Advances the tick clock by `delta` nanoseconds and, when a period
    /// completes, runs one tick; returns whether it did.
    pub fn update_crawlers<F: Fn(u32, u32) -> (i32, i32)>(&mut self, delta: u64, sampler: &F) -> (ticked: bool)
        requires
            old(self).wf(),
            forall|id: u32, f: u32| #[trigger] sampler.requires((id, f)),
        ensures
            final(self).wf(),
            ticked == (old(self).clock.elapsed + delta >= TIMER_PACE_NANOS),
            final(self).clock.elapsed == (old(self).clock.elapsed + delta) % (TIMER_PACE_NANOS as int),
            final(self).crawlers@.len() == old(self).crawlers@.len(),
            !ticked ==> final(self).crawlers@ == old(self).crawlers@,
            !ticked ==> final(self).frame_counter == old(self).frame_counter,
            ticked ==> final(self).frame_counter == if any_crosses(old(self).crawlers@) {
                next_frame(old(self).frame_counter)
            } else {
                old(self).frame_counter
            },
            ticked ==> forall|i: int| 0 <= i < old(self).crawlers@.len() ==> {
                let c = old(self).crawlers@[i];
                let n = #[trigger] final(self).crawlers@[i];
                &&& stepped(c, n)
                &&& crosses(c) ==> placed_by(*sampler, c.id, final(self).frame_counter, n.start_pos)
            },
    {
        let ticked: bool = self.clock.tick(delta);
        if ticked {
            self.advance_tick(sampler);
        }
        ticked
    }
}

/// Crawler `c`, standing at index `i`, is as the swarm keeps it.
pub open spec fn crawler_wf(c: Crawler, i: int) -> bool {
    &&& c.id == i
    &&& c.pixel_radius == PIXEL_RADIUS
    &&& c.current_radius <= PIXEL_RADIUS
    &&& c.map_id == group_of(i)
    &&& c.pixel_color.r == group_color(group_of(i)).r
    &&& c.pixel_color.g == group_color(group_of(i)).g
    &&& c.pixel_color.b == group_color(group_of(i)).b
    &&& on_canvas(c.start_pos)
}

/// The number of crawlers of group 1 in `s`.
pub open spec fn group_one_count(s: Seq<Crawler>) -> nat
    decreases s.len(),
{
    if s.len() == 0 {
        0
    } else {
        group_one_count(s.drop_last()) + if s.last().map_id == 1 { 1nat } else { 0nat }
    }
}

proof fn lemma_group_one_count(s: Seq<Crawler>)
    requires
        forall|i: int| 0 <= i < s.len() ==> #[trigger] s[i].map_id == group_of(i),
    ensures
        group_one_count(s) == (s.len() + 4) / 5,
    decreases s.len(),
{
    if s.len() > 0 {
        let t = s.drop_last();
        assert forall|i: int| 0 <= i < t.len() implies #[trigger] t[i].map_id == group_of(i) by {
            assert(t[i] == s[i]);
        }
        lemma_group_one_count(t);
        assert(s.last() == s[s.len() - 1]);
    }
}

/// In a well-formed swarm the crawlers of group 1 are exactly those whose
/// creation index is a multiple of `GROUP_STRIDE`, and there are
/// `ceil(len / GROUP_STRIDE)` of them.
pub proof fn lemma_group_assignment(swarm: Swarm)
    requires
        swarm.wf(),
    ensures
        forall|i: int| 0 <= i < swarm.crawlers@.len() ==>
            (#[trigger] swarm.crawlers@[i].map_id == 1 <==> i % GROUP_STRIDE as int == 0),
        group_one_count(swarm.crawlers@) == (swarm.crawlers@.len() + 4) / 5,
{
    let s = swarm.crawlers@;
    assert forall|i: int| 0 <= i < s.len() implies #[trigger] s[i].map_id == group_of(i) by {
        assert(crawler_wf(s[i], i));
    }
    lemma_group_one_count(s);
}

} // verus!
