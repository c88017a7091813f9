//! The running simulation: the swarm together with the parameter buffer that
//! mirrors it for the compute kernel.
use vstd::prelude::*;
use crate::gpu::{Params, in_sync};
use crate::swarm::{
    Swarm, CRAWLERS_COUNT, TIMER_PACE_NANOS, any_crosses, crosses, group_color, group_of, next_frame,
    placed_by, stepped,
};

verus! {

/// The swarm and its GPU mirror.
#[derive(Debug)]
pub struct Simulation {
    pub swarm: Swarm,
    pub params: Params,
}

impl Simulation {
    /// The swarm is well formed, and swarm and buffer both hold
    /// `CRAWLERS_COUNT` entries.
    pub open spec fn wf(&self) -> bool {
        &&& self.swarm.wf()
        &&& self.swarm.crawlers@.len() == CRAWLERS_COUNT
        &&& self.params.crawlers@.len() == CRAWLERS_COUNT
    }

    /// Spawns `CRAWLERS_COUNT` crawlers at growth frame `frame_counter` and
    /// fills the buffer from them.
    pub fn start<F: Fn(u32, u32) -> (i32, i32)>(frame_counter: u32, sampler: &F) -> (r: Self)
        requires
            forall|id: u32, f: u32| #[trigger] sampler.requires((id, f)),
        ensures
            r.wf(),
            in_sync(r.params.crawlers@, r.swarm.crawlers@),
            r.swarm.frame_counter == frame_counter,
            forall|i: int| 0 <= i < CRAWLERS_COUNT ==> {
                let c = #[trigger] r.swarm.crawlers@[i];
                &&& c.current_radius == 0
                &&& c.pixel_color == group_color(group_of(i))
                &&& placed_by(*sampler, i as u32, frame_counter, c.start_pos)
            },
    {
        let swarm: Swarm = Swarm::spawn_crawlers(CRAWLERS_COUNT, frame_counter, sampler);
        let mut params: Params = Params::default();
        params.param_update(&swarm);
        Simulation { swarm, params }
    }

    /// One rendered frame: advances the tick clock by `delta` nanoseconds,
    /// runs a tick when a period completes, then rewrites every slot of the
    /// buffer from the swarm.
    pub fn frame<F: Fn(u32, u32) -> (i32, i32)>(&mut self, delta: u64, sampler: &F) -> (ticked: bool)
        requires
            old(self).wf(),
            forall|id: u32, f: u32| #[trigger] sampler.requires((id, f)),
        ensures
            final(self).wf(),
            in_sync(final(self).params.crawlers@, final(self).swarm.crawlers@),
            ticked == (old(self).swarm.clock.elapsed + delta >= TIMER_PACE_NANOS),
            !ticked ==> final(self).swarm.crawlers@ == old(self).swarm.crawlers@,
            !ticked ==> final(self).swarm.frame_counter == old(self).swarm.frame_counter,
            ticked ==> final(self).swarm.frame_counter == if any_crosses(old(self).swarm.crawlers@) {
                next_frame(old(self).swarm.frame_counter)
            } else {
                old(self).swarm.frame_counter
            },
            ticked ==> forall|i: int| 0 <= i < CRAWLERS_COUNT ==> {
                let c = old(self).swarm.crawlers@[i];
                let n = #[trigger] final(self).swarm.crawlers@[i];
                &&& stepped(c, n)
                &&& crosses(c) ==> placed_by(*sampler, c.id, final(self).swarm.frame_counter, n.start_pos)
            },
    {
        let ticked: bool = self.swarm.update_crawlers(delta, sampler);
        self.params.param_update(&self.swarm);
        ticked
    }
}

} // verus!
