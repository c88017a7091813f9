//! The fixed-capacity parameter buffer that the compute kernel reads.
use vstd::prelude::*;
use crate::crawler::{Crawler, CrawlerGPU, gpu_spec, default_pos, default_color};
use crate::swarm::{Swarm, CRAWLERS_COUNT};

verus! {

/// One snapshot slot per crawler, in crawler order.
#[derive(Debug)]
pub struct Params {
    pub crawlers: Vec<CrawlerGPU>,
}

impl Default for Params {
    /// A buffer of `CRAWLERS_COUNT` default snapshots.
    fn default() -> (r: Self)
        ensures
            r.crawlers@.len() == CRAWLERS_COUNT,
            forall|i: int| 0 <= i < CRAWLERS_COUNT ==> {
                let g = #[trigger] r.crawlers@[i];
                &&& g.start_pos == default_pos()
                &&& g.current_radius == 0
                &&& g.pixel_color == default_color()
                &&& g.map_id == 0
            },
    {
        let mut crawlers: Vec<CrawlerGPU> = Vec::new();
        let mut i: usize = 0;
        while i < CRAWLERS_COUNT
            invariant
                i <= CRAWLERS_COUNT,
                crawlers@.len() == i,
                forall|j: int| 0 <= j < i ==> {
                    let g = #[trigger] crawlers@[j];
                    &&& g.start_pos == default_pos()
                    &&& g.current_radius == 0
                    &&& g.pixel_color == default_color()
                    &&& g.map_id == 0
                },
            decreases CRAWLERS_COUNT - i,
        {
            crawlers.push(CrawlerGPU::default());
            i = i + 1;
        }
        Params { crawlers }
    }
}

/// Whether every slot of `params` holds the snapshot of the crawler at the
/// same index of `crawlers`, and the two have the same length.
pub open spec fn in_sync(params: Seq<CrawlerGPU>, crawlers: Seq<Crawler>) -> bool {
    &&& params.len() == crawlers.len()
    &&& forall|i: int| 0 <= i < crawlers.len() ==> #[trigger] params[i] == gpu_spec(crawlers[i])
}

impl Params {
    /// Overwrites every slot with the snapshot of the crawler at its index.
    /// The buffer must already hold one slot per crawler.
    pub fn param_update(&mut self, swarm: &Swarm)
        requires
            old(self).crawlers@.len() == swarm.crawlers@.len(),
        ensures
            in_sync(final(self).crawlers@, swarm.crawlers@),
    {
        let len: usize = swarm.crawlers.len();
        let mut i: usize = 0;
        while i < len
            invariant
                i <= len,
                len == swarm.crawlers@.len(),
                self.crawlers@.len() == len,
                forall|j: int| 0 <= j < i ==> #[trigger] self.crawlers@[j] == gpu_spec(swarm.crawlers@[j]),
            decreases len - i,
        {
            let g: CrawlerGPU = swarm.crawlers[i].to_gpu();
            self.crawlers.set(i, g);
            i = i + 1;
        }
    }
}

} // verus!
