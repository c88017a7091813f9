use crawlers::canvas::Coord;
use crawlers::crawler::Color;
use crawlers::gpu::Params;
use crawlers::sim::Simulation;
use crawlers::swarm::{Swarm, CRAWLERS_COUNT, INITIAL_FRAME};

fn sampler(id: u32, frame: u32) -> (i32, i32) {
    ((id as i32 % 2000) * 1000 - 1_000_000, (frame as i32 % 2000) * 1000 - 1_000_000)
}

#[test]
fn default_params_fill_capacity() {
    let p = Params::default();
    assert_eq!(p.crawlers.len(), CRAWLERS_COUNT);
    for g in p.crawlers.iter() {
        assert_eq!(g.start_pos, Coord { x: 700, y: 500 });
        assert_eq!(g.current_radius, 0);
        assert_eq!(g.pixel_color, Color { r: 1000, g: 1000, b: 1000, a: 1000 });
        assert_eq!(g.map_id, 0);
    }
}

#[test]
fn param_update_copies_every_slot() {
    let mut swarm = Swarm::spawn_crawlers(20, INITIAL_FRAME, &sampler);
    swarm.advance_tick(&sampler);
    let mut p = Params { crawlers: vec![Default::default(); 20] };
    p.param_update(&swarm);
    for (g, c) in p.crawlers.iter().zip(swarm.crawlers.iter()) {
        assert_eq!(*g, c.to_gpu());
        assert_eq!(g.current_radius, 2);
    }
}

#[test]
fn buffer_stays_in_sync_over_frames() {
    let mut sim = Simulation::start(INITIAL_FRAME, &sampler);
    let mut ticks = 0;
    for frame in 0..40u64 {
        if sim.frame(7_000_000 + frame * 100_000, &sampler) {
            ticks += 1;
        }
        assert_eq!(sim.params.crawlers.len(), CRAWLERS_COUNT);
        assert_eq!(sim.swarm.crawlers.len(), CRAWLERS_COUNT);
        for (g, c) in sim.params.crawlers.iter().zip(sim.swarm.crawlers.iter()) {
            assert_eq!(g.start_pos, c.start_pos);
            assert_eq!(g.pixel_color, c.pixel_color);
            assert_eq!(g.map_id, c.map_id);
            assert_eq!(g.current_radius, c.current_radius);
        }
    }
    assert!(ticks > 10);
    assert!(sim.swarm.frame_counter > INITIAL_FRAME);
}
