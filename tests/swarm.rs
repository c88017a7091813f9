use crawlers::canvas::{position_from_samples, Coord};
use crawlers::crawler::{Color, Crawler, CrawlerGPU, PIXEL_RADIUS};
use crawlers::swarm::{Clock, Swarm, CRAWLERS_COUNT, INITIAL_FRAME, TIMER_PACE_NANOS};

fn sampler(id: u32, frame: u32) -> (i32, i32) {
    let sx = ((id as i64 * 7919 + frame as i64 * 104_729) % 2_000_001 - 1_000_000) as i32;
    let sy = ((id as i64 * 15_485_863 + frame as i64 * 31) % 2_000_001 - 1_000_000) as i32;
    (sx, sy)
}

#[test]
fn crawler_defaults() {
    let c = Crawler::default();
    assert_eq!(c.id, 0);
    assert_eq!(c.start_pos, Coord { x: 700, y: 500 });
    assert_eq!(c.pixel_radius, 2);
    assert_eq!(c.current_radius, 0);
    assert_eq!(c.pixel_color, Color { r: 1000, g: 1000, b: 1000, a: 1000 });
    assert_eq!(c.map_id, 0);
    let g = CrawlerGPU::default();
    assert_eq!(g.start_pos, Coord { x: 700, y: 500 });
    assert_eq!(g.pixel_color, Color { r: 1000, g: 1000, b: 1000, a: 1000 });
}

#[test]
fn create_and_snapshot() {
    let color = Color { r: 1000, g: 0, b: 0, a: 1000 };
    let c = Crawler::create_as_swarm_part(42, 0, 0, color, 1);
    assert_eq!(c.id, 42);
    assert_eq!(c.start_pos, Coord { x: 552, y: 436 });
    assert_eq!(c.pixel_radius, PIXEL_RADIUS);
    let g = c.to_gpu();
    assert_eq!(g, CrawlerGPU { start_pos: c.start_pos, current_radius: 0, pixel_color: color, map_id: 1 });
}

#[test]
fn fade_raises_alpha_only() {
    let c = Color { r: 1000, g: 1000, b: 1000, a: 600 };
    assert_eq!(c.faded(), Color { r: 1000, g: 1000, b: 1000, a: 601 });
    let top = Color { r: 1, g: 2, b: 3, a: u32::MAX };
    assert_eq!(top.faded(), top);
}

#[test]
fn clock_fires_when_period_reached() {
    let mut clock = Clock::new();
    assert!(!clock.tick(10_000_000));
    assert_eq!(clock.elapsed, 10_000_000);
    assert!(clock.tick(6_000_000));
    assert_eq!(clock.elapsed, 0);
    assert!(!clock.tick(TIMER_PACE_NANOS - 1));
    assert!(clock.tick(1));
    // several periods in one frame still give one tick
    assert!(clock.tick(40_000_000));
    assert_eq!(clock.elapsed, 8_000_000);
    assert!(clock.tick(u64::MAX));
    assert_eq!(clock.elapsed, ((8_000_000u128 + u64::MAX as u128) % TIMER_PACE_NANOS as u128) as u64);
}

#[test]
fn group_assignment_over_full_swarm() {
    let swarm = Swarm::spawn_crawlers(CRAWLERS_COUNT, INITIAL_FRAME, &sampler);
    assert_eq!(swarm.crawlers.len(), 1300);
    let ones = swarm.crawlers.iter().filter(|c| c.map_id == 1).count();
    assert_eq!(ones, (1300 + 4) / 5);
    assert_eq!(ones, 260);
    for (i, c) in swarm.crawlers.iter().enumerate() {
        assert_eq!(c.id as usize, i);
        assert_eq!(c.map_id == 1, i % 5 == 0);
        if i % 5 == 0 {
            assert_eq!(c.pixel_color, Color { r: 1000, g: 0, b: 0, a: 1000 });
        } else {
            assert_eq!(c.pixel_color, Color { r: 1000, g: 1000, b: 1000, a: 600 });
        }
        let (sx, sy) = sampler(c.id, INITIAL_FRAME);
        assert_eq!(c.start_pos, position_from_samples(sx, sy));
    }
}

#[test]
fn spawn_of_uneven_count() {
    let swarm = Swarm::spawn_crawlers(7, 3, &sampler);
    let ones: Vec<u32> = swarm.crawlers.iter().filter(|c| c.map_id == 1).map(|c| c.id).collect();
    assert_eq!(ones, vec![0, 5]);
    assert_eq!(swarm.frame_counter, 3);
    assert!(Swarm::spawn_crawlers(0, 3, &sampler).crawlers.is_empty());
}

#[test]
fn tick_without_crossing_keeps_frame() {
    let mut swarm = Swarm::spawn_crawlers(10, INITIAL_FRAME, &sampler);
    let before = swarm.crawlers.clone();
    swarm.advance_tick(&sampler);
    assert_eq!(swarm.frame_counter, INITIAL_FRAME);
    for (b, a) in before.iter().zip(swarm.crawlers.iter()) {
        assert_eq!(a.current_radius, 2);
        assert_eq!(a.start_pos, b.start_pos);
        assert_eq!(a.pixel_color.a, b.pixel_color.a + 1);
        assert_eq!(a.pixel_color.r, b.pixel_color.r);
    }
}

#[test]
fn fifty_crossings_advance_counter_once() {
    let mut swarm = Swarm::spawn_crawlers(50, INITIAL_FRAME, &sampler);
    swarm.advance_tick(&sampler);
    let before = swarm.frame_counter;
    swarm.advance_tick(&sampler);
    assert_eq!(swarm.frame_counter, before + 1);
    for c in swarm.crawlers.iter() {
        assert_eq!(c.current_radius, 0);
        let (sx, sy) = sampler(c.id, before + 1);
        assert_eq!(c.start_pos, position_from_samples(sx, sy));
    }
    swarm.advance_tick(&sampler);
    assert_eq!(swarm.frame_counter, before + 1);
    swarm.advance_tick(&sampler);
    assert_eq!(swarm.frame_counter, before + 2);
}

#[test]
fn counter_wraps_at_top() {
    let mut swarm = Swarm::spawn_crawlers(3, u32::MAX, &sampler);
    swarm.advance_tick(&sampler);
    swarm.advance_tick(&sampler);
    assert_eq!(swarm.frame_counter, 0);
}

#[test]
fn update_waits_for_clock() {
    let mut swarm = Swarm::spawn_crawlers(5, INITIAL_FRAME, &sampler);
    let before = swarm.crawlers.clone();
    assert!(!swarm.update_crawlers(1_000_000, &sampler));
    assert_eq!(swarm.crawlers, before);
    assert!(swarm.update_crawlers(15_000_000, &sampler));
    assert_eq!(swarm.crawlers[0].current_radius, 2);
}
