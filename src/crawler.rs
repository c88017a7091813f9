//! One swarm agent and its GPU-side snapshot.
use vstd::prelude::*;
use crate::canvas::{Coord, position_from_samples, position_spec, on_canvas};

verus! {

/// Step by which a crawler's pulse radius grows each tick.
pub const RADIUS_UPDATE: u32 = 2;

/// The pulse radius cap shared by all crawlers.
pub const PIXEL_RADIUS: u32 = 2;

/// Colour channels are held in thousandths: 1000 is full intensity.
pub const COLOR_ONE: u32 = 1000;

/// Step by which a crawler's alpha grows each tick, in thousandths.
pub const ALPHA_UPDATE: u32 = 1;

/// An RGBA colour with each channel in thousandths.
#[derive(Clone, Copy, Debug, PartialEq, Eq, Structural)]
pub struct Color {
    pub r: u32,
    pub g: u32,
    pub b: u32,
    pub a: u32,
}

/// An animated point of the swarm.
#[derive(Clone, Copy, Debug, PartialEq, Eq, Structural)]
pub struct Crawler {
    pub id: u32,
    pub start_pos: Coord,
    pub pixel_radius: u32,
    pub current_radius: u32,
    pub pixel_color: Color,
    pub map_id: u32,
}

/// The part of a crawler that the compute kernel reads.
#[derive(Clone, Copy, Debug, PartialEq, Eq, Structural)]
pub struct CrawlerGPU {
    pub start_pos: Coord,
    pub current_radius: u32,
    pub pixel_color: Color,
    pub map_id: u32,
}

/// The position at which a fresh default crawler sits.
pub open spec fn default_pos() -> Coord {
    Coord { x: 700, y: 500 }
}

/// Opaque white.
pub open spec fn default_color() -> Color {
    Color { r: COLOR_ONE, g: COLOR_ONE, b: COLOR_ONE, a: COLOR_ONE }
}

/// The snapshot of a crawler handed to the GPU.
pub open spec fn gpu_spec(c: Crawler) -> CrawlerGPU {
    CrawlerGPU {
        start_pos: c.start_pos,
        current_radius: c.current_radius,
        pixel_color: c.pixel_color,
        map_id: c.map_id,
    }
}

/// The colour one tick later: alpha grows by one step (held at the largest
/// value a channel can hold), RGB stays.
pub open spec fn fade_spec(c: Color) -> Color {
    Color {
        a: if c.a as int + ALPHA_UPDATE <= u32::MAX { (c.a + ALPHA_UPDATE) as u32 } else { u32::MAX },
        ..c
    }
}

impl Default for Crawler {
    fn default() -> (r: Self)
        ensures
            r.id == 0,
            r.start_pos == default_pos(),
            r.pixel_radius == PIXEL_RADIUS,
            r.current_radius == 0,
            r.pixel_color == default_color(),
            r.map_id == 0,
    {
        Crawler {
            id: 0,
            start_pos: Coord { x: 700, y: 500 },
            pixel_radius: PIXEL_RADIUS,
            current_radius: 0,
            pixel_color: Color { r: COLOR_ONE, g: COLOR_ONE, b: COLOR_ONE, a: COLOR_ONE },
            map_id: 0,
        }
    }
}

impl Default for CrawlerGPU {
    fn default() -> (r: Self)
        ensures
            r.start_pos == default_pos(),
            r.current_radius == 0,
            r.pixel_color == default_color(),
            r.map_id == 0,
    {
        CrawlerGPU {
            start_pos: Coord { x: 700, y: 500 },
            current_radius: 0,
            pixel_color: Color { r: COLOR_ONE, g: COLOR_ONE, b: COLOR_ONE, a: COLOR_ONE },
            map_id: 0,
        }
    }
}

impl Color {
    /// The colour one tick later.
    pub fn faded(&self) -> (r: Color)
        ensures
            r == fade_spec(*self),
    {
        Color { a: self.a.saturating_add(ALPHA_UPDATE), ..*self }
    }
}

impl Crawler {
    /// A crawler of the swarm, placed by the noise samples drawn for its id
    /// and the current growth frame.
    pub fn create_as_swarm_part(
        element_id: u32,
        sample_x: i32,
        sample_y: i32,
        pixel_color: Color,
        map_id: u32,
    ) -> (r: Self)
        ensures
            r.id == element_id,
            r.start_pos == position_spec(sample_x as int, sample_y as int),
            on_canvas(r.start_pos),
            r.pixel_radius == PIXEL_RADIUS,
            r.current_radius == 0,
            r.pixel_color == pixel_color,
            r.map_id == map_id,
    {
        Crawler {
            id: element_id,
            start_pos: position_from_samples(sample_x, sample_y),
            pixel_radius: PIXEL_RADIUS,
            current_radius: 0,
            pixel_color,
            map_id,
        }
    }

    /// The snapshot of this crawler that the GPU reads.
    pub fn to_gpu(&self) -> (r: CrawlerGPU)
        ensures
            r == gpu_spec(*self),
    {
        CrawlerGPU {
            start_pos: self.start_pos,
            current_radius: self.current_radius,
            pixel_color: self.pixel_color,
            map_id: self.map_id,
        }
    }
}

} // verus!
