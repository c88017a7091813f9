//! Map preprocessing: each source image is thresholded, once, into a binary
//! mask and marked readable by the compute kernel.
use vstd::prelude::*;

verus! {

/// Bytes per pixel of a map image (red, green, blue, alpha).
pub const PIXEL_BYTES: usize = 4;

/// Red channel of the colour that marks a feature on either map.
pub const TARGET_R: u8 = 249;

/// Green channel of the colour that marks a feature on either map.
pub const TARGET_G: u8 = 255;

/// Blue channel of the colour that marks a feature on either map.
pub const TARGET_B: u8 = 6;

/// Distance below which a pixel of the background map is a feature.
pub const PLAIN_THRESHOLD: u32 = 150;

/// Distance below which a pixel of the traffic map is a feature.
pub const TRAFFIC_THRESHOLD: u32 = 100;

/// The two source maps.
#[derive(Clone, Copy, Debug, PartialEq, Eq, Structural)]
pub enum MapKind {
    Plain,
    Traffic,
}

/// The distance threshold of a map.
pub open spec fn threshold_of(kind: MapKind) -> int {
    match kind {
        MapKind::Plain => PLAIN_THRESHOLD as int,
        MapKind::Traffic => TRAFFIC_THRESHOLD as int,
    }
}

/// Squared Euclidean distance in RGB space from `(r, g, b)` to the target colour.
pub open spec fn dist2(r: int, g: int, b: int) -> int {
    (r - TARGET_R) * (r - TARGET_R) + (g - TARGET_G) * (g - TARGET_G) + (b - TARGET_B) * (b - TARGET_B)
}

/// Whether a pixel is a feature of the map: its distance to the target colour
/// is strictly below the map's threshold (compared squared, so exactly).
pub open spec fn is_feature(r: int, g: int, b: int, kind: MapKind) -> bool {
    dist2(r, g, b) < threshold_of(kind) * threshold_of(kind)
}

/// The byte at index `i` of the mask that thresholding `p` gives: white
/// (all channels 255) for a feature pixel, black with full alpha otherwise.
pub open spec fn mask_byte(p: Seq<u8>, kind: MapKind, i: int) -> u8 {
    let base = i - i % PIXEL_BYTES as int;
    if i % PIXEL_BYTES as int == 3 {
        255
    } else if is_feature(p[base] as int, p[base + 1] as int, p[base + 2] as int, kind) {
        255
    } else {
        0
    }
}

/// The mask that thresholding the pixel bytes `p` gives.
pub open spec fn threshold_spec(p: Seq<u8>, kind: MapKind) -> Seq<u8> {
    Seq::new(p.len(), |i: int| mask_byte(p, kind, i))
}

/// What preprocessing makes of the pixel bytes `p` of a map, given whether
/// that map was already processed.
pub open spec fn processed(loaded: bool, kind: MapKind, p: Seq<u8>) -> Seq<u8> {
    if loaded {
        p
    } else {
        threshold_spec(p, kind)
    }
}

/// Classifies one pixel: `true` (white) for a feature, `false` (black) otherwise.
pub fn classify(r: u8, g: u8, b: u8, kind: MapKind) -> (white: bool)
    ensures
        white == is_feature(r as int, g as int, b as int, kind),
        (r == TARGET_R && g == TARGET_G && b == TARGET_B) ==> white,
{
    let dr: i32 = r as i32 - TARGET_R as i32;
    let dg: i32 = g as i32 - TARGET_G as i32;
    let db: i32 = b as i32 - TARGET_B as i32;
    assert(0 <= dr * dr <= 65025 && 0 <= dg * dg <= 65025 && 0 <= db * db <= 65025) by (nonlinear_arith)
        requires
            -255 <= dr <= 255,
            -255 <= dg <= 255,
            -255 <= db <= 255,
    ;
    let d2: i32 = dr * dr + dg * dg + db * db;
    let t: i32 = match kind {
        MapKind::Plain => PLAIN_THRESHOLD as i32,
        MapKind::Traffic => TRAFFIC_THRESHOLD as i32,
    };
    proof {
        if r == TARGET_R && g == TARGET_G && b == TARGET_B {
            assert(dr == 0 && dg == 0 && db == 0);
            assert(d2 == 0) by (nonlinear_arith)
                requires
                    dr == 0 && dg == 0 && db == 0,
                    d2 == dr * dr + dg * dg + db * db,
            ;
        }
    }
    d2 < t * t
}

/// Overwrites each pixel of `data` (RGBA bytes) with white when it is a
/// feature of the map and with opaque black otherwise, in one pass.
pub fn threshold_pixels(data: &mut Vec<u8>, kind: MapKind)
    requires
        old(data)@.len() % (PIXEL_BYTES as nat) == 0,
    ensures
        final(data)@ == threshold_spec(old(data)@, kind),
{
    let ghost p = data@;
    let len: usize = data.len();
    let mut k: usize = 0;
    while k < len
        invariant
            len == p.len(),
            len % 4 == 0,
            k % 4 == 0,
            k <= len,
            data@.len() == len,
            forall|i: int| 0 <= i < k ==> #[trigger] data@[i] == mask_byte(p, kind, i),
            forall|i: int| k <= i < len ==> #[trigger] data@[i] == p[i],
        decreases len - k,
    {
        let white: bool = classify(data[k], data[k + 1], data[k + 2], kind);
        let v: u8 = if white { 255 } else { 0 };
        data.set(k, v);
        data.set(k + 1, v);
        data.set(k + 2, v);
        data.set(k + 3, 255);
        proof {
            assert forall|i: int| k <= i < k + 4 implies #[trigger] data@[i] == mask_byte(p, kind, i) by {
                assert(i - i % 4 == k);
            }
        }
        k = k + 4;
    }
    assert(data@ =~= threshold_spec(p, kind));
}

/// A map image: its RGBA pixel bytes and whether the compute kernel may read
/// it as storage.
#[derive(Debug)]
pub struct MapImage {
    pub data: Vec<u8>,
    pub gpu_readable: bool,
}

/// Which of the two maps have been thresholded.
#[derive(Clone, Copy, Debug, PartialEq, Eq, Structural)]
pub struct MapPreprocessor {
    pub plain_loaded: bool,
    pub traffic_loaded: bool,
}

impl MapPreprocessor {
    /// Whether the map `kind` has been thresholded.
    pub open spec fn loaded(&self, kind: MapKind) -> bool {
        match kind {
            MapKind::Plain => self.plain_loaded,
            MapKind::Traffic => self.traffic_loaded,
        }
    }

    /// Neither map processed yet.
    pub fn new() -> (r: Self)
        ensures
            !r.plain_loaded,
            !r.traffic_loaded,
    {
        MapPreprocessor { plain_loaded: false, traffic_loaded: false }
    }

    /// Processes the map `kind`, whose image has finished loading: unless it
    /// was processed before, thresholds it, marks it readable by the kernel
    /// and records it as processed. A map already processed is left alone.
    pub fn image_preprocess(&mut self, kind: MapKind, image: &mut MapImage)
        requires
            old(image).data@.len() % (PIXEL_BYTES as nat) == 0,
        ensures
            final(self).loaded(kind),
            forall|k: MapKind| k != kind ==> final(self).loaded(k) == old(self).loaded(k),
            final(image).data@ == processed(old(self).loaded(kind), kind, old(image).data@),
            final(image).gpu_readable == (old(self).loaded(kind) ==> old(image).gpu_readable),
    {
        let done: bool = match kind {
            MapKind::Plain => self.plain_loaded,
            MapKind::Traffic => self.traffic_loaded,
        };
        if !done {
            threshold_pixels(&mut image.data, kind);
            image.gpu_readable = true;
            match kind {
                MapKind::Plain => self.plain_loaded = true,
                MapKind::Traffic => self.traffic_loaded = true,
            }
        }
    }

    /// Whether both maps have been processed.
    pub fn is_ready(&self) -> (r: bool)
        ensures
            r == (self.plain_loaded && self.traffic_loaded),
    {
        self.plain_loaded && self.traffic_loaded
    }
}

/// Processing a map a second time changes nothing: the first pass records
/// it as processed, and a processed map is left as it is.
pub proof fn lemma_preprocess_idempotent(loaded: bool, kind: MapKind, p: Seq<u8>)
    ensures
        processed(true, kind, processed(loaded, kind, p)) == processed(loaded, kind, p),
{
}

} // verus!
