use crate::centroid::{find_star_centres_and_size, stars_in, RadiusWindow, StarCenter};
use crate::collaborators::{
    bilateral_filter, bilateral_smoothed, small_scale_structure, small_scale_structures, widest_stride,
};
use crate::raster::GrayImage;
use crate::threshold::{
    binarize_pixels, binarized, search_threshold, threshold_search, DetectionError,
    ThresholdingExtensions,
};
use vstd::prelude::*;

verus! {

/// How many wavelet scales the structure extraction decomposes into.
pub const SCALE_COUNT: usize = 8;

/// The smallest side that the structure extraction takes: one more than the
/// stride of its coarsest layer, `2^(SCALE_COUNT - 1)`.
pub const MIN_DETECTION_SIDE: u32 = 129;

proof fn lemma_min_side_exceeds_widest_stride()
    ensures
        widest_stride(SCALE_COUNT as nat) < MIN_DETECTION_SIDE,
{
    reveal_with_fuel(widest_stride, 8);
}

/// Window radius of the edge-preserving smoothing.
pub const NOISE_RADIUS: u8 = 10;

/// Spatial sigma of the edge-preserving smoothing.
pub const NOISE_SPATIAL_SIGMA: u16 = 3;

/// Intensity-similarity sigma of the edge-preserving smoothing.
pub const NOISE_COLOR_SIGMA: u16 = 10;

/// The image after structure extraction and smoothing, the stage the threshold search works on.
pub open spec fn denoised(width: u32, height: u32, pixels: Seq<u8>) -> Seq<u8> {
    bilateral_smoothed(
        width,
        height,
        small_scale_structure(width, height, pixels, SCALE_COUNT),
        NOISE_RADIUS,
        NOISE_SPATIAL_SIGMA,
        NOISE_COLOR_SIGMA,
    )
}

/// The stages of a detection run, in the order a run passes through them.
#[derive(Clone, Copy, Debug, PartialEq, Eq, Structural)]
pub enum Phase {
    Raw,
    StructureExtracted,
    Denoised,
    ThresholdOptimized,
    Binarized,
    Extracted,
}

/// A star detector that owns the image it works on.
pub struct StarDetect {
    source: GrayImage,
    window: RadiusWindow,
    phase: Phase,
}

impl StarDetect {
    /// The image the detector currently holds.
    pub closed spec fn image(&self) -> GrayImage {
        self.source
    }

    /// The radii that count as stars.
    pub closed spec fn window(&self) -> RadiusWindow {
        self.window
    }

    /// The last stage that the held image went through.
    pub closed spec fn phase_spec(&self) -> Phase {
        self.phase
    }

    /// The last stage that the held image went through.
    pub fn phase(&self) -> (r: Phase)
        ensures
            r == self.phase_spec(),
    {
        self.phase
    }

    /// A non-empty image whose sides fit in `i32`, and a window with `1 <= min <= max`.
    pub open spec fn wf(&self) -> bool {
        &&& self.image().wf()
        &&& self.image().width <= i32::MAX
        &&& self.image().height <= i32::MAX
        &&& self.window().wf()
    }

    /// A detector over `source` that accepts radii from 1 to 24 pixels.
    pub fn new(source: GrayImage) -> (r: StarDetect)
        requires
            source.wf(),
            source.width <= i32::MAX,
            source.height <= i32::MAX,
        ensures
            r.wf(),
            r.image() == source,
            r.window() == RadiusWindow::standard_spec(),
            r.phase_spec() == Phase::Raw,
    {
        StarDetect { source, window: RadiusWindow::standard(), phase: Phase::Raw }
    }

    /// The same detector with another window of accepted radii.
    pub fn with_radius_window(self, window: RadiusWindow) -> (r: StarDetect)
        requires
            self.wf(),
            window.wf(),
        ensures
            r.wf(),
            r.image() == self.image(),
            r.window() == window,
            r.phase_spec() == self.phase_spec(),
    {
        StarDetect { source: self.source, window, phase: self.phase }
    }

    /// The image the detector currently holds.
    pub fn source(&self) -> (r: &GrayImage)
        ensures
            *r == self.image(),
    {
        &self.source
    }

    /// Keeps only the small-scale structure of the image.
    fn extract_small_scale_structures(&mut self)
        requires
            old(self).wf(),
            old(self).image().width >= MIN_DETECTION_SIDE,
            old(self).image().height >= MIN_DETECTION_SIDE,
        ensures
            final(self).wf(),
            final(self).window() == old(self).window(),
            final(self).image().width == old(self).image().width,
            final(self).image().height == old(self).image().height,
            final(self).image().pixels@ == small_scale_structure(
                old(self).image().width,
                old(self).image().height,
                old(self).image().pixels@,
                SCALE_COUNT,
            ),
            final(self).phase_spec() == Phase::StructureExtracted,
    {
        proof {
            lemma_min_side_exceeds_widest_stride();
        }
        self.source = small_scale_structures(&self.source, SCALE_COUNT);
        self.phase = Phase::StructureExtracted;
    }

    /// Smooths the image with the edge-preserving filter.
    fn apply_noise_reduction(&mut self)
        requires
            old(self).wf(),
        ensures
            final(self).wf(),
            final(self).window() == old(self).window(),
            final(self).image().width == old(self).image().width,
            final(self).image().height == old(self).image().height,
            final(self).image().pixels@ == bilateral_smoothed(
                old(self).image().width,
                old(self).image().height,
                old(self).image().pixels@,
                NOISE_RADIUS,
                NOISE_SPATIAL_SIGMA,
                NOISE_COLOR_SIGMA,
            ),
            final(self).phase_spec() == Phase::Denoised,
    {
        self.source = bilateral_filter(&self.source, NOISE_RADIUS, NOISE_SPATIAL_SIGMA, NOISE_COLOR_SIGMA);
        self.phase = Phase::Denoised;
    }

    /// Runs the whole pipeline once: structure extraction, smoothing, threshold
    /// search, binarization, and star extraction. On success the held image is
    /// the binarized one and the stars are those its contours give, in the
    /// tracer's order; when the search is exhausted no star is returned. Both
    /// sides must be at least `MIN_DETECTION_SIDE` for the coarsest wavelet scale.
    pub fn find_stars(&mut self, min_stars: usize) -> (r: Result<Vec<StarCenter>, DetectionError>)
        requires
            old(self).wf(),
            old(self).image().width >= MIN_DETECTION_SIDE,
            old(self).image().height >= MIN_DETECTION_SIDE,
        ensures
            final(self).wf(),
            final(self).window() == old(self).window(),
            ({
                let (w, h) = (old(self).image().width, old(self).image().height);
                let smooth = denoised(w, h, old(self).image().pixels@);
                match threshold_search(w, h, smooth, old(self).window(), min_stars as nat) {
                    Ok(t) => r matches Ok(stars) && stars@ == stars_in(w, h, binarized(smooth, t), old(self).window())
                        && final(self).image().pixels@ == binarized(smooth, t)
                        && final(self).phase_spec() == Phase::Extracted,
                    Err(e) => r == Err::<Vec<StarCenter>, DetectionError>(e)
                        && final(self).phase_spec() == Phase::Denoised,
                }
            }),
            r matches Ok(stars) ==> forall|i: int|
                0 <= i < stars@.len() ==> 1 <= #[trigger] stars@[i].radius <= old(self).window().max,
    {
        self.extract_small_scale_structures();
        self.apply_noise_reduction();
        let threshold = match self.optimize_threshold_for_star_count(min_stars) {
            Ok(t) => t,
            Err(e) => return Err(e),
        };
        self.phase = Phase::ThresholdOptimized;
        self.binarize(threshold);
        let stars = find_star_centres_and_size(&self.source, self.window);
        self.phase = Phase::Extracted;
        Ok(stars)
    }
}

impl ThresholdingExtensions for StarDetect {
    closed spec fn working_image(&self) -> GrayImage {
        self.source
    }

    closed spec fn star_window(&self) -> RadiusWindow {
        self.window
    }

    closed spec fn well_formed(&self) -> bool {
        self.wf()
    }

    fn optimize_threshold_for_star_count(&self, min_star_count: usize) -> (r: Result<u8, DetectionError>) {
        search_threshold(&self.source, min_star_count, self.window).outcome
    }

    fn binarize(&mut self, threshold: u8) {
        binarize_pixels(&mut self.source.pixels, threshold);
        self.phase = Phase::Binarized;
    }
}

} // verus!
