use crate::centroid::{find_star_centres_and_size, stars_in, RadiusWindow};
use crate::raster::GrayImage;
use vstd::prelude::*;

verus! {

/// Largest sample value: pixels above the threshold become this.
pub const MAX_INTENSITY: u8 = 255;

/// Each sample becomes `MAX_INTENSITY` when it exceeds `t`, and zero otherwise.
pub open spec fn binarized(s: Seq<u8>, t: u8) -> Seq<u8> {
    Seq::new(s.len(), |i: int| if s[i] > t { MAX_INTENSITY } else { 0u8 })
}

/// Every sample is either zero or `MAX_INTENSITY`.
pub open spec fn is_two_level(s: Seq<u8>) -> bool {
    forall|i: int| 0 <= i < s.len() ==> (s[i] == 0 || s[i] == MAX_INTENSITY)
}

/// Binarizing a two-level image a second time at the same cut point changes nothing.
pub proof fn lemma_binarize_idempotent(s: Seq<u8>, t: u8)
    requires
        is_two_level(s),
        0 < t < 255,
    ensures
        binarized(binarized(s, t), t) == binarized(s, t),
{
    assert(binarized(binarized(s, t), t) =~= binarized(s, t));
}

/// Rewrites every sample of `pixels` in place by the two-level rule.
pub fn binarize_pixels(pixels: &mut Vec<u8>, threshold: u8)
    ensures
        final(pixels)@ == binarized(old(pixels)@, threshold),
{
    let n = pixels.len();
    let mut i: usize = 0;
    while i < n
        invariant
            n == old(pixels)@.len(),
            pixels@.len() == n,
            i <= n,
            forall|j: int| 0 <= j < i ==> pixels@[j] == binarized(old(pixels)@, threshold)[j],
            forall|j: int| i <= j < n ==> pixels@[j] == old(pixels)@[j],
        decreases n - i,
    {
        if pixels[i] > threshold {
            pixels.set(i, MAX_INTENSITY);
        } else {
            pixels.set(i, 0);
        }
        i = i + 1;
    }
    assert(pixels@ =~= binarized(old(pixels)@, threshold));
}

/// The search starts at the brightest level and scales the threshold by
/// `DECAY_NUMERATOR / DECAY_DENOMINATOR` (rounded down) after each failed trial.
pub const DECAY_NUMERATOR: u32 = 95;

pub const DECAY_DENOMINATOR: u32 = 100;

/// `ceil(ln 255 / ln(1 / 0.95))`: the most decay steps a search may take.
pub const MAX_DECAY_TRIALS: u32 = 109;

/// What goes wrong in a detection run.
#[derive(Clone, Copy, Debug, PartialEq, Eq, Structural)]
pub enum DetectionError {
    /// The threshold decayed to zero without reaching the requested star count.
    SearchExhausted,
}

/// The threshold after one decay step: `floor(0.95 * t)`.
pub open spec fn decayed(t: u8) -> u8 {
    ((t as int * DECAY_NUMERATOR as int) / DECAY_DENOMINATOR as int) as u8
}

/// How many decay steps take `t` down to zero.
pub open spec fn decay_steps(t: u8) -> nat
    decreases t,
{
    if t == 0 {
        0
    } else {
        1 + decay_steps(decayed(t))
    }
}

/// One decay step of the threshold.
pub fn decay(t: u8) -> (r: u8)
    ensures
        r == decayed(t),
        t > 0 ==> r < t,
{
    ((t as u32 * DECAY_NUMERATOR) / DECAY_DENOMINATOR) as u8
}

/// How many stars the image shows once binarized at `t`.
pub open spec fn star_count_at(width: u32, height: u32, pixels: Seq<u8>, w: RadiusWindow, t: u8) -> nat {
    stars_in(width, height, binarized(pixels, t), w).len()
}

/// The outcome of the search once threshold `t` has failed to give `min` stars.
pub open spec fn search_from(width: u32, height: u32, pixels: Seq<u8>, w: RadiusWindow, min: nat, t: u8) -> Result<u8, DetectionError>
    decreases t,
{
    if t == 0 {
        Err(DetectionError::SearchExhausted)
    } else if star_count_at(width, height, pixels, w, decayed(t)) >= min {
        Ok(decayed(t))
    } else {
        search_from(width, height, pixels, w, min, decayed(t))
    }
}

/// How many trial binarizations the search makes after threshold `t` has failed.
pub open spec fn trials_from(width: u32, height: u32, pixels: Seq<u8>, w: RadiusWindow, min: nat, t: u8) -> nat
    decreases t,
{
    if t == 0 {
        0
    } else if star_count_at(width, height, pixels, w, decayed(t)) >= min {
        1
    } else {
        1 + trials_from(width, height, pixels, w, min, decayed(t))
    }
}

/// The first threshold in the decay sequence from 255 that gives at least
/// `min` stars; 255 itself when nothing is asked for.
pub open spec fn threshold_search(width: u32, height: u32, pixels: Seq<u8>, w: RadiusWindow, min: nat) -> Result<u8, DetectionError> {
    if min == 0 {
        Ok(MAX_INTENSITY)
    } else {
        search_from(width, height, pixels, w, min, MAX_INTENSITY)
    }
}

/// The number of trial binarizations that the search makes.
pub open spec fn search_trials(width: u32, height: u32, pixels: Seq<u8>, w: RadiusWindow, min: nat) -> nat {
    if min == 0 {
        0
    } else {
        trials_from(width, height, pixels, w, min, MAX_INTENSITY)
    }
}

/// The decay sequence from 255 reaches zero after 62 steps; each line below
/// unfolds one step, from the bottom of the sequence up.
proof fn lemma_decay_steps_from_top()
    ensures
        decay_steps(MAX_INTENSITY) == 62,
{
    assert(decay_steps(0) == 0);
    assert(decay_steps(1) == 1);
    assert(decay_steps(2) == 2);
    assert(decay_steps(3) == 3);
    assert(decay_steps(4) == 4);
    assert(decay_steps(5) == 5);
    assert(decay_steps(6) == 6);
    assert(decay_steps(7) == 7);
    assert(decay_steps(8) == 8);
    assert(decay_steps(9) == 9);
    assert(decay_steps(10) == 10);
    assert(decay_steps(11) == 11);
    assert(decay_steps(12) == 12);
    assert(decay_steps(13) == 13);
    assert(decay_steps(14) == 14);
    assert(decay_steps(15) == 15);
    assert(decay_steps(16) == 16);
    assert(decay_steps(17) == 17);
    assert(decay_steps(18) == 18);
    assert(decay_steps(19) == 19);
    assert(decay_steps(21) == 20);
    assert(decay_steps(23) == 21);
    assert(decay_steps(25) == 22);
    assert(decay_steps(27) == 23);
    assert(decay_steps(29) == 24);
    assert(decay_steps(31) == 25);
    assert(decay_steps(33) == 26);
    assert(decay_steps(35) == 27);
    assert(decay_steps(37) == 28);
    assert(decay_steps(39) == 29);
    assert(decay_steps(42) == 30);
    assert(decay_steps(45) == 31);
    assert(decay_steps(48) == 32);
    assert(decay_steps(51) == 33);
    assert(decay_steps(54) == 34);
    assert(decay_steps(57) == 35);
    assert(decay_steps(60) == 36);
    assert(decay_steps(64) == 37);
    assert(decay_steps(68) == 38);
    assert(decay_steps(72) == 39);
    assert(decay_steps(76) == 40);
    assert(decay_steps(80) == 41);
    assert(decay_steps(85) == 42);
    assert(decay_steps(90) == 43);
    assert(decay_steps(95) == 44);
    assert(decay_steps(101) == 45);
    assert(decay_steps(107) == 46);
    assert(decay_steps(113) == 47);
    assert(decay_steps(119) == 48);
    assert(decay_steps(126) == 49);
    assert(decay_steps(133) == 50);
    assert(decay_steps(141) == 51);
    assert(decay_steps(149) == 52);
    assert(decay_steps(157) == 53);
    assert(decay_steps(166) == 54);
    assert(decay_steps(175) == 55);
    assert(decay_steps(185) == 56);
    assert(decay_steps(195) == 57);
    assert(decay_steps(206) == 58);
    assert(decay_steps(217) == 59);
    assert(decay_steps(229) == 60);
    assert(decay_steps(242) == 61);
    assert(decay_steps(255) == 62);
}

proof fn lemma_trials_within_steps(width: u32, height: u32, pixels: Seq<u8>, w: RadiusWindow, min: nat, t: u8)
    ensures
        trials_from(width, height, pixels, w, min, t) <= decay_steps(t),
    decreases t,
{
    if t > 0 {
        lemma_trials_within_steps(width, height, pixels, w, min, decayed(t));
    }
}

/// However the image and target are chosen, the search makes at most
/// `MAX_DECAY_TRIALS` decay steps before it succeeds or reaches zero.
pub proof fn lemma_search_trials_bounded(width: u32, height: u32, pixels: Seq<u8>, w: RadiusWindow, min: nat)
    ensures
        search_trials(width, height, pixels, w, min) <= MAX_DECAY_TRIALS,
{
    lemma_decay_steps_from_top();
    lemma_trials_within_steps(width, height, pixels, w, min, MAX_INTENSITY);
}

/// The threshold a search settled on, and how many trial binarizations it made.
#[derive(Clone, Copy, Debug)]
pub struct ThresholdSearch {
    pub outcome: Result<u8, DetectionError>,
    pub trials: u32,
}

/// Walks the thresholds `255, floor(0.95 * 255), ...` and stops at the first
/// whose binarized copy of `img` shows at least `min_star_count` stars.
pub fn search_threshold(img: &GrayImage, min_star_count: usize, window: RadiusWindow) -> (r: ThresholdSearch)
    requires
        img.wf(),
        window.wf(),
    ensures
        r.outcome == threshold_search(img.width, img.height, img.pixels@, window, min_star_count as nat),
        r.trials == search_trials(img.width, img.height, img.pixels@, window, min_star_count as nat),
        r.trials <= MAX_DECAY_TRIALS,
        min_star_count == 0 ==> r.outcome == Ok::<u8, DetectionError>(MAX_INTENSITY) && r.trials == 0,
        r.outcome matches Ok(t) ==> star_count_at(img.width, img.height, img.pixels@, window, t)
            >= min_star_count,
        (min_star_count >= 1 && forall|i: int| 0 <= i < img.pixels@.len() ==> img.pixels@[i] == 0)
            ==> r.outcome == Err::<u8, DetectionError>(DetectionError::SearchExhausted),
{
    let ghost (width, height, pixels, min) = (img.width, img.height, img.pixels@, min_star_count as nat);
    proof {
        lemma_search_trials_bounded(width, height, pixels, window, min);
        lemma_decay_steps_from_top();
    }
    if min_star_count == 0 {
        return ThresholdSearch { outcome: Ok(MAX_INTENSITY), trials: 0 };
    }
    let mut threshold: u8 = MAX_INTENSITY;
    let mut trials: u32 = 0;
    loop
        invariant
            img.wf(),
            window.wf(),
            width == img.width && height == img.height && pixels == img.pixels@,
            min == min_star_count as nat,
            min >= 1,
            search_from(width, height, pixels, window, min, MAX_INTENSITY) == search_from(width, height, pixels, window, min, threshold),
            trials_from(width, height, pixels, window, min, MAX_INTENSITY) == trials + trials_from(width, height, pixels, window, min, threshold),
            trials + decay_steps(threshold) == decay_steps(MAX_INTENSITY),
            decay_steps(MAX_INTENSITY) == 62,
        decreases threshold,
    {
        if threshold == 0 {
            return ThresholdSearch { outcome: Err(DetectionError::SearchExhausted), trials };
        }
        threshold = decay(threshold);
        trials = trials + 1;
        let mut trial = img.duplicate();
        binarize_pixels(&mut trial.pixels, threshold);
        proof {
            if forall|i: int| 0 <= i < pixels.len() ==> pixels[i] == 0 {
                assert forall|i: int| 0 <= i < trial.pixels@.len() implies trial.pixels@[i] == 0 by {
                    assert(pixels[i] == 0);
                }
            }
        }
        let stars = find_star_centres_and_size(&trial, window);
        if stars.len() >= min_star_count {
            return ThresholdSearch { outcome: Ok(threshold), trials };
        }
    }
}

/// Threshold search and binarization on an image holder.
pub trait ThresholdingExtensions {
    /// The image that the holder works on.
    spec fn working_image(&self) -> GrayImage;

    /// The radii that count as stars.
    spec fn star_window(&self) -> RadiusWindow;

    /// The holder's own invariant.
    spec fn well_formed(&self) -> bool;

    /// The threshold that `search_threshold` settles on for the working image.
    fn optimize_threshold_for_star_count(&self, min_star_count: usize) -> (r: Result<u8, DetectionError>)
        requires
            self.well_formed(),
        ensures
            r == threshold_search(
                self.working_image().width,
                self.working_image().height,
                self.working_image().pixels@,
                self.star_window(),
                min_star_count as nat,
            ),
    ;

    /// Binarizes the working image in place at `threshold`.
    fn binarize(&mut self, threshold: u8)
        requires
            old(self).well_formed(),
        ensures
            final(self).well_formed(),
            final(self).star_window() == old(self).star_window(),
            final(self).working_image().width == old(self).working_image().width,
            final(self).working_image().height == old(self).working_image().height,
            final(self).working_image().pixels@ == binarized(old(self).working_image().pixels@, threshold),
    ;
}

} // verus!
