use crate::collaborators::{centroid_of, find_contours, line_centroid, traced_contours};
use crate::raster::GrayImage;
use vstd::prelude::*;

verus! {

/// A pixel position.
#[derive(Clone, Copy, Debug, PartialEq, Eq, Structural)]
pub struct Point {
    pub x: u32,
    pub y: u32,
}

/// A detected star: its center in pixels and its radius in pixels.
#[derive(Clone, Copy, Debug, PartialEq, Eq, Structural)]
pub struct StarCenter {
    pub coord: Point,
    pub radius: u32,
}

impl StarCenter {
    pub fn coord(&self) -> (r: &Point)
        ensures
            *r == self.coord,
    {
        &self.coord
    }

    pub fn radius(&self) -> (r: u32)
        ensures
            r == self.radius,
    {
        self.radius
    }
}

/// The radius of a single-pixel star.
pub const SINGLE_PIXEL_RADIUS: u32 = 1;

/// Smallest radius accepted by default: anything smaller is sub-pixel noise.
pub const DEFAULT_MIN_RADIUS: u32 = 1;

/// Largest radius accepted by default: anything larger is an extended object.
pub const DEFAULT_MAX_RADIUS: u32 = 24;

/// The inclusive range of radii that a multi-point contour must fall in to count as a star.
#[derive(Clone, Copy, Debug, PartialEq, Eq, Structural)]
pub struct RadiusWindow {
    pub min: u32,
    pub max: u32,
}

impl RadiusWindow {
    pub open spec fn wf(&self) -> bool {
        1 <= self.min <= self.max
    }

    pub open spec fn standard_spec() -> RadiusWindow {
        RadiusWindow { min: DEFAULT_MIN_RADIUS, max: DEFAULT_MAX_RADIUS }
    }

    /// The window `[1, 24]`.
    pub fn standard() -> (r: RadiusWindow)
        ensures
            r == RadiusWindow::standard_spec(),
            r.wf(),
    {
        RadiusWindow { min: DEFAULT_MIN_RADIUS, max: DEFAULT_MAX_RADIUS }
    }
}

/// The contour with its first point appended when it does not already end there.
pub open spec fn closed_path(c: Seq<(u32, u32)>) -> Seq<(u32, u32)> {
    if c.len() > 0 && c.last() != c[0] {
        c.push(c[0])
    } else {
        c
    }
}

/// Squared Euclidean distance between two pixel positions.
pub open spec fn sq_dist(p: (u32, u32), q: (u32, u32)) -> int {
    (p.0 - q.0) * (p.0 - q.0) + (p.1 - q.1) * (p.1 - q.1)
}

/// The largest squared distance from `c` to any of the points (zero for none).
pub open spec fn max_sq_dist(pts: Seq<(u32, u32)>, c: (u32, u32)) -> int
    decreases pts.len(),
{
    if pts.len() == 0 {
        0
    } else {
        let rest = max_sq_dist(pts.drop_last(), c);
        let d = sq_dist(pts.last(), c);
        if d > rest {
            d
        } else {
            rest
        }
    }
}

/// The largest `r <= bound` with `(2r - 1)^2 <= 4d`, or zero: the square root of
/// `d` rounded to the nearest integer whenever that root is at most `bound`.
pub open spec fn rounded_root_below(d: int, bound: nat) -> nat
    decreases bound,
{
    if bound == 0 {
        0
    } else if (2 * bound - 1) * (2 * bound - 1) <= 4 * d {
        bound
    } else {
        rounded_root_below(d, (bound - 1) as nat)
    }
}

/// Whether `d` has a rounded square root inside the window: its root lies in
/// `[min - 1/2, max + 1/2)`.
pub open spec fn root_in_window(d: int, w: RadiusWindow) -> bool {
    &&& (2 * w.min - 1) * (2 * w.min - 1) <= 4 * d
    &&& 4 * d < (2 * w.max + 1) * (2 * w.max + 1)
}

/// The star that a traced contour stands for, if any.
pub open spec fn star_of_contour(c: Seq<(u32, u32)>, w: RadiusWindow) -> Option<StarCenter> {
    if c.len() == 0 {
        None
    } else if c.len() == 1 {
        Some(StarCenter { coord: Point { x: c[0].0, y: c[0].1 }, radius: SINGLE_PIXEL_RADIUS })
    } else {
        match line_centroid(closed_path(c)) {
            None => None,
            Some(center) => {
                let d = max_sq_dist(closed_path(c), center);
                if root_in_window(d, w) {
                    Some(
                        StarCenter {
                            coord: Point { x: center.0, y: center.1 },
                            radius: rounded_root_below(d, w.max as nat) as u32,
                        },
                    )
                } else {
                    None
                }
            }
        }
    }
}

/// The stars of a list of contours, in contour order, skipping rejected ones.
pub open spec fn stars_of(cs: Seq<Seq<(u32, u32)>>, w: RadiusWindow) -> Seq<StarCenter>
    decreases cs.len(),
{
    if cs.len() == 0 {
        Seq::empty()
    } else {
        let prev = stars_of(cs.drop_last(), w);
        match star_of_contour(cs.last(), w) {
            Some(s) => prev.push(s),
            None => prev,
        }
    }
}

/// The stars found in an image of the given size and samples.
pub open spec fn stars_in(width: u32, height: u32, pixels: Seq<u8>, w: RadiusWindow) -> Seq<StarCenter> {
    stars_of(traced_contours(width, height, pixels), w)
}

/// Below its cap, `rounded_root_below` is the square root rounded to the
/// nearest integer: zero only for `d < 1/4`, and otherwise the `r` with
/// `r - 1/2 <= sqrt(d) < r + 1/2`.
pub proof fn lemma_rounded_root_is_nearest(d: int, bound: nat)
    requires
        0 <= d,
        4 * d < (2 * bound + 1) * (2 * bound + 1),
    ensures
        rounded_root_below(d, bound) == 0 ==> 4 * d < 1,
        rounded_root_below(d, bound) >= 1 ==> (2 * rounded_root_below(d, bound) - 1) * (2
            * rounded_root_below(d, bound) - 1) <= 4 * d < (2 * rounded_root_below(d, bound) + 1)
            * (2 * rounded_root_below(d, bound) + 1),
    decreases bound,
{
    if bound > 0 && (2 * bound - 1) * (2 * bound - 1) > 4 * d {
        lemma_rounded_root_is_nearest(d, (bound - 1) as nat);
    }
}

proof fn lemma_rounded_root_bounds(d: int, bound: nat, m: nat)
    requires
        1 <= m <= bound,
        (2 * m - 1) * (2 * m - 1) <= 4 * d,
    ensures
        m <= rounded_root_below(d, bound) <= bound,
    decreases bound,
{
    if bound > m && (2 * bound - 1) * (2 * bound - 1) > 4 * d {
        lemma_rounded_root_bounds(d, (bound - 1) as nat, m);
    }
}

/// Every star taken from a contour has a radius of at least one pixel and at
/// most the window's upper bound.
pub proof fn lemma_star_radius_bounded(c: Seq<(u32, u32)>, w: RadiusWindow)
    requires
        w.wf(),
    ensures
        star_of_contour(c, w) matches Some(s) ==> 1 <= s.radius <= w.max,
{
    if c.len() > 1 {
        if let Some(center) = line_centroid(closed_path(c)) {
            let d = max_sq_dist(closed_path(c), center);
            if root_in_window(d, w) {
                lemma_rounded_root_bounds(d, w.max as nat, w.min as nat);
            }
        }
    }
}

/// Every star of a contour list has a radius between one pixel and the
/// window's upper bound.
pub proof fn lemma_stars_radius_bounded(cs: Seq<Seq<(u32, u32)>>, w: RadiusWindow)
    requires
        w.wf(),
    ensures
        forall|i: int|
            0 <= i < stars_of(cs, w).len() ==> 1 <= #[trigger] stars_of(cs, w)[i].radius <= w.max,
    decreases cs.len(),
{
    if cs.len() > 0 {
        lemma_stars_radius_bounded(cs.drop_last(), w);
        lemma_star_radius_bounded(cs.last(), w);
        let prev = stars_of(cs.drop_last(), w);
        assert forall|i: int| 0 <= i < stars_of(cs, w).len() implies 1 <= #[trigger] stars_of(
            cs,
            w,
        )[i].radius <= w.max by {
            if i < prev.len() {
                assert(stars_of(cs, w)[i] == prev[i]);
            }
        }
    }
}

/// The contour with its first point appended when it does not already end there.
pub fn construct_closed_polygon(contour: &Vec<(u32, u32)>) -> (r: Vec<(u32, u32)>)
    ensures
        r@ == closed_path(contour@),
{
    let mut path: Vec<(u32, u32)> = Vec::new();
    let mut i: usize = 0;
    while i < contour.len()
        invariant
            i <= contour@.len(),
            path@ == contour@.take(i as int),
        decreases contour@.len() - i,
    {
        path.push(contour[i]);
        i = i + 1;
    }
    assert(contour@.take(contour@.len() as int) =~= contour@);
    let n = path.len();
    if n > 0 && (path[n - 1].0 != path[0].0 || path[n - 1].1 != path[0].1) {
        let first = path[0];
        path.push(first);
    }
    path
}

fn sq_dist_exec(p: (u32, u32), q: (u32, u32)) -> (r: u128)
    ensures
        r == sq_dist(p, q),
        r <= 0x3_ffff_ffff_ffff_ffff_u128,
{
    let dx: u128 = if p.0 >= q.0 { (p.0 - q.0) as u128 } else { (q.0 - p.0) as u128 };
    let dy: u128 = if p.1 >= q.1 { (p.1 - q.1) as u128 } else { (q.1 - p.1) as u128 };
    assert(dx * dx <= 0xffff_ffff_ffff_ffff_u128) by (nonlinear_arith)
        requires
            dx <= 0xffff_ffff_u128,
    ;
    assert(dy * dy <= 0xffff_ffff_ffff_ffff_u128) by (nonlinear_arith)
        requires
            dy <= 0xffff_ffff_u128,
    ;
    assert(dx * dx == (p.0 - q.0) * (p.0 - q.0)) by (nonlinear_arith)
        requires
            dx == p.0 - q.0 || dx == q.0 - p.0,
    ;
    assert(dy * dy == (p.1 - q.1) * (p.1 - q.1)) by (nonlinear_arith)
        requires
            dy == p.1 - q.1 || dy == q.1 - p.1,
    ;
    dx * dx + dy * dy
}

/// The largest squared distance from `center` to any point of `pts`.
fn max_sq_dist_exec(pts: &Vec<(u32, u32)>, center: (u32, u32)) -> (r: u128)
    ensures
        r == max_sq_dist(pts@, center),
        r <= 0x3_ffff_ffff_ffff_ffff_u128,
{
    let mut best: u128 = 0;
    let mut i: usize = 0;
    while i < pts.len()
        invariant
            i <= pts@.len(),
            best == max_sq_dist(pts@.take(i as int), center),
            best <= 0x3_ffff_ffff_ffff_ffff_u128,
        decreases pts@.len() - i,
    {
        assert(pts@.take(i as int + 1).drop_last() =~= pts@.take(i as int));
        let d = sq_dist_exec(pts[i], center);
        if d > best {
            best = d;
        }
        i = i + 1;
    }
    assert(pts@.take(pts@.len() as int) =~= pts@);
    best
}

fn square(x: u128) -> (r: u128)
    requires
        x <= 0x3_ffff_ffff_u128,
    ensures
        r == x * x,
{
    assert(x * x <= 0xf_ffff_ffff_ffff_ffff_u128) by (nonlinear_arith)
        requires
            x <= 0x3_ffff_ffff_u128,
    ;
    x * x
}

/// The square root of `d` rounded to the nearest integer, capped at `bound`.
fn rounded_root_exec(d: u128, bound: u32) -> (r: u32)
    requires
        d <= 0x3_ffff_ffff_ffff_ffff_u128,
    ensures
        r == rounded_root_below(d as int, bound as nat),
{
    let mut r: u32 = bound;
    while r > 0 && square(2 * r as u128 - 1) > 4 * d
        invariant
            r <= bound,
            d <= 0x3_ffff_ffff_ffff_ffff_u128,
            rounded_root_below(d as int, r as nat) == rounded_root_below(d as int, bound as nat),
        decreases r,
    {
        r = r - 1;
    }
    r
}

/// Turns a traced contour into a star, or rejects it: an empty contour is
/// no star, a single point is a star of radius one, and otherwise the star sits
/// at the centroid of the closed contour with the rounded largest distance from
/// there to a point as radius, kept only when that radius lies in the window.
pub fn filter_map_contour_to_star_centers(contour: &Vec<(u32, u32)>, window: RadiusWindow) -> (r: Option<StarCenter>)
    requires
        window.wf(),
    ensures
        r == star_of_contour(contour@, window),
        contour@.len() == 0 ==> r is None,
        contour@.len() == 1 ==> r == Some(
            StarCenter {
                coord: Point { x: contour@[0].0, y: contour@[0].1 },
                radius: SINGLE_PIXEL_RADIUS,
            },
        ),
        r matches Some(s) ==> 1 <= s.radius <= window.max,
{
    proof {
        lemma_star_radius_bounded(contour@, window);
    }
    if contour.len() == 0 {
        return None;
    }
    if contour.len() == 1 {
        let (x, y) = contour[0];
        return Some(StarCenter { coord: Point { x, y }, radius: SINGLE_PIXEL_RADIUS });
    }
    let polygon = construct_closed_polygon(contour);
    let center = match centroid_of(&polygon) {
        Some(c) => c,
        None => return None,
    };
    let d = max_sq_dist_exec(&polygon, center);
    let lo: u128 = 2 * window.min as u128 - 1;
    let hi: u128 = 2 * window.max as u128 + 1;
    if square(lo) > 4 * d || 4 * d >= square(hi) {
        return None;
    }
    let radius = rounded_root_exec(d, window.max);
    Some(StarCenter { coord: Point { x: center.0, y: center.1 }, radius })
}

/// The stars of all contours traced in `img`, in the order the tracer found them.
pub fn find_star_centres_and_size(img: &GrayImage, window: RadiusWindow) -> (r: Vec<StarCenter>)
    requires
        img.wf(),
        window.wf(),
    ensures
        r@ == stars_in(img.width, img.height, img.pixels@, window),
        (forall|i: int| 0 <= i < img.pixels@.len() ==> img.pixels@[i] == 0) ==> r@.len() == 0,
        forall|i: int| 0 <= i < r@.len() ==> 1 <= #[trigger] r@[i].radius <= window.max,
{
    let contours = find_contours(img);
    let ghost cs = traced_contours(img.width, img.height, img.pixels@);
    let mut stars: Vec<StarCenter> = Vec::new();
    let mut i: usize = 0;
    while i < contours.len()
        invariant
            window.wf(),
            i <= contours@.len(),
            contours@.len() == cs.len(),
            forall|j: int| 0 <= j < cs.len() ==> contours@[j]@ == cs[j],
            stars@ == stars_of(cs.take(i as int), window),
        decreases contours@.len() - i,
    {
        assert(cs.take(i as int + 1).drop_last() =~= cs.take(i as int));
        assert(cs.take(i as int + 1).last() == cs[i as int]);
        if let Some(s) = filter_map_contour_to_star_centers(&contours[i], window) {
            stars.push(s);
        }
        i = i + 1;
    }
    assert(cs.take(cs.len() as int) =~= cs);
    proof {
        lemma_stars_radius_bounded(cs, window);
    }
    stars
}

} // verus!
