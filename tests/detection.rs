use stardetector::centroid::{
    construct_closed_polygon, filter_map_contour_to_star_centers, find_star_centres_and_size,
};
use stardetector::threshold::{binarize_pixels, decay, search_threshold, MAX_DECAY_TRIALS};
use stardetector::{
    DetectionError, GrayImage, Phase, Point, RadiusWindow, StarCenter, StarDetect, ThresholdingExtensions,
};

fn black(width: u32, height: u32) -> Vec<u8> {
    vec![0u8; (width * height) as usize]
}

fn image(width: u32, height: u32, pixels: Vec<u8>) -> GrayImage {
    GrayImage::from_raw(width, height, pixels).unwrap()
}

fn paint_disk(pixels: &mut [u8], width: u32, cx: i32, cy: i32, r: i32, value: u8) {
    for y in (cy - r)..=(cy + r) {
        for x in (cx - r)..=(cx + r) {
            if (x - cx) * (x - cx) + (y - cy) * (y - cy) <= r * r {
                pixels[(y as u32 * width + x as u32) as usize] = value;
            }
        }
    }
}

#[test]
fn from_raw_checks_length_and_sides() {
    assert!(GrayImage::from_raw(2, 2, vec![0, 1, 2, 3]).is_some());
    assert!(GrayImage::from_raw(2, 2, vec![0, 1, 2]).is_none());
    assert!(GrayImage::from_raw(0, 2, vec![]).is_none());
}

#[test]
fn binarize_maps_above_threshold_to_white() {
    let mut p = vec![0u8, 99, 100, 101, 255];
    binarize_pixels(&mut p, 100);
    assert_eq!(p, vec![0, 0, 0, 255, 255]);
}

#[test]
fn binarize_twice_is_binarize_once() {
    let original = vec![0u8, 255, 255, 0, 0, 255];
    for t in [1u8, 17, 128, 254] {
        let mut once = original.clone();
        binarize_pixels(&mut once, t);
        let mut twice = once.clone();
        binarize_pixels(&mut twice, t);
        assert_eq!(once, twice);
        assert_eq!(once, original);
    }
}

#[test]
fn trait_binarize_rewrites_held_image() {
    let mut d = StarDetect::new(image(3, 1, vec![10, 50, 200]));
    d.binarize(49);
    assert_eq!(d.source().pixels(), &vec![0u8, 255, 255]);
}

#[test]
fn empty_contour_is_rejected() {
    assert_eq!(filter_map_contour_to_star_centers(&vec![], RadiusWindow::standard()), None);
}

#[test]
fn single_point_contour_is_unit_star() {
    let s = filter_map_contour_to_star_centers(&vec![(7, 9)], RadiusWindow::standard()).unwrap();
    assert_eq!(*s.coord(), Point { x: 7, y: 9 });
    assert_eq!(s.radius(), 1);
    let narrow = RadiusWindow { min: 5, max: 6 };
    let s = filter_map_contour_to_star_centers(&vec![(0, 0)], narrow).unwrap();
    assert_eq!(s, StarCenter { coord: Point { x: 0, y: 0 }, radius: 1 });
}

#[test]
fn closing_appends_start_point_once() {
    assert_eq!(construct_closed_polygon(&vec![(0, 0), (4, 0), (4, 4)]), vec![(0, 0), (4, 0), (4, 4), (0, 0)]);
    assert_eq!(construct_closed_polygon(&vec![(0, 0), (4, 0), (0, 0)]), vec![(0, 0), (4, 0), (0, 0)]);
    assert_eq!(construct_closed_polygon(&vec![]), Vec::<(u32, u32)>::new());
}

#[test]
fn square_contour_centroid_and_radius() {
    // Centroid (2, 2); farthest corner at sqrt(8), which rounds to 3.
    let s = filter_map_contour_to_star_centers(&vec![(0, 0), (4, 0), (4, 4), (0, 4)], RadiusWindow::standard())
        .unwrap();
    assert_eq!(s, StarCenter { coord: Point { x: 2, y: 2 }, radius: 3 });
}

#[test]
fn offset_square_contour_centroid() {
    let s = filter_map_contour_to_star_centers(&vec![(10, 20), (12, 20), (12, 22), (10, 22)], RadiusWindow::standard())
        .unwrap();
    // Distance sqrt(2) to each corner rounds to 1.
    assert_eq!(s, StarCenter { coord: Point { x: 11, y: 21 }, radius: 1 });
}

#[test]
fn oversized_contour_is_rejected() {
    let c = vec![(0, 0), (100, 0), (100, 100), (0, 100)];
    assert_eq!(filter_map_contour_to_star_centers(&c, RadiusWindow::standard()), None);
    let wide = RadiusWindow { min: 1, max: 80 };
    let s = filter_map_contour_to_star_centers(&c, wide).unwrap();
    assert_eq!(s.radius(), 71);
}

#[test]
fn tiny_contour_is_rejected_by_window() {
    // Two points one pixel apart: radius 1/2 from the midpoint, which rounds to 1 only
    // inside a window that starts at 1; a window from 2 drops it.
    let c = vec![(5, 5), (6, 5), (7, 5), (6, 5)];
    let s = filter_map_contour_to_star_centers(&c, RadiusWindow { min: 2, max: 24 });
    assert_eq!(s, None);
}

#[test]
fn single_bright_pixel_is_found() {
    let mut p = black(9, 9);
    p[4 * 9 + 3] = 255;
    let stars = find_star_centres_and_size(&image(9, 9, p), RadiusWindow::standard());
    assert_eq!(stars, vec![StarCenter { coord: Point { x: 3, y: 4 }, radius: 1 }]);
}

#[test]
fn black_image_has_no_stars() {
    let stars = find_star_centres_and_size(&image(9, 9, black(9, 9)), RadiusWindow::standard());
    assert!(stars.is_empty());
}

#[test]
fn decay_rounds_down() {
    assert_eq!(decay(255), 242);
    assert_eq!(decay(242), 229);
    assert_eq!(decay(20), 19);
    assert_eq!(decay(1), 0);
    assert_eq!(decay(0), 0);
}

#[test]
fn zero_target_returns_top_threshold_without_trials() {
    let r = search_threshold(&image(4, 4, black(4, 4)), 0, RadiusWindow::standard());
    assert_eq!(r.outcome, Ok(255));
    assert_eq!(r.trials, 0);
    let d = StarDetect::new(image(4, 4, black(4, 4)));
    assert_eq!(d.optimize_threshold_for_star_count(0), Ok(255));
}

#[test]
fn black_image_exhausts_search() {
    for min in [1usize, 3, 1000] {
        let r = search_threshold(&image(6, 6, black(6, 6)), min, RadiusWindow::standard());
        assert_eq!(r.outcome, Err(DetectionError::SearchExhausted));
        assert_eq!(r.trials, 62);
        assert!(r.trials <= MAX_DECAY_TRIALS);
    }
}

#[test]
fn search_stops_at_first_threshold_below_blob() {
    // 255 -> 242 -> 229 -> 217 -> 206 -> 195: the blob at 200 first shows at 195.
    let mut p = black(20, 20);
    paint_disk(&mut p, 20, 10, 10, 1, 200);
    let r = search_threshold(&image(20, 20, p), 1, RadiusWindow::standard());
    assert_eq!(r.outcome, Ok(195));
    assert_eq!(r.trials, 5);
}

#[test]
fn search_trials_stay_bounded() {
    let mut p = black(20, 20);
    paint_disk(&mut p, 20, 10, 10, 2, 3);
    let r = search_threshold(&image(20, 20, p), 1, RadiusWindow::standard());
    assert!(r.trials <= MAX_DECAY_TRIALS);
    assert_eq!(r.outcome, Ok(2));
}

#[test]
fn exhausted_pipeline_returns_error() {
    let mut d = StarDetect::new(image(160, 160, black(160, 160)));
    assert_eq!(d.phase(), Phase::Raw);
    assert_eq!(d.find_stars(1), Err(DetectionError::SearchExhausted));
    assert_eq!(d.phase(), Phase::Denoised);
}

#[test]
fn uniform_sky_is_removed_before_thresholding() {
    // A flat image has no small-scale structure: the extraction leaves zeros,
    // which the smoothing keeps, so no threshold finds a star.
    let mut d = StarDetect::new(image(130, 130, vec![200u8; 130 * 130]));
    assert_eq!(d.find_stars(1), Err(DetectionError::SearchExhausted));
    assert!(d.source().pixels().iter().all(|&p| p == 0));
    assert_eq!(d.source().width(), 130);
    assert_eq!(d.source().height(), 130);
}

#[test]
fn radius_window_can_be_replaced() {
    let d = StarDetect::new(image(2, 2, black(2, 2))).with_radius_window(RadiusWindow { min: 2, max: 9 });
    assert_eq!(d.phase(), Phase::Raw);
    assert_eq!(RadiusWindow::standard(), RadiusWindow { min: 1, max: 24 });
}

#[test]
fn five_disks_give_five_stars() {
    let (w, h) = (200u32, 200u32);
    let mut p = black(w, h);
    let centers = [(40, 40), (150, 45), (100, 100), (45, 160), (160, 155)];
    for &(cx, cy) in &centers {
        paint_disk(&mut p, w, cx, cy, 3, 255);
    }
    let mut d = StarDetect::new(image(w, h, p));
    let stars = d.find_stars(5).unwrap();
    assert_eq!(d.phase(), Phase::Extracted);
    assert!(d.source().pixels().iter().all(|&p| p == 0 || p == 255));
    assert_eq!(stars.len(), 5);
    for s in &stars {
        assert!(s.radius() >= 2 && s.radius() <= 4, "radius {}", s.radius());
        let near = centers.iter().any(|&(cx, cy)| {
            (s.coord().x as i32 - cx).abs() <= 1 && (s.coord().y as i32 - cy).abs() <= 1
        });
        assert!(near, "star at {:?}", s.coord());
    }
    for s in &stars {
        assert!(s.radius() >= 1 && s.radius() <= 24);
    }
}
