//! The image-processing and geometry primitives that the detector builds on:
//! each one is a call into its crate, with what the library relies on stated
//! in the contract.
use crate::raster::GrayImage;
use geo::Centroid;
use image_dwt::RecomposableWaveletLayers;
use vstd::prelude::*;

verus! {

/// The boundaries that imageproc traces in an image, each as its list of pixel positions.
pub uninterp spec fn traced_contours(width: u32, height: u32, pixels: Seq<u8>) -> Seq<Seq<(u32, u32)>>;

/// The centroid that geo gives a line string through the points, rounded to whole pixels.
pub uninterp spec fn line_centroid(points: Seq<(u32, u32)>) -> Option<(u32, u32)>;

/// The small-scale part of an image, as image_dwt recomposes it from its detail layers.
pub uninterp spec fn small_scale_structure(width: u32, height: u32, pixels: Seq<u8>, levels: usize) -> Seq<u8>;

/// An image after imageproc's bilateral filter with the given window radius and sigmas.
pub uninterp spec fn bilateral_smoothed(
    width: u32,
    height: u32,
    pixels: Seq<u8>,
    radius: u8,
    spatial_sigma: u16,
    color_sigma: u16,
) -> Seq<u8>;

/// Relies on `imageproc::contours::find_contours`: the borders of the regions of
/// nonzero pixels, outer borders and holes, in the order in which a row-major scan
/// meets them. Where no pixel is nonzero the scan starts no border.
#[verifier::external_body]
pub(crate) fn find_contours(img: &GrayImage) -> (r: Vec<Vec<(u32, u32)>>)
    requires
        img.wf(),
    ensures
        r@.len() == traced_contours(img.width, img.height, img.pixels@).len(),
        forall|i: int|
            0 <= i < r@.len() ==> r@[i]@ == traced_contours(img.width, img.height, img.pixels@)[i],
        (forall|i: int| 0 <= i < img.pixels@.len() ==> img.pixels@[i] == 0) ==> r@.len() == 0,
{
    let buffer = image::GrayImage::from_raw(img.width, img.height, img.pixels.clone()).unwrap();
    imageproc::contours::find_contours::<u32>(&buffer)
        .into_iter()
        .map(|contour| contour.points.into_iter().map(|p| (p.x, p.y)).collect())
        .collect()
}

/// Relies on geo's `Centroid` for `LineString`: the mean of the segment midpoints
/// weighted by segment length (the point itself for a single point), present
/// whenever the line string is not empty. The coordinates are rounded to the
/// nearest integer as they are converted.
#[verifier::external_body]
pub(crate) fn centroid_of(points: &Vec<(u32, u32)>) -> (r: Option<(u32, u32)>)
    ensures
        r == line_centroid(points@),
        points@.len() > 0 ==> r is Some,
{
    let line: geo::LineString = points.iter().map(|&(x, y)| geo::Coord { x: x.into(), y: y.into() }).collect();
    line.centroid().map(|c| (c.x().round() as u32, c.y().round() as u32))
}

/// The stride of the coarsest of `levels` detail layers: `2^(levels - 1)`.
pub open spec fn widest_stride(levels: nat) -> nat
    decreases levels,
{
    if levels <= 1 {
        1
    } else {
        2 * widest_stride((levels - 1) as nat)
    }
}

/// Relies on image_dwt's `ATrousTransform` with the linear interpolation kernel
/// and on `recompose_into_image`: the detail layers (every layer but the residue)
/// summed and rescaled to the full range, as an image of the input's size, which
/// `to_luma8` brings to 8 bits. Layer `k` is convolved with stride `2^k`, and
/// the convolution (convolve-image) indexes out of bounds unless every stride
/// is below both sides of the image.
#[verifier::external_body]
pub(crate) fn small_scale_structures(img: &GrayImage, levels: usize) -> (r: GrayImage)
    requires
        img.wf(),
        1 <= levels <= 16,
        img.width as nat > widest_stride(levels as nat),
        img.height as nat > widest_stride(levels as nat),
    ensures
        r.width == img.width,
        r.height == img.height,
        r.pixels@ == small_scale_structure(img.width, img.height, img.pixels@, levels),
        r.wf(),
{
    let buffer = image::GrayImage::from_raw(img.width, img.height, img.pixels.clone()).unwrap();
    let out = image_dwt::ATrousTransform::linear(&image::DynamicImage::ImageLuma8(buffer), levels)
        .filter(|layer| layer.pixel_scale.is_some())
        .recompose_into_image(img.width as usize, img.height as usize, image_dwt::recompose::OutputLayer::Grayscale)
        .to_luma8();
    GrayImage { width: out.width(), height: out.height(), pixels: out.into_raw() }
}

/// Relies on `imageproc::filter::bilateral_filter` with a
/// `GaussianEuclideanColorDistance`: an image of the input's size. It panics on
/// an empty image, on a side above `i32::MAX`, and on a sigma that is not positive.
#[verifier::external_body]
pub(crate) fn bilateral_filter(img: &GrayImage, radius: u8, spatial_sigma: u16, color_sigma: u16) -> (r: GrayImage)
    requires
        img.wf(),
        img.width <= i32::MAX,
        img.height <= i32::MAX,
        spatial_sigma >= 1,
        color_sigma >= 1,
    ensures
        r.width == img.width,
        r.height == img.height,
        r.pixels@ == bilateral_smoothed(img.width, img.height, img.pixels@, radius, spatial_sigma, color_sigma),
        r.wf(),
{
    let buffer = image::GrayImage::from_raw(img.width, img.height, img.pixels.clone()).unwrap();
    let distance = imageproc::filter::bilateral::GaussianEuclideanColorDistance::new(color_sigma.into());
    let out = imageproc::filter::bilateral_filter(&buffer, radius, spatial_sigma.into(), distance);
    GrayImage { width: out.width(), height: out.height(), pixels: out.into_raw() }
}

} // verus!
