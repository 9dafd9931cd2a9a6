//! Image processing for bitmap engraving: thresholding of grayscale images.

use vstd::prelude::*;

verus! {

/// Dithering methods.
#[derive(Clone, Debug, Copy, PartialEq, Eq, Structural)]
pub enum DitherMethod {
    /// Ordered dithering.
    Ordered,
    /// Floyd-Steinberg dithering.
    FloydSteinberg,
    /// Jarvis-Judice-Ninke dithering.
    JarvisJudiceNinke,
    /// Stucki dithering.
    Stucki,
    /// A plain threshold.
    Threshold,
}

/// Why an image was refused.
#[derive(Clone, Debug, Copy, PartialEq, Eq, Structural)]
pub enum ImagingError {
    /// The number of pixels is not width times height.
    SizeMismatch { pixels: usize, width: usize, height: usize },
}

/// The pixels of a grayscale image that are brighter than the threshold.
pub open spec fn above_threshold(grayscale: Seq<u8>, threshold: u8) -> Seq<bool> {
    Seq::new(grayscale.len(), |i: int| grayscale[i] > threshold)
}

/// Turns a grayscale image into black and white: a pixel is set exactly when
/// it is brighter than the threshold, whatever the method.
pub fn apply_dithering(
    grayscale: &[u8],
    _width: usize,
    _height: usize,
    method: DitherMethod,
    threshold: u8,
) -> (r: Result<Vec<bool>, ImagingError>)
    ensures
        r is Ok,
        r->Ok_0@ == above_threshold(grayscale@, threshold),
{
    let mut out: Vec<bool> = Vec::new();
    let mut i: usize = 0;
    while i < grayscale.len()
        invariant
            i <= grayscale@.len(),
            out@ == above_threshold(grayscale@, threshold).take(i as int),
        decreases grayscale@.len() - i,
    {
        out.push(grayscale[i] > threshold);
        assert(out@ =~= above_threshold(grayscale@, threshold).take(i + 1));
        i += 1;
    }
    assert(out@ =~= above_threshold(grayscale@, threshold));
    Ok(out)
}

/// The image as it is, if it holds width times height pixels.
fn checked_copy(grayscale: &[u8], width: usize, height: usize) -> (r: Result<
    Vec<u8>,
    ImagingError,
>)
    ensures
        grayscale@.len() == width * height ==> r is Ok && r->Ok_0@ == grayscale@,
        grayscale@.len() != width * height ==> r == Err::<Vec<u8>, ImagingError>(
            ImagingError::SizeMismatch { pixels: grayscale@.len() as usize, width, height },
        ),
{
    let fits = match width.checked_mul(height) {
        Some(n) => n == grayscale.len(),
        None => false,
    };
    if !fits {
        return Err(ImagingError::SizeMismatch { pixels: grayscale.len(), width, height });
    }
    let mut out: Vec<u8> = Vec::new();
    let mut i: usize = 0;
    while i < grayscale.len()
        invariant
            i <= grayscale@.len(),
            out@ == grayscale@.take(i as int),
        decreases grayscale@.len() - i,
    {
        out.push(grayscale[i]);
        i += 1;
    }
    assert(grayscale@.take(grayscale@.len() as int) == grayscale@);
    Ok(out)
}

/// Edge detection after Sobel: the image is checked for its size and handed
/// back as it is.
pub fn detect_edges_sobel(grayscale: &[u8], width: usize, height: usize) -> (r: Result<
    Vec<u8>,
    ImagingError,
>)
    ensures
        grayscale@.len() == width * height ==> r is Ok && r->Ok_0@ == grayscale@,
        grayscale@.len() != width * height ==> r == Err::<Vec<u8>, ImagingError>(
            ImagingError::SizeMismatch { pixels: grayscale@.len() as usize, width, height },
        ),
{
    checked_copy(grayscale, width, height)
}

/// Edge detection after Canny: the image is checked for its size and handed
/// back as it is, whatever the thresholds.
pub fn detect_edges_canny(
    grayscale: &[u8],
    width: usize,
    height: usize,
    _low_threshold: u8,
    _high_threshold: u8,
) -> (r: Result<Vec<u8>, ImagingError>)
    ensures
        grayscale@.len() == width * height ==> r is Ok && r->Ok_0@ == grayscale@,
        grayscale@.len() != width * height ==> r == Err::<Vec<u8>, ImagingError>(
            ImagingError::SizeMismatch { pixels: grayscale@.len() as usize, width, height },
        ),
{
    checked_copy(grayscale, width, height)
}

} // verus!
