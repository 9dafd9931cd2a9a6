//! Tests of thresholding and of the size check of images.

use gcodekit2::designer::imaging::{
    apply_dithering, detect_edges_canny, detect_edges_sobel, DitherMethod, ImagingError,
};
use gcodekit2::designer::{BackPlotState, MoveType};

#[test]
fn test_dithering_none() {
    let gray = vec![50, 150, 200, 100];
    let result = apply_dithering(&gray, 2, 2, DitherMethod::Threshold, 128).unwrap();
    assert_eq!(result, vec![false, true, true, false]);
}

#[test]
fn imaging_test_dithering_none() {
    let grayscale = vec![50, 150, 200, 100];
    let result = apply_dithering(&grayscale, 2, 2, DitherMethod::Threshold, 128).unwrap();

    assert_eq!(result.len(), 4);
    assert_eq!(result[0], false);
    assert_eq!(result[1], true);
    assert_eq!(result[2], true);
    assert_eq!(result[3], false);
}

#[test]
fn test_dithering_ordered() {
    let grayscale = vec![100, 150, 200, 50];
    let result = apply_dithering(&grayscale, 2, 2, DitherMethod::Ordered, 128).unwrap();
    assert_eq!(result.len(), 4);
}

#[test]
fn test_dithering_floyd_steinberg() {
    let grayscale = vec![100, 150, 200, 50];
    let result = apply_dithering(&grayscale, 2, 2, DitherMethod::FloydSteinberg, 128).unwrap();
    assert_eq!(result.len(), 4);
}

#[test]
fn test_dithering_jarvis_judice_ninke() {
    let grayscale = vec![100, 150, 200, 50];
    let result =
        apply_dithering(&grayscale, 2, 2, DitherMethod::JarvisJudiceNinke, 128).unwrap();
    assert_eq!(result.len(), 4);
}

#[test]
fn test_dithering_stucki() {
    let grayscale = vec![100, 150, 200, 50];
    let result = apply_dithering(&grayscale, 2, 2, DitherMethod::Stucki, 128).unwrap();
    assert_eq!(result.len(), 4);
}

#[test]
fn test_dithering_all_methods() {
    let grayscale = vec![75, 125, 175, 50];

    let methods = vec![
        DitherMethod::Threshold,
        DitherMethod::Ordered,
        DitherMethod::FloydSteinberg,
        DitherMethod::JarvisJudiceNinke,
        DitherMethod::Stucki,
    ];

    for method in methods {
        let result = apply_dithering(&grayscale, 2, 2, method, 128).unwrap();
        assert_eq!(result.len(), 4);
        assert_eq!(result, vec![false, false, true, false]);
    }
}

#[test]
fn test_dithering_extreme_values() {
    let grayscale = vec![0, 255, 0, 255];
    let result = apply_dithering(&grayscale, 2, 2, DitherMethod::Threshold, 128).unwrap();

    assert_eq!(result[0], false);
    assert_eq!(result[1], true);
    assert_eq!(result[2], false);
    assert_eq!(result[3], true);
}

#[test]
fn test_dithering_large_image() {
    let width = 10;
    let height = 10;
    let grayscale = vec![128; width * height];
    let result =
        apply_dithering(&grayscale, width, height, DitherMethod::Threshold, 128).unwrap();

    assert_eq!(result.len(), width * height);
    assert!(result.iter().all(|p| !p));
}

#[test]
fn test_dithering_threshold_edges() {
    let grayscale = vec![0, 127, 128, 129, 255];
    assert_eq!(
        apply_dithering(&grayscale, 5, 1, DitherMethod::Threshold, 128).unwrap(),
        vec![false, false, false, true, true]
    );
    assert_eq!(
        apply_dithering(&grayscale, 5, 1, DitherMethod::Threshold, 255).unwrap(),
        vec![false; 5]
    );
    assert_eq!(
        apply_dithering(&grayscale, 5, 1, DitherMethod::Threshold, 0).unwrap(),
        vec![false, true, true, true, true]
    );
    assert_eq!(
        apply_dithering(&[], 0, 0, DitherMethod::Ordered, 1).unwrap(),
        Vec::<bool>::new()
    );
}

#[test]
fn test_edge_detection_checks_the_size() {
    let grayscale = vec![255, 255, 255, 0, 0, 0, 255, 255, 255];
    assert_eq!(detect_edges_sobel(&grayscale, 3, 3), Ok(grayscale.clone()));
    assert_eq!(detect_edges_canny(&grayscale, 3, 3, 10, 20), Ok(grayscale.clone()));
    assert_eq!(detect_edges_canny(&grayscale, 9, 1, 0, 0), Ok(grayscale.clone()));
    assert_eq!(
        detect_edges_sobel(&grayscale, 3, 4),
        Err(ImagingError::SizeMismatch { pixels: 9, width: 3, height: 4 })
    );
    assert_eq!(
        detect_edges_canny(&grayscale, 2, 2, 10, 20),
        Err(ImagingError::SizeMismatch { pixels: 9, width: 2, height: 2 })
    );
    assert_eq!(
        detect_edges_sobel(&grayscale, usize::MAX, 2),
        Err(ImagingError::SizeMismatch { pixels: 9, width: usize::MAX, height: 2 })
    );
    assert_eq!(detect_edges_sobel(&[], 0, 5), Ok(vec![]));
}

#[test]
fn test_move_types_and_states() {
    assert_ne!(MoveType::Rapid, MoveType::Linear);
    assert_ne!(MoveType::ArcCW, MoveType::ArcCCW);
    assert_eq!(MoveType::Dwell, MoveType::Dwell);
    assert_ne!(MoveType::Other, MoveType::Rapid);
    assert_ne!(BackPlotState::Idle, BackPlotState::Running);
    assert_ne!(BackPlotState::Paused, BackPlotState::Completed);
}
