use segment_foreground::decode::{decode_matte, first_plane, normalize_rank, output_rank, OutputRank};
use segment_foreground::encode::{
    encode_nchw, normalize_sample, preprocess_modnet_nchw, preprocess_u2net_nchw, Fraction,
    NormalizationScheme,
};
use segment_foreground::error::PipelineError;
use segment_foreground::geometry::{compute_padding, resize_with_padding, PaddingDescriptor};
use segment_foreground::pipeline::{input_scheme, prepare_input, target_side, ModelFamily};
use segment_foreground::raster::RgbRaster;

fn uniform_rgb(width: u32, height: u32, v: [u8; 3]) -> RgbRaster {
    let mut data = Vec::new();
    for _ in 0..(width * height) {
        data.extend_from_slice(&v);
    }
    RgbRaster { width, height, data }
}

fn value(f: Fraction) -> f64 {
    f.numerator as f64 / f.denominator as f64
}

#[test]
fn landscape_into_square_target() {
    let pd = compute_padding(640, 480, 512, 512).unwrap();
    assert_eq!(
        pd,
        PaddingDescriptor { pad_x: 0, pad_y: 64, content_width: 512, content_height: 384 }
    );
}

#[test]
fn mid_gray_encoding_content_and_padding() {
    let img = uniform_rgb(640, 480, [128, 128, 128]);
    let (padded, pd) = resize_with_padding(&img, 512, 512).unwrap();
    assert_eq!((padded.width, padded.height), (512, 512));
    assert_eq!(pd.pad_y, 64);
    let tensor = preprocess_modnet_nchw(&padded);
    assert_eq!(tensor.len(), 3 * 512 * 512);
    let plane = 512 * 512;
    for c in 0..3 {
        for y in 0..512usize {
            for x in 0..512usize {
                let f = tensor[c * plane + y * 512 + x];
                if y < 64 || y >= 64 + 384 {
                    assert_eq!(f, Fraction { numerator: -255, denominator: 255 });
                    assert_eq!(value(f), -1.0);
                } else {
                    assert_eq!(f, Fraction { numerator: 1, denominator: 255 });
                    assert!((value(f) - 0.0039).abs() < 1e-4);
                }
            }
        }
    }
}

#[test]
fn square_input_has_no_padding() {
    for (side, t) in [(1u32, 320u32), (100, 320), (1000, 512), (512, 512), (7, 3)] {
        let pd = compute_padding(side, side, t, t).unwrap();
        assert_eq!(
            pd,
            PaddingDescriptor { pad_x: 0, pad_y: 0, content_width: t, content_height: t }
        );
    }
}

#[test]
fn letterbox_spans_target() {
    for w in [1u32, 2, 3, 17, 333, 640, 1001] {
        for h in [1u32, 5, 64, 480, 999] {
            for (tw, th) in [(512u32, 512u32), (320, 320), (7, 9), (100, 31)] {
                if let Some(pd) = compute_padding(w, h, tw, th) {
                    let sx = 2 * pd.pad_x + pd.content_width;
                    let sy = 2 * pd.pad_y + pd.content_height;
                    assert!(sx == tw || sx == tw - 1);
                    assert!(sy == th || sy == th - 1);
                }
            }
        }
    }
}

#[test]
fn rounding_is_half_up() {
    // 3 x 2 onto 2 x 2: the height scales to 4/3, rounded to 1.
    assert_eq!(compute_padding(3, 2, 2, 2).unwrap().content_height, 1);
    // 4 x 1 onto 2 x 2: the height scales to 0.5, rounded up to 1.
    assert_eq!(compute_padding(4, 1, 2, 2).unwrap().content_height, 1);
    assert_eq!(compute_padding(4, 1, 2, 2).unwrap().pad_y, 0);
}

#[test]
fn zero_area_is_rejected() {
    let img = RgbRaster { width: 0, height: 4, data: Vec::new() };
    let e = resize_with_padding(&img, 512, 512).unwrap_err();
    assert_eq!(
        e,
        PipelineError::InvalidImageDimensions {
            width: 0,
            height: 4,
            target_width: 512,
            target_height: 512
        }
    );
    // 10000 x 1 onto 8 x 8: the content would be less than half a row high.
    assert!(compute_padding(10000, 1, 8, 8).is_none());
    let thin = uniform_rgb(10000, 1, [1, 2, 3]);
    assert!(matches!(
        prepare_input(&thin, ModelFamily::U2net),
        Err(PipelineError::InvalidImageDimensions { .. })
    ));
}

#[test]
fn symmetric_unit_anchors() {
    for c in 0..3 {
        let lo = normalize_sample(NormalizationScheme::SymmetricUnit, c, 0);
        let hi = normalize_sample(NormalizationScheme::SymmetricUnit, c, 255);
        assert_eq!(value(lo), -1.0);
        assert!((value(hi) - 1.0).abs() < 1e-9);
    }
}

#[test]
fn imagenet_mean_byte_is_near_zero() {
    let mean = [0.485f64, 0.456, 0.406];
    let std = [0.229f64, 0.224, 0.225];
    for c in 0..3 {
        let v = (mean[c] * 255.0).round() as u8;
        let f = normalize_sample(NormalizationScheme::ImageNetStats, c, v);
        assert!(value(f).abs() < 0.01);
        for b in [0u8, 77, 255] {
            let g = normalize_sample(NormalizationScheme::ImageNetStats, c, b);
            let expected = (b as f64 / 255.0 - mean[c]) / std[c];
            assert!((value(g) - expected).abs() < 1e-9);
        }
    }
}

#[test]
fn encoding_is_channel_major() {
    // 2 x 1 image: pixel 0 = (10, 20, 30), pixel 1 = (40, 50, 60).
    let img = RgbRaster { width: 2, height: 1, data: vec![10, 20, 30, 40, 50, 60] };
    let t = encode_nchw(&img, NormalizationScheme::SymmetricUnit);
    let nums: Vec<i32> = t.iter().map(|f| f.numerator).collect();
    let expected: Vec<i32> = [10, 40, 20, 50, 30, 60].iter().map(|v| 2 * v - 255).collect();
    assert_eq!(nums, expected);
    let u = preprocess_u2net_nchw(&img);
    assert_eq!(u[0], Fraction { numerator: 10000 - 255 * 485, denominator: 255 * 229 });
    assert_eq!(u[5], Fraction { numerator: 60000 - 255 * 406, denominator: 255 * 225 });
}

#[test]
fn rank_three_and_four_decode_alike() {
    let data: Vec<f32> = (0..6).map(|i| i as f32 / 5.0).collect();
    let (s3, p3) = first_plane(&vec![1, 2, 3], &data).unwrap();
    let (s4, p4) = first_plane(&vec![1, 1, 2, 3], &data).unwrap();
    assert_eq!(s3, s4);
    assert_eq!(p3, p4);
    assert_eq!(output_rank(&vec![1, 2, 3]).unwrap(), OutputRank::ThreeD);
    assert_eq!(output_rank(&vec![1, 1, 2, 3]).unwrap(), OutputRank::FourD);
}

#[test]
fn first_plane_takes_batch_zero_channel_zero() {
    let data: Vec<u32> = (0..16).collect();
    let (s, p) = first_plane(&vec![2, 2, 2, 2], &data).unwrap();
    assert_eq!((s.batch, s.channels, s.height, s.width), (2, 2, 2, 2));
    assert_eq!(p, vec![0, 1, 2, 3]);
}

#[test]
fn other_ranks_are_rejected() {
    let data = vec![0u8; 4];
    assert_eq!(
        first_plane(&vec![2, 2], &data).unwrap_err(),
        PipelineError::UnexpectedOutputRank { rank: 2 }
    );
    assert_eq!(
        normalize_rank(&vec![1, 1, 1, 2, 2]).unwrap_err(),
        PipelineError::UnexpectedOutputRank { rank: 5 }
    );
}

#[test]
fn element_count_must_match_shape() {
    let data = vec![0u8; 5];
    assert_eq!(
        first_plane(&vec![1, 2, 2], &data).unwrap_err(),
        PipelineError::ShapeMismatch { elements: 5 }
    );
    assert_eq!(
        first_plane(&vec![0, 1, 2, 2], &Vec::<u8>::new()).unwrap_err(),
        PipelineError::ShapeMismatch { elements: 0 }
    );
    let pd = PaddingDescriptor { pad_x: 0, pad_y: 0, content_width: 2, content_height: 2 };
    assert_eq!(
        decode_matte(&vec![0u8; 3], 2, 2, pd, 4, 4).unwrap_err(),
        PipelineError::ShapeMismatch { elements: 3 }
    );
}

#[test]
fn window_outside_plane_is_rejected() {
    let pd = compute_padding(640, 480, 512, 512).unwrap();
    let plane = vec![255u8; 320 * 320];
    assert_eq!(
        decode_matte(&plane, 320, 320, pd, 640, 480).unwrap_err(),
        PipelineError::PaddingResolutionMismatch { plane_width: 320, plane_height: 320 }
    );
}

#[test]
fn all_white_output_restores_size_and_white() {
    for (w, h, family) in [
        (640u32, 480u32, ModelFamily::Modnet),
        (480, 640, ModelFamily::Modnet),
        (37, 300, ModelFamily::U2net),
        (320, 320, ModelFamily::U2net),
    ] {
        let img = uniform_rgb(w, h, [90, 10, 200]);
        let prepared = prepare_input(&img, family).unwrap();
        let t = target_side(family) as usize;
        let plane = vec![255u8; t * t];
        let matte = decode_matte(&plane, t, t, prepared.padding, w, h).unwrap();
        assert_eq!((matte.width, matte.height), (w, h));
        assert_eq!(matte.data.len(), (w * h) as usize);
        assert!(matte.data.iter().all(|&b| b == 255));
    }
}

#[test]
fn crop_keeps_the_content_window() {
    // 4 x 3 plane numbered row by row; the window (1, 1, 2 x 2) kept at its size.
    let plane: Vec<u8> = (0..12).collect();
    let pd = PaddingDescriptor { pad_x: 1, pad_y: 1, content_width: 2, content_height: 2 };
    let matte = decode_matte(&plane, 3, 4, pd, 2, 2).unwrap();
    assert_eq!(matte.data, vec![5, 6, 9, 10]);
}

#[test]
fn content_is_pasted_at_the_offset() {
    // 2 x 1 red image onto 4 x 4: content 4 x 2 one row down.
    let img = uniform_rgb(2, 1, [200, 0, 0]);
    let (padded, pd) = resize_with_padding(&img, 4, 4).unwrap();
    assert_eq!(
        pd,
        PaddingDescriptor { pad_x: 0, pad_y: 1, content_width: 4, content_height: 2 }
    );
    for y in 0..4usize {
        for x in 0..4usize {
            let i = 3 * (y * 4 + x);
            let px = &padded.data[i..i + 3];
            if y == 1 || y == 2 {
                assert_eq!(px, &[200, 0, 0]);
            } else {
                assert_eq!(px, &[0, 0, 0]);
            }
        }
    }
}

#[test]
fn resampling_changes_size() {
    let img = RgbRaster { width: 2, height: 2, data: vec![0, 0, 0, 255, 255, 255, 255, 255, 255, 0, 0, 0] };
    let (padded, pd) = resize_with_padding(&img, 6, 6).unwrap();
    assert_eq!((pd.content_width, pd.content_height), (6, 6));
    assert_eq!(padded.data.len(), 3 * 36);
    assert_ne!(padded.data[..12].to_vec(), img.data);
}

#[test]
fn families_have_their_parameters() {
    assert_eq!(target_side(ModelFamily::Modnet), 512);
    assert_eq!(target_side(ModelFamily::U2net), 320);
    assert_eq!(input_scheme(ModelFamily::Modnet), NormalizationScheme::SymmetricUnit);
    assert_eq!(input_scheme(ModelFamily::U2net), NormalizationScheme::ImageNetStats);
    let img = uniform_rgb(3, 3, [0, 0, 0]);
    let p = prepare_input(&img, ModelFamily::U2net).unwrap();
    assert_eq!(p.tensor.len(), 3 * 320 * 320);
    assert_eq!(p.tensor[0], Fraction { numerator: -255 * 485, denominator: 255 * 229 });
}
