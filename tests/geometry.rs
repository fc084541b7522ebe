use facecrop::config::{get_crop_params, ConfigError, CropStrategy};
use facecrop::geometry::{
    calculate_crop_dimensions_by_ratios, calculate_crop_frame, calculate_crop_position,
    calculate_face_crop, clamp_to_image_bounds, AbsoluteCrop, CropParams, CropParamsKind, Rect,
    RelativeCrop, ScaledRect, SCALE,
};

fn relative(top_padding: u32, aspect_ratio: u64, proportion_of_face: u32) -> CropParams {
    CropParams {
        top_padding,
        kind: CropParamsKind::Relative(RelativeCrop { aspect_ratio, proportion_of_face }),
    }
}

fn absolute(top_padding: u32, height: u32, width: u32) -> CropParams {
    CropParams { top_padding, kind: CropParamsKind::Absolute(AbsoluteCrop { height, width }) }
}

fn rect(x: i64, y: i64, width: u32, height: u32) -> Rect {
    Rect { x, y, width, height }
}

#[test]
fn relative_crop_inside_image_is_unclamped() {
    let face = rect(400, 300, 200, 200);
    let params = relative(100_000, 1_000_000, 500_000);
    let crop = calculate_face_crop(&face, 1000, 1000, &params);
    assert_eq!(crop, rect(300, 260, 400, 400));
}

#[test]
fn relative_crop_near_right_edge_is_cut() {
    let face = rect(950, 50, 200, 200);
    let params = relative(100_000, 1_000_000, 500_000);
    let crop = calculate_face_crop(&face, 1000, 1000, &params);
    assert_eq!(crop, rect(850, 10, 150, 400));
}

#[test]
fn absolute_crop_ignores_face_size() {
    let params = absolute(0, 300, 200);
    let small = calculate_face_crop(&rect(100, 100, 50, 50), 1000, 1000, &params);
    let large = calculate_face_crop(&rect(75, 100, 100, 400), 1000, 1000, &params);
    assert_eq!(small, rect(25, 100, 200, 300));
    assert_eq!(large, rect(25, 100, 200, 300));
}

#[test]
fn absolute_frame_has_named_size() {
    let frame = calculate_crop_frame(&rect(10, 20, 7, 9), &absolute(250_000, 40, 60));
    assert!(frame.den > 0);
    assert_eq!(frame.width, 60 * frame.den);
    assert_eq!(frame.height, 40 * frame.den);
}

#[test]
fn relative_frame_size_follows_face_height() {
    // proportion 0.25, aspect 1.5: height 4 * 30 = 120, width 180
    let frame = calculate_crop_frame(&rect(0, 0, 20, 30), &relative(0, 1_500_000, 250_000));
    assert_eq!(frame.height, 120 * frame.den);
    assert_eq!(frame.width, 180 * frame.den);
}

#[test]
fn frame_is_centred_on_face() {
    let face = rect(-13, 40, 31, 17);
    for params in [relative(300_000, 1_333_333, 700_000), absolute(0, 11, 27)] {
        let frame = calculate_crop_frame(&face, &params);
        assert_eq!(2 * frame.x + frame.width, (2 * face.x as i128 + face.width as i128) * frame.den);
    }
}

#[test]
fn frame_top_padding() {
    let face = rect(5, 80, 40, 40);
    let none = calculate_crop_frame(&face, &relative(0, 1_000_000, 400_000));
    assert_eq!(none.y, 80 * none.den);
    let tenth = calculate_crop_frame(&face, &relative(100_000, 1_000_000, 400_000));
    // height 100, so the top edge is 10 above the face
    assert_eq!(tenth.y, 70 * tenth.den);
}

#[test]
fn crop_past_top_left_is_cut_to_origin() {
    let face = rect(0, 0, 100, 100);
    let crop = calculate_face_crop(&face, 500, 500, &relative(500_000, 1_000_000, 500_000));
    assert_eq!(crop, rect(0, 0, 150, 100));
}

#[test]
fn crop_outside_image_is_empty_and_inside() {
    let face = rect(2000, 2000, 10, 10);
    let crop = calculate_face_crop(&face, 100, 100, &absolute(0, 20, 20));
    assert_eq!(crop, rect(100, 100, 0, 0));
}

#[test]
fn fractional_crop_is_truncated() {
    // left edge at 10.5 is truncated to 10
    let crop = calculate_face_crop(&rect(10, 10, 3, 4), 100, 100, &absolute(0, 2, 2));
    assert_eq!(crop, rect(10, 10, 2, 2));
}

#[test]
fn crops_stay_inside_image() {
    let faces = [rect(-500, -500, 20, 20), rect(90, 90, 50, 50), rect(0, 0, 1, 1), rect(45, 3, 10, 90)];
    let params = [relative(1_000_000, 3_000_000, 100_000), absolute(500_000, 500, 1), relative(0, 1, SCALE)];
    for face in faces.iter() {
        for p in params.iter() {
            let c = calculate_face_crop(face, 100, 60, p);
            assert!(c.x >= 0 && c.y >= 0);
            assert!(c.x + c.width as i64 <= 100);
            assert!(c.y + c.height as i64 <= 60);
        }
    }
}

#[test]
fn dimensions_by_ratios_exact() {
    let (h, w, den) = calculate_crop_dimensions_by_ratios(&rect(0, 0, 9, 200), 1_500_000, 500_000);
    // height 400, width 600
    assert_eq!(den, 2 * SCALE as i128 * 500_000);
    assert_eq!(h, 400 * den);
    assert_eq!(w, 600 * den);
}

#[test]
fn position_exact() {
    let den: i128 = 2_000_000;
    let (x, y) = calculate_crop_position(&rect(400, 300, 200, 200), 400 * den, 400 * den, 100_000, den);
    assert_eq!(x, 300 * den);
    assert_eq!(y, 260 * den);
}

#[test]
fn clamp_cuts_both_sides() {
    let frame = ScaledRect { x: -20, y: 30, width: 400, height: 10, den: 2 };
    assert_eq!(clamp_to_image_bounds(&frame, 50, 50), rect(0, 15, 50, 5));
}

#[test]
fn config_accepts_valid_settings() {
    let p = get_crop_params(CropStrategy::Relative, 100_000, 1_000_000, 300_000, 1024, 1024).unwrap();
    assert_eq!(p, relative(100_000, 1_000_000, 300_000));
    let a = get_crop_params(CropStrategy::Absolute, 0, -1, 0, 64, 32).unwrap();
    assert_eq!(a, absolute(0, 64, 32));
}

#[test]
fn config_rejects_top_padding() {
    assert_eq!(
        get_crop_params(CropStrategy::Absolute, -1, 1, 1, 1, 1),
        Err(ConfigError::TopPaddingOutOfRange)
    );
    assert_eq!(
        get_crop_params(CropStrategy::Relative, 1_000_001, 1, 1, 1, 1),
        Err(ConfigError::TopPaddingOutOfRange)
    );
}

#[test]
fn config_rejects_aspect_ratio() {
    assert_eq!(
        get_crop_params(CropStrategy::Relative, 0, 0, 500_000, 1, 1),
        Err(ConfigError::AspectRatioOutOfRange)
    );
}

#[test]
fn config_rejects_proportion() {
    assert_eq!(
        get_crop_params(CropStrategy::Relative, 0, 1_000_000, 0, 1, 1),
        Err(ConfigError::ProportionOutOfRange)
    );
    assert_eq!(
        get_crop_params(CropStrategy::Relative, 0, 1_000_000, 1_000_001, 1, 1),
        Err(ConfigError::ProportionOutOfRange)
    );
    assert!(!ConfigError::ProportionOutOfRange.message().is_empty());
    assert!(!ConfigError::AbsoluteSizeNotPositive.message().is_empty());
}

#[test]
fn config_rejects_zero_absolute_size() {
    assert_eq!(
        get_crop_params(CropStrategy::Absolute, 0, 1_000_000, 300_000, 0, 10),
        Err(ConfigError::AbsoluteSizeNotPositive)
    );
    assert_eq!(
        get_crop_params(CropStrategy::Absolute, 0, 1_000_000, 300_000, 10, 0),
        Err(ConfigError::AbsoluteSizeNotPositive)
    );
    // a relative crop does not use the absolute size
    assert!(get_crop_params(CropStrategy::Relative, 0, 1_000_000, 300_000, 0, 0).is_ok());
}

#[test]
fn position_with_half_pixel_centre() {
    // a face 3 wide centred on 11.5, a crop 2 wide: left edge at 10.5
    let den: i128 = 2_000_000;
    let (x, y) = calculate_crop_position(&rect(10, 10, 3, 4), 2 * den, 2 * den, 250_000, den);
    assert_eq!(2 * x + 2 * den, (2 * 10 + 3) * den);
    assert_eq!(x, 21 * den / 2);
    // top padding a quarter of 2: top edge at 9.5
    assert_eq!(y, 19 * den / 2);
}

#[test]
fn config_accepts_large_aspect_ratio() {
    // 5000:1, above what 32 bits of millionths could hold
    let p = get_crop_params(CropStrategy::Relative, 0, 5_000_000_000, 1_000_000, 1, 1).unwrap();
    assert_eq!(p, relative(0, 5_000_000_000, 1_000_000));
    let crop = calculate_face_crop(&rect(0, 0, 2, 1), 20_000, 10, &p);
    // height 1, width 5000 centred on x = 1: left edge at -2499, cut at 0
    assert_eq!(crop, rect(0, 0, 2501, 1));
}
