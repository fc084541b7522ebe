use facecrop::cropping::{crop_faces, CropInputs, Face};
use facecrop::geometry::{AbsoluteCrop, CropParams, CropParamsKind, Rect, RelativeCrop};
use facecrop::pipeline::process_faces;
use facecrop::post_processing::{post_process_image, PostProcessParams};
use facecrop::raster::Image;

/// An image whose pixel (x, y) is (x, y, x + y).
fn gradient(width: u32, height: u32) -> Image {
    let mut bytes = Vec::new();
    for y in 0..height {
        for x in 0..width {
            bytes.push(x as u8);
            bytes.push(y as u8);
            bytes.push((x + y) as u8);
        }
    }
    Image::from_raw(width, height, bytes).unwrap()
}

fn pixel(bytes: &[u8], width: u32, x: u32, y: u32) -> (u8, u8, u8) {
    let i = 3 * (y * width + x) as usize;
    (bytes[i], bytes[i + 1], bytes[i + 2])
}

fn post(resize: bool, filter_by_size: bool, height: u32, width: u32) -> PostProcessParams {
    PostProcessParams { resize, filter_by_size, height, width }
}

#[test]
fn from_raw_rejects_short_buffer() {
    assert!(Image::from_raw(2, 2, vec![0u8; 11]).is_none());
    assert!(Image::from_raw(2, 2, vec![0u8; 12]).is_some());
}

#[test]
fn raw_round_trip() {
    let bytes: Vec<u8> = (0..18).collect();
    let img = Image::from_raw(3, 2, bytes.clone()).unwrap();
    assert_eq!(img.dimensions(), (3, 2));
    assert_eq!(img.into_raw(), bytes);
}

#[test]
fn crop_copies_block() {
    let img = gradient(10, 8);
    let sub = img.crop(2, 3, 4, 5);
    assert_eq!(sub.dimensions(), (4, 5));
    let raw = sub.into_raw();
    assert_eq!(pixel(&raw, 4, 0, 0), (2, 3, 5));
    assert_eq!(pixel(&raw, 4, 3, 4), (5, 7, 12));
}

#[test]
fn too_small_crop_is_dropped() {
    let img = gradient(30, 40);
    assert!(post_process_image(&img, &post(false, true, 40, 31)).is_none());
    assert!(post_process_image(&img, &post(true, true, 41, 30)).is_none());
}

#[test]
fn large_enough_crop_is_kept_unchanged() {
    let img = gradient(30, 40);
    let out = post_process_image(&img, &post(false, true, 40, 30)).unwrap();
    assert_eq!(out.dimensions(), (30, 40));
    assert_eq!(out.into_raw(), gradient(30, 40).into_raw());
}

#[test]
fn small_crop_kept_without_filter() {
    let img = gradient(3, 4);
    let out = post_process_image(&img, &post(false, false, 100, 100)).unwrap();
    assert_eq!(out.dimensions(), (3, 4));
}

#[test]
fn resize_gives_exact_size() {
    let img = gradient(30, 40);
    let up = post_process_image(&img, &post(true, false, 64, 48)).unwrap();
    assert_eq!(up.dimensions(), (48, 64));
    let down = post_process_image(&img, &post(true, false, 7, 5)).unwrap();
    assert_eq!(down.dimensions(), (5, 7));
}

#[test]
fn filter_looks_at_size_before_resize() {
    let img = gradient(10, 10);
    assert!(post_process_image(&img, &post(true, true, 20, 20)).is_none());
}

#[test]
fn no_faces_gives_no_outputs() {
    let img = gradient(10, 10);
    let faces: Vec<Face> = Vec::new();
    let params = CropParams {
        top_padding: 0,
        kind: CropParamsKind::Absolute(AbsoluteCrop { height: 2, width: 2 }),
    };
    assert!(crop_faces(CropInputs { input_image: &img, faces: &faces }, &params).is_none());
    let processed = process_faces(
        CropInputs { input_image: &img, faces: &faces },
        &params,
        &post(false, false, 1, 1),
    );
    assert!(processed.is_none());
}

#[test]
fn crop_faces_cuts_each_face() {
    let img = gradient(100, 100);
    let faces = vec![
        Face { rect: Rect { x: 40, y: 30, width: 20, height: 20 }, confidence: 900_000 },
        Face { rect: Rect { x: 95, y: 5, width: 20, height: 20 }, confidence: 500_000 },
    ];
    let params = CropParams {
        top_padding: 100_000,
        kind: CropParamsKind::Relative(RelativeCrop { aspect_ratio: 1_000_000, proportion_of_face: 500_000 }),
    };
    let outs = crop_faces(CropInputs { input_image: &img, faces: &faces }, &params).unwrap();
    assert_eq!(outs.len(), 2);
    // first: 40x40 at (30, 26)
    assert_eq!(outs[0].confidence, 900_000);
    assert_eq!(outs[0].image.dimensions(), (40, 40));
    // second: x from 85 cut at 100, y from 1
    assert_eq!(outs[1].confidence, 500_000);
    assert_eq!(outs[1].image.dimensions(), (15, 40));
    let mut outs = outs;
    let second = outs.pop().unwrap();
    let first = outs.pop().unwrap();
    assert_eq!(pixel(&first.image.into_raw(), 40, 0, 0), (30, 26, 56));
    assert_eq!(pixel(&second.image.into_raw(), 15, 14, 39), (99, 40, 139));
}

#[test]
fn process_faces_drops_empty_and_small_crops() {
    let img = gradient(100, 100);
    let faces = vec![
        Face { rect: Rect { x: 40, y: 30, width: 20, height: 20 }, confidence: 1 },
        Face { rect: Rect { x: 500, y: 500, width: 20, height: 20 }, confidence: 2 },
        Face { rect: Rect { x: 95, y: 5, width: 20, height: 20 }, confidence: 3 },
    ];
    let params = CropParams {
        top_padding: 100_000,
        kind: CropParamsKind::Relative(RelativeCrop { aspect_ratio: 1_000_000, proportion_of_face: 500_000 }),
    };
    let outs = process_faces(
        CropInputs { input_image: &img, faces: &faces },
        &params,
        &post(true, true, 32, 32),
    )
    .unwrap();
    assert_eq!(outs.len(), 3);
    let first = outs[0].as_ref().unwrap();
    assert_eq!(first.confidence, 1);
    assert_eq!(first.image.dimensions(), (32, 32));
    assert!(outs[1].is_none());
    assert!(outs[2].is_none());
}

#[test]
fn process_faces_keeps_crop_unchanged() {
    let img = gradient(100, 100);
    let faces = vec![Face { rect: Rect { x: 95, y: 5, width: 20, height: 20 }, confidence: 3 }];
    let params = CropParams {
        top_padding: 100_000,
        kind: CropParamsKind::Relative(RelativeCrop { aspect_ratio: 1_000_000, proportion_of_face: 500_000 }),
    };
    let outs = process_faces(
        CropInputs { input_image: &img, faces: &faces },
        &params,
        &post(false, false, 32, 32),
    )
    .unwrap();
    let only = outs.into_iter().next().unwrap().unwrap();
    assert_eq!(only.confidence, 3);
    assert_eq!(only.image.dimensions(), (15, 40));
}

#[test]
fn empty_crop_is_resized_to_target() {
    let img = Image::from_raw(0, 5, Vec::new()).unwrap();
    let out = post_process_image(&img, &post(true, false, 6, 4)).unwrap();
    assert_eq!(out.dimensions(), (4, 6));
}
