//! One image from detected faces to the crops worth saving.
use crate::cropping::{crop_faces, face_rect_in, CropInputs, CropOutputs, Face};
use crate::geometry::CropParams;
use crate::post_processing::{post_process_image, PostProcessParams};
use crate::raster::{image_height, image_width, is_sub_image, Image};
use vstd::prelude::*;

verus! {

/// Whether a crop of the given size is left out: it is empty, or the size
/// filter drops it.
pub open spec fn crop_left_out(width: int, height: int, params: PostProcessParams) -> bool {
    ||| width == 0
    ||| height == 0
    ||| params.filter_by_size && (width < params.width || height < params.height)
}

/// `out` is what becomes of `face` in `img`: nothing when its crop is left
/// out, else the crop, resampled to the target size when `resize` is set,
/// with the face's confidence.
pub open spec fn face_output(
    out: Option<CropOutputs>,
    img: Image,
    face: Face,
    crop_params: CropParams,
    params: PostProcessParams,
) -> bool {
    let c = face_rect_in(img, face, crop_params);
    if crop_left_out(c.width as int, c.height as int, params) {
        out is None
    } else {
        &&& out is Some
        &&& out->0.confidence == face.confidence
        &&& if params.resize {
            &&& image_width(out->0.image) == params.width
            &&& image_height(out->0.image) == params.height
        } else {
            is_sub_image(out->0.image, img, c.x as int, c.y as int, c.width as int, c.height as int)
        }
    }
}

/// Crops every face of the image and post-processes each crop. `None` when
/// there is no face; else one entry per face, in order, which is `None` where
/// the crop is empty or too small.
pub fn process_faces(
    faces_to_crop: CropInputs,
    crop_params: &CropParams,
    post_process_params: &PostProcessParams,
) -> (r: Option<Vec<Option<CropOutputs>>>)
    requires
        crop_params.wf(),
        post_process_params.resize ==> post_process_params.width * post_process_params.height * 3
            <= usize::MAX,
        post_process_params.resize ==> image_width(*faces_to_crop.input_image) * post_process_params.height
            * 4 <= usize::MAX,
    ensures
        r is None <==> faces_to_crop.faces@.len() == 0,
        r is Some ==> r->0@.len() == faces_to_crop.faces@.len(),
        r is Some ==> forall|i: int|
            0 <= i < faces_to_crop.faces@.len() ==> #[trigger] face_output(
                r->0@[i],
                *faces_to_crop.input_image,
                faces_to_crop.faces@[i],
                *crop_params,
                *post_process_params,
            ),
{
    let img = faces_to_crop.input_image;
    let faces = faces_to_crop.faces;
    let crops = match crop_faces(CropInputs { input_image: img, faces }, crop_params) {
        Some(crops) => crops,
        None => return None,
    };
    let (image_w, image_h) = img.dimensions();
    let ghost iw = image_width(*img);
    let mut results: Vec<Option<CropOutputs>> = Vec::new();
    let mut i: usize = 0;
    while i < crops.len()
        invariant
            crop_params.wf(),
            image_w == image_width(*img),
            image_h == image_height(*img),
            crops@.len() == faces@.len(),
            forall|j: int| 0 <= j < faces@.len() ==>
                #[trigger] crate::cropping::is_face_crop(crops@[j], *img, faces@[j], *crop_params),
            post_process_params.resize ==> post_process_params.width * post_process_params.height * 3
                <= usize::MAX,
            post_process_params.resize ==> iw * post_process_params.height * 4 <= usize::MAX,
            iw == image_width(*img),
            i <= crops@.len(),
            results@.len() == i,
            forall|j: int| 0 <= j < i ==> #[trigger] face_output(
                results@[j],
                *img,
                faces@[j],
                *crop_params,
                *post_process_params,
            ),
        decreases crops@.len() - i,
    {
        let crop = &crops[i];
        proof {
            assert(crate::cropping::is_face_crop(crops@[i as int], *img, faces@[i as int], *crop_params));
        }
        let (width, height) = crop.image.dimensions();
        let result = if width == 0 || height == 0 {
            None
        } else {
            proof {
                let face = faces@[i as int];
                crate::geometry::lemma_crop_inside_image(
                    face.rect,
                    image_w,
                    image_h,
                    *crop_params,
                );
                let ph = post_process_params.height as int;
                assert(width * ph * 4 <= iw * ph * 4) by (nonlinear_arith)
                    requires width <= iw, ph >= 0;
            }
            match post_process_image(&crop.image, post_process_params) {
                Some(image) => Some(CropOutputs { image, confidence: crop.confidence }),
                None => None,
            }
        };
        results.push(result);
        i += 1;
    }
    Some(results)
}

} // verus!
