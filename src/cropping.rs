//! Cutting every detected face out of an image.
use crate::geometry::{calculate_face_crop, face_crop, CropParams, Rect};
use crate::raster::{image_height, image_width, is_sub_image, Image};
use vstd::prelude::*;

verus! {

/// A face found by a detector: its box in the image, and the detector's
/// confidence in millionths.
#[derive(Clone, Copy, Debug, PartialEq, Eq, Structural)]
pub struct Face {
    pub rect: Rect,
    pub confidence: u32,
}

/// An image and the faces found in it.
pub struct CropInputs<'a> {
    pub input_image: &'a Image,
    pub faces: &'a Vec<Face>,
}

/// The crop of one face, with the detector's confidence for that face.
pub struct CropOutputs {
    pub image: Image,
    pub confidence: u32,
}

/// The crop rectangle of `face` in `img`.
pub open spec fn face_rect_in(img: Image, face: Face, params: CropParams) -> Rect {
    face_crop(face.rect, image_width(img) as int, image_height(img) as int, params)
}

/// `out` is the crop of `face` in `img`.
pub open spec fn is_face_crop(out: CropOutputs, img: Image, face: Face, params: CropParams) -> bool {
    let c = face_rect_in(img, face, params);
    &&& out.confidence == face.confidence
    &&& is_sub_image(out.image, img, c.x as int, c.y as int, c.width as int, c.height as int)
}

/// `outs` holds the crop of each of `faces` in `img`, in the same order.
pub open spec fn are_face_crops(outs: Seq<CropOutputs>, img: Image, faces: Seq<Face>, params: CropParams) -> bool {
    &&& outs.len() == faces.len()
    &&& forall|i: int| 0 <= i < faces.len() ==> #[trigger] is_face_crop(outs[i], img, faces[i], params)
}

/// Cuts each face out of the image, in the order of the faces; `None` when
/// there is no face.
pub fn crop_faces(faces_to_crop: CropInputs, crop_params: &CropParams) -> (r: Option<Vec<CropOutputs>>)
    requires
        crop_params.wf(),
    ensures
        r is None <==> faces_to_crop.faces@.len() == 0,
        r is Some ==> are_face_crops(r->0@, *faces_to_crop.input_image, faces_to_crop.faces@, *crop_params),
{
    let img = faces_to_crop.input_image;
    let faces = faces_to_crop.faces;
    if faces.len() == 0 {
        return None;
    }
    let (image_w, image_h) = img.dimensions();
    let mut outputs: Vec<CropOutputs> = Vec::new();
    let mut i: usize = 0;
    while i < faces.len()
        invariant
            crop_params.wf(),
            i <= faces@.len(),
            image_w == image_width(*img),
            image_h == image_height(*img),
            outputs@.len() == i,
            forall|j: int| 0 <= j < i ==> #[trigger] is_face_crop(outputs@[j], *img, faces@[j], *crop_params),
        decreases faces@.len() - i,
    {
        let face = &faces[i];
        let crop = calculate_face_crop(&face.rect, image_w, image_h, crop_params);
        let image = img.crop(crop.x as u32, crop.y as u32, crop.width, crop.height);
        outputs.push(CropOutputs { image, confidence: face.confidence });
        i += 1;
    }
    Some(outputs)
}

} // verus!
