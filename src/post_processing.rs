//! What happens to a crop once it is cut: dropped when too small, resized, or kept.
use crate::raster::{Image, can_resize, image_height, image_width, same_image};
use vstd::prelude::*;

verus! {

/// What to do with each crop: with `filter_by_size`, drop crops narrower than
/// `width` or lower than `height`; with `resize`, resample the rest to exactly
/// `width` by `height`.
#[derive(Clone, Copy, Debug, PartialEq, Eq, Structural)]
pub struct PostProcessParams {
    pub resize: bool,
    pub filter_by_size: bool,
    pub height: u32,
    pub width: u32,
}

/// Whether `img` is dropped by the size filter.
pub open spec fn too_small(img: Image, params: PostProcessParams) -> bool {
    params.filter_by_size && (image_width(img) < params.width || image_height(img) < params.height)
}

/// `out` is what post-processing makes of `img`: nothing when it is too small,
/// else `img` resampled to exactly the target size, or a copy of `img`.
pub open spec fn post_processed(out: Option<Image>, img: Image, params: PostProcessParams) -> bool {
    if too_small(img, params) {
        out is None
    } else if params.resize {
        &&& out is Some
        &&& image_width(out->0) == params.width
        &&& image_height(out->0) == params.height
    } else {
        out is Some && same_image(out->0, img)
    }
}

/// Filters `input_image` by size, then resizes it or copies it, as
/// `post_process_params` says. The filter looks at the size before resizing.
pub fn post_process_image(input_image: &Image, post_process_params: &PostProcessParams) -> (r: Option<Image>)
    requires
        post_process_params.resize && !too_small(*input_image, *post_process_params) ==> can_resize(
            *input_image,
            post_process_params.width as nat,
            post_process_params.height as nat,
        ),
    ensures
        post_processed(r, *input_image, *post_process_params),
        r is None <==> too_small(*input_image, *post_process_params),
{
    let (width, height) = input_image.dimensions();
    if post_process_params.filter_by_size {
        if width < post_process_params.width || height < post_process_params.height {
            return None;
        }
    }
    let output = if post_process_params.resize {
        input_image.resize_lanczos3(post_process_params.width, post_process_params.height)
    } else {
        input_image.copy()
    };
    Some(output)
}

} // verus!
