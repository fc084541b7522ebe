//! Checking the crop settings before any image is touched.
use crate::geometry::{AbsoluteCrop, CropParams, CropParamsKind, RelativeCrop, SCALE};
use vstd::prelude::*;

verus! {

/// How a crop's size is chosen.
#[derive(Clone, Copy, Debug, PartialEq, Eq, Structural)]
pub enum CropStrategy {
    /// A fixed height and width in pixels.
    Absolute,
    /// A size derived from the face's height.
    Relative,
}

/// A crop setting out of its range.
#[derive(Clone, Copy, Debug, PartialEq, Eq, Structural)]
pub enum ConfigError {
    /// The top padding is not within [0, 1].
    TopPaddingOutOfRange,
    /// An absolute crop's height or width is 0.
    AbsoluteSizeNotPositive,
    /// The aspect ratio is not above 0.
    AspectRatioOutOfRange,
    /// The proportion of face is not within (0, 1]: a crop cannot be sized
    /// from a face that takes up none of it.
    ProportionOutOfRange,
}

impl ConfigError {
    /// A sentence that says what is wrong.
    pub fn message(&self) -> (r: &'static str) {
        match self {
            ConfigError::TopPaddingOutOfRange => "Top padding must be between 0.0 and 1.0",
            ConfigError::AbsoluteSizeNotPositive => "Height and width must be greater than 0",
            ConfigError::AspectRatioOutOfRange => "Aspect ratio must be greater than 0",
            ConfigError::ProportionOutOfRange => "Proportion of face must be above 0.0 and at most 1.0",
        }
    }
}

/// The crop parameters that the settings give, or the first setting out of
/// range: top padding, then for an absolute crop its height and width, for a
/// relative crop its aspect ratio, then its proportion of face. Fractions are in millionths.
pub open spec fn crop_params_from(
    strategy: CropStrategy,
    top_padding: i64,
    aspect_ratio: i64,
    proportion_of_face: i64,
    height: u32,
    width: u32,
) -> Result<CropParams, ConfigError> {
    if top_padding < 0 || top_padding > SCALE {
        Err(ConfigError::TopPaddingOutOfRange)
    } else {
        match strategy {
            CropStrategy::Absolute => if height == 0 || width == 0 {
                Err(ConfigError::AbsoluteSizeNotPositive)
            } else {
                Ok(
                    CropParams {
                        top_padding: top_padding as u32,
                        kind: CropParamsKind::Absolute(AbsoluteCrop { height, width }),
                    },
                )
            },
            CropStrategy::Relative => if aspect_ratio <= 0 {
                Err(ConfigError::AspectRatioOutOfRange)
            } else if proportion_of_face <= 0 || proportion_of_face > SCALE {
                Err(ConfigError::ProportionOutOfRange)
            } else {
                Ok(
                    CropParams {
                        top_padding: top_padding as u32,
                        kind: CropParamsKind::Relative(
                            RelativeCrop {
                                aspect_ratio: aspect_ratio as u64,
                                proportion_of_face: proportion_of_face as u32,
                            },
                        ),
                    },
                )
            },
        }
    }
}

/// Checks the crop settings (fractions in millionths) and builds the crop
/// parameters from them.
pub fn get_crop_params(
    strategy: CropStrategy,
    top_padding: i64,
    aspect_ratio: i64,
    proportion_of_face: i64,
    height: u32,
    width: u32,
) -> (r: Result<CropParams, ConfigError>)
    ensures
        r == crop_params_from(strategy, top_padding, aspect_ratio, proportion_of_face, height, width),
        r is Ok ==> r->Ok_0.wf(),
{
    if top_padding < 0 || top_padding > SCALE as i64 {
        return Err(ConfigError::TopPaddingOutOfRange);
    }
    let kind = match strategy {
        CropStrategy::Absolute => {
            if height == 0 || width == 0 {
                return Err(ConfigError::AbsoluteSizeNotPositive);
            }
            CropParamsKind::Absolute(AbsoluteCrop { height, width })
        },
        CropStrategy::Relative => {
            if aspect_ratio <= 0 {
                return Err(ConfigError::AspectRatioOutOfRange);
            }
            if proportion_of_face <= 0 || proportion_of_face > SCALE as i64 {
                return Err(ConfigError::ProportionOutOfRange);
            }
            CropParamsKind::Relative(
                RelativeCrop {
                    aspect_ratio: aspect_ratio as u64,
                    proportion_of_face: proportion_of_face as u32,
                },
            )
        },
    };
    Ok(CropParams { top_padding: top_padding as u32, kind })
}

} // verus!
