use vstd::prelude::*;

verus! {

/// Why a set of georeferencing tags was rejected as malformed.
#[derive(Clone, Copy, Debug, PartialEq, Eq, Structural)]
pub enum TagError {
    /// `ModelPixelScaleTag` does not hold exactly 3 values.
    PixelScaleLength,
    /// `ModelTiePointTag` is present but empty.
    TiePointsEmpty,
    /// `ModelTiePointTag` holds a number of values that is not a multiple of 6.
    TiePointsNotDivisible,
    /// `ModelTransformationTag` does not hold exactly 16 values.
    TransformationLength,
    /// `ModelPixelScaleTag` and `ModelTransformationTag` are both present.
    PixelScaleWithTransformation,
    /// `ModelTiePointTag` and `ModelTransformationTag` are both present.
    TiePointsWithTransformation,
    /// Neither `ModelTiePointTag` nor `ModelTransformationTag` is present.
    TiePointsMissing,
    /// `ModelTiePointTag` holds a single tie point and `ModelPixelScaleTag` is absent.
    PixelScaleMissing,
}

/// The human-readable text of each rejection.
pub open spec fn tag_error_text(e: TagError) -> Seq<char> {
    match e {
        TagError::PixelScaleLength => "Number of values in ModelPixelScaleTag must be equal to 3"@,
        TagError::TiePointsEmpty => "Number of values in ModelTiePointTag must be greater than 0"@,
        TagError::TiePointsNotDivisible => "Number of values in ModelTiePointTag must be divisible by 6"@,
        TagError::TransformationLength => "Number of values in ModelTransformationTag must be equal to 16"@,
        TagError::PixelScaleWithTransformation => "ModelPixelScaleTag must not be specified when ModelTransformationTag is present"@,
        TagError::TiePointsWithTransformation => "ModelTiePointTag must not be specified when ModelTransformationTag is present"@,
        TagError::TiePointsMissing => "ModelTiePointTag must be present when ModelTransformationTag is missing"@,
        TagError::PixelScaleMissing => "ModelPixelScaleTag must be specified when ModelTiePointTag contains 6 values"@,
    }
}

impl TagError {
    /// Names the offending tag and the constraint it breaks.
    pub fn message(&self) -> (r: String)
        ensures
            r@ == tag_error_text(*self),
    {
        let text: &str = match self {
            TagError::PixelScaleLength => "Number of values in ModelPixelScaleTag must be equal to 3",
            TagError::TiePointsEmpty => "Number of values in ModelTiePointTag must be greater than 0",
            TagError::TiePointsNotDivisible => "Number of values in ModelTiePointTag must be divisible by 6",
            TagError::TransformationLength => "Number of values in ModelTransformationTag must be equal to 16",
            TagError::PixelScaleWithTransformation => "ModelPixelScaleTag must not be specified when ModelTransformationTag is present",
            TagError::TiePointsWithTransformation => "ModelTiePointTag must not be specified when ModelTransformationTag is present",
            TagError::TiePointsMissing => "ModelTiePointTag must be present when ModelTransformationTag is missing",
            TagError::PixelScaleMissing => "ModelPixelScaleTag must be specified when ModelTiePointTag contains 6 values",
        };
        proof {
            broadcast use vstd::string::to_string_from_display_ensures_for_str;
        }
        text.to_string()
    }
}

} // verus!
