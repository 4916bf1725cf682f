use vstd::prelude::*;

use crate::error::TagError;

verus! {

/// The georeferencing of one raster image, in one of three shapes.
///
/// Each tie point is a group `[I, J, K, X, Y, Z]`: raster column, row and
/// elevation index, and the model X, Y and Z that they correspond to.
#[derive(Debug)]
pub enum CoordinateTransform<T> {
    /// One tie point anchoring the grid, and the model units per pixel
    /// `[ScaleX, ScaleY, ScaleZ]`.
    TiePointAndPixelScale([T; 6], [T; 3]),
    /// Several tie points, laid out one group of 6 after another.
    TiePoints(Vec<T>),
    /// A row-major 4x4 matrix from homogeneous raster coordinates
    /// `[I, J, K, 1]` to homogeneous model coordinates `[X, Y, Z, 1]`.
    AffineTransform([T; 16]),
}

/// The values a `CoordinateTransform` holds, as sequences.
pub ghost enum Georeference<T> {
    TiePointAndPixelScale { tie_point: Seq<T>, pixel_scale: Seq<T> },
    TiePoints { tie_points: Seq<T> },
    AffineTransform { matrix: Seq<T> },
}

impl<T> View for CoordinateTransform<T> {
    type V = Georeference<T>;

    open spec fn view(&self) -> Georeference<T> {
        match self {
            CoordinateTransform::TiePointAndPixelScale(tie_point, pixel_scale) => {
                Georeference::TiePointAndPixelScale { tie_point: tie_point@, pixel_scale: pixel_scale@ }
            },
            CoordinateTransform::TiePoints(tie_points) => {
                Georeference::TiePoints { tie_points: tie_points@ }
            },
            CoordinateTransform::AffineTransform(matrix) => {
                Georeference::AffineTransform { matrix: matrix@ }
            },
        }
    }
}

/// The contents of an optional tag, as a sequence.
pub open spec fn tag_values<T>(tag: Option<Vec<T>>) -> Option<Seq<T>> {
    match tag {
        Some(v) => Some(v@),
        None => None,
    }
}

/// Whether a tag is absent or holds exactly `n` values.
pub open spec fn absent_or_len<T>(tag: Option<Seq<T>>, n: nat) -> bool {
    tag is None || tag->0.len() == n
}

/// The georeferencing that three optional tags describe, or the first rule
/// they break. Rules are checked in this order: the pixel scale holds 3
/// values; the tie points are a non-empty multiple of 6; the matrix holds 16
/// values; a matrix excludes the two other tags; without a matrix the tie
/// points are required, and a single tie point requires a pixel scale.
pub open spec fn resolve<T>(
    pixel_scale: Option<Seq<T>>,
    tie_points: Option<Seq<T>>,
    transformation: Option<Seq<T>>,
) -> Result<Georeference<T>, TagError> {
    if !absent_or_len(pixel_scale, 3) {
        Err(TagError::PixelScaleLength)
    } else if tie_points is Some && tie_points->0.len() == 0 {
        Err(TagError::TiePointsEmpty)
    } else if tie_points is Some && tie_points->0.len() % 6 != 0 {
        Err(TagError::TiePointsNotDivisible)
    } else if !absent_or_len(transformation, 16) {
        Err(TagError::TransformationLength)
    } else if transformation is Some {
        if pixel_scale is Some {
            Err(TagError::PixelScaleWithTransformation)
        } else if tie_points is Some {
            Err(TagError::TiePointsWithTransformation)
        } else {
            Ok(Georeference::AffineTransform { matrix: transformation->0 })
        }
    } else if tie_points is None {
        Err(TagError::TiePointsMissing)
    } else if tie_points->0.len() == 6 {
        if pixel_scale is None {
            Err(TagError::PixelScaleMissing)
        } else {
            Ok(
                Georeference::TiePointAndPixelScale {
                    tie_point: tie_points->0,
                    pixel_scale: pixel_scale->0,
                },
            )
        }
    } else {
        Ok(Georeference::TiePoints { tie_points: tie_points->0 })
    }
}

/// Tags that describe a georeferencing: each has its length, a matrix comes
/// alone, and otherwise tie points come, with a pixel scale where there is a
/// single tie point.
pub open spec fn consistent_tags<T>(
    pixel_scale: Option<Seq<T>>,
    tie_points: Option<Seq<T>>,
    transformation: Option<Seq<T>>,
) -> bool {
    &&& absent_or_len(pixel_scale, 3)
    &&& absent_or_len(transformation, 16)
    &&& (tie_points is Some ==> tie_points->0.len() > 0 && tie_points->0.len() % 6 == 0)
    &&& (transformation is Some ==> pixel_scale is None && tie_points is None)
    &&& (transformation is None ==> tie_points is Some)
    &&& (transformation is None && tie_points is Some && tie_points->0.len() == 6
        ==> pixel_scale is Some)
}

/// Tags are accepted exactly when they are consistent, and an accepted set
/// yields one shape chosen by precedence: a matrix first, then a single tie
/// point with its pixel scale, then several tie points (any pixel scale is
/// then left unused).
pub proof fn lemma_shape_precedence<T>(
    pixel_scale: Option<Seq<T>>,
    tie_points: Option<Seq<T>>,
    transformation: Option<Seq<T>>,
)
    ensures
        resolve(pixel_scale, tie_points, transformation) is Ok
            <==> consistent_tags(pixel_scale, tie_points, transformation),
        resolve(pixel_scale, tie_points, transformation) is Ok ==> {
            let g = resolve(pixel_scale, tie_points, transformation)->Ok_0;
            &&& (g is AffineTransform <==> transformation is Some)
            &&& (g is TiePointAndPixelScale <==> transformation is None
                && tie_points->0.len() == 6)
            &&& (g is TiePoints <==> transformation is None && tie_points->0.len() > 6)
            &&& (g is AffineTransform ==> g->matrix == transformation->0)
            &&& (g is TiePointAndPixelScale ==> g->tie_point == tie_points->0
                && g->pixel_scale == pixel_scale->0)
            &&& (g is TiePoints ==> g->tie_points == tie_points->0)
        },
{
}

impl<T> CoordinateTransform<T> {
    /// Tie points come as a non-empty sequence of whole groups.
    pub open spec fn wf(&self) -> bool {
        match self {
            CoordinateTransform::TiePoints(tie_points) => {
                tie_points@.len() > 0 && tie_points@.len() % 6 == 0
            },
            _ => true,
        }
    }

    /// The number of tie points held: one for a tie point with a pixel
    /// scale, none for a matrix.
    pub open spec fn spec_tie_point_count(&self) -> nat {
        match self {
            CoordinateTransform::TiePointAndPixelScale(_, _) => 1,
            CoordinateTransform::TiePoints(tie_points) => tie_points@.len() / 6,
            CoordinateTransform::AffineTransform(_) => 0,
        }
    }

    /// The `[I, J, K, X, Y, Z]` group of tie point `k`.
    pub open spec fn spec_tie_point(&self, k: int) -> Seq<T> {
        match self {
            CoordinateTransform::TiePointAndPixelScale(tie_point, _) => tie_point@,
            CoordinateTransform::TiePoints(tie_points) => tie_points@.subrange(6 * k, 6 * k + 6),
            CoordinateTransform::AffineTransform(_) => Seq::empty(),
        }
    }
}

impl<T: Copy> CoordinateTransform<T> {
    /// Validates the three georeferencing tags of an image and keeps the
    /// shape they describe.
    pub fn from_tag_data(
        pixel_scale_data: Option<Vec<T>>,
        model_tie_points_data: Option<Vec<T>>,
        model_transformation_data: Option<Vec<T>>,
    ) -> (r: Result<Self, TagError>)
        ensures
            match r {
                Ok(t) => resolve(
                    tag_values(pixel_scale_data),
                    tag_values(model_tie_points_data),
                    tag_values(model_transformation_data),
                ) == Ok::<Georeference<T>, TagError>(t@) && t.wf(),
                Err(e) => resolve(
                    tag_values(pixel_scale_data),
                    tag_values(model_tie_points_data),
                    tag_values(model_transformation_data),
                ) == Err::<Georeference<T>, TagError>(e),
            },
    {
        let pixel_scale: Option<[T; 3]> = match pixel_scale_data {
            Some(data) => {
                if data.len() != 3 {
                    return Err(TagError::PixelScaleLength);
                }
                let scale: [T; 3] = [data[0], data[1], data[2]];
                assert(scale@ =~= data@);
                Some(scale)
            },
            None => None,
        };
        let tie_points: Option<Vec<T>> = match model_tie_points_data {
            Some(data) => {
                if data.len() == 0 {
                    return Err(TagError::TiePointsEmpty);
                }
                if data.len() % 6 != 0 {
                    return Err(TagError::TiePointsNotDivisible);
                }
                Some(data)
            },
            None => None,
        };
        let transformation: Option<[T; 16]> = match model_transformation_data {
            Some(data) => {
                if data.len() != 16 {
                    return Err(TagError::TransformationLength);
                }
                let matrix: [T; 16] = [
                    data[0], data[1], data[2], data[3],
                    data[4], data[5], data[6], data[7],
                    data[8], data[9], data[10], data[11],
                    data[12], data[13], data[14], data[15],
                ];
                assert(matrix@ =~= data@);
                Some(matrix)
            },
            None => None,
        };
        match transformation {
            Some(matrix) => {
                if pixel_scale.is_some() {
                    return Err(TagError::PixelScaleWithTransformation);
                }
                if tie_points.is_some() {
                    return Err(TagError::TiePointsWithTransformation);
                }
                Ok(CoordinateTransform::AffineTransform(matrix))
            },
            None => {
                let tie_points = match tie_points {
                    Some(tie_points) => tie_points,
                    None => {
                        return Err(TagError::TiePointsMissing);
                    },
                };
                if tie_points.len() == 6 {
                    let tie_point: [T; 6] = [
                        tie_points[0], tie_points[1], tie_points[2],
                        tie_points[3], tie_points[4], tie_points[5],
                    ];
                    assert(tie_point@ =~= tie_points@);
                    match pixel_scale {
                        Some(scale) => Ok(CoordinateTransform::TiePointAndPixelScale(tie_point, scale)),
                        None => Err(TagError::PixelScaleMissing),
                    }
                } else {
                    Ok(CoordinateTransform::TiePoints(tie_points))
                }
            },
        }
    }

    /// The number of tie points held.
    pub fn tie_point_count(&self) -> (r: usize)
        ensures
            r == self.spec_tie_point_count(),
    {
        match self {
            CoordinateTransform::TiePointAndPixelScale(_, _) => 1,
            CoordinateTransform::TiePoints(tie_points) => tie_points.len() / 6,
            CoordinateTransform::AffineTransform(_) => 0,
        }
    }

    /// The `[I, J, K, X, Y, Z]` group of tie point `k`.
    pub fn tie_point(&self, k: usize) -> (r: [T; 6])
        requires
            k < self.spec_tie_point_count(),
        ensures
            r@ == self.spec_tie_point(k as int),
    {
        match self {
            CoordinateTransform::TiePointAndPixelScale(tie_point, _) => *tie_point,
            CoordinateTransform::TiePoints(tie_points) => {
                let len: usize = tie_points.len();
                assert(6 * k + 6 <= len) by (nonlinear_arith)
                    requires
                        k < len / 6,
                ;
                let base: usize = 6 * k;
                let group: [T; 6] = [
                    tie_points[base], tie_points[base + 1], tie_points[base + 2],
                    tie_points[base + 3], tie_points[base + 4], tie_points[base + 5],
                ];
                assert(group@ =~= tie_points@.subrange(6 * k, 6 * k + 6));
                group
            },
            CoordinateTransform::AffineTransform(_) => vstd::pervasive::unreached(),
        }
    }
}

} // verus!
