use geotransform::{CoordinateTransform, TagError};

fn identity() -> Vec<f64> {
    vec![
        1.0, 0.0, 0.0, 0.0, 0.0, 1.0, 0.0, 0.0, 0.0, 0.0, 1.0, 0.0, 0.0, 0.0, 0.0, 1.0,
    ]
}

fn rejection(
    pixel_scale: Option<Vec<f64>>,
    tie_points: Option<Vec<f64>>,
    transformation: Option<Vec<f64>>,
) -> TagError {
    match CoordinateTransform::from_tag_data(pixel_scale, tie_points, transformation) {
        Ok(t) => panic!("accepted: {:?}", t),
        Err(e) => e,
    }
}

#[test]
fn pixel_scale_of_two_values_is_rejected() {
    let e = rejection(
        Some(vec![1.0, 2.0]),
        Some(vec![0.0, 0.0, 0.0, 100.0, 200.0, 0.0]),
        None,
    );
    assert_eq!(e, TagError::PixelScaleLength);
    let m = e.message();
    assert!(m.contains("ModelPixelScaleTag"));
    assert!(m.contains("3"));
}

#[test]
fn empty_tie_points_are_rejected() {
    let e = rejection(None, Some(vec![]), None);
    assert_eq!(e, TagError::TiePointsEmpty);
    assert!(e.message().contains("greater than 0"));
}

#[test]
fn seven_tie_point_values_are_rejected() {
    let e = rejection(None, Some(vec![0.0; 7]), None);
    assert_eq!(e, TagError::TiePointsNotDivisible);
    assert!(e.message().contains("divisible by 6"));
}

#[test]
fn fifteen_matrix_values_are_rejected() {
    let e = rejection(None, None, Some(vec![0.0; 15]));
    assert_eq!(e, TagError::TransformationLength);
    assert!(e.message().contains("16"));
}

#[test]
fn matrix_with_pixel_scale_is_rejected() {
    let e = rejection(Some(vec![1.0, 1.0, 0.0]), None, Some(identity()));
    assert_eq!(e, TagError::PixelScaleWithTransformation);
    let m = e.message();
    assert!(m.contains("ModelPixelScaleTag"));
    assert!(m.contains("must not be specified when ModelTransformationTag is present"));
}

#[test]
fn matrix_with_tie_points_is_rejected() {
    let e = rejection(
        None,
        Some(vec![0.0, 0.0, 0.0, 100.0, 200.0, 0.0]),
        Some(identity()),
    );
    assert_eq!(e, TagError::TiePointsWithTransformation);
    assert!(e.message().contains("must not be specified"));
}

#[test]
fn no_tie_points_and_no_matrix_is_rejected() {
    let e = rejection(None, None, None);
    assert_eq!(e, TagError::TiePointsMissing);
    assert!(e.message().contains("must be present"));
    let e = rejection(Some(vec![2.0, 2.0, 0.0]), None, None);
    assert_eq!(e, TagError::TiePointsMissing);
}

#[test]
fn single_tie_point_without_pixel_scale_is_rejected() {
    let e = rejection(None, Some(vec![0.0, 0.0, 0.0, 100.0, 200.0, 0.0]), None);
    assert_eq!(e, TagError::PixelScaleMissing);
    assert_eq!(
        e.message(),
        "ModelPixelScaleTag must be specified when ModelTiePointTag contains 6 values"
    );
}

#[test]
fn rules_are_checked_in_order() {
    // a short pixel scale is reported before a short matrix
    let e = rejection(Some(vec![1.0]), Some(vec![]), Some(vec![0.0; 3]));
    assert_eq!(e, TagError::PixelScaleLength);
    // tie point counts are reported before the matrix length
    let e = rejection(None, Some(vec![0.0; 5]), Some(vec![0.0; 3]));
    assert_eq!(e, TagError::TiePointsNotDivisible);
    // lengths are reported before the conflict between tags
    let e = rejection(Some(vec![1.0, 1.0, 1.0]), None, Some(vec![0.0; 17]));
    assert_eq!(e, TagError::TransformationLength);
}

#[test]
fn single_tie_point_with_pixel_scale_is_accepted() {
    let t = CoordinateTransform::from_tag_data(
        Some(vec![2.0, 2.0, 0.0]),
        Some(vec![0.0, 0.0, 0.0, 100.0, 200.0, 0.0]),
        None,
    )
    .unwrap();
    match &t {
        CoordinateTransform::TiePointAndPixelScale(tie_point, scale) => {
            assert_eq!(*tie_point, [0.0, 0.0, 0.0, 100.0, 200.0, 0.0]);
            assert_eq!(*scale, [2.0, 2.0, 0.0]);
        }
        other => panic!("wrong shape: {:?}", other),
    }
    assert_eq!(t.tie_point_count(), 1);
    assert_eq!(t.tie_point(0), [0.0, 0.0, 0.0, 100.0, 200.0, 0.0]);
}

#[test]
fn identity_matrix_is_accepted() {
    let t = CoordinateTransform::from_tag_data(None, None, Some(identity())).unwrap();
    match &t {
        CoordinateTransform::AffineTransform(m) => assert_eq!(m.to_vec(), identity()),
        other => panic!("wrong shape: {:?}", other),
    }
    assert_eq!(t.tie_point_count(), 0);
}

#[test]
fn several_tie_points_are_accepted_and_pixel_scale_is_ignored() {
    let points = vec![
        0.0, 0.0, 0.0, 100.0, 200.0, 0.0, //
        10.0, 20.0, 0.0, 150.0, 120.0, 5.0,
    ];
    for scale in [None, Some(vec![2.0, 2.0, 0.0])] {
        let t = CoordinateTransform::from_tag_data(scale, Some(points.clone()), None).unwrap();
        match &t {
            CoordinateTransform::TiePoints(p) => assert_eq!(*p, points),
            other => panic!("wrong shape: {:?}", other),
        }
        assert_eq!(t.tie_point_count(), 2);
        assert_eq!(t.tie_point(0), [0.0, 0.0, 0.0, 100.0, 200.0, 0.0]);
        assert_eq!(t.tie_point(1), [10.0, 20.0, 0.0, 150.0, 120.0, 5.0]);
    }
}

#[test]
fn each_shape_follows_precedence() {
    // with a matrix, no other tag may be present; without one, tie points decide
    assert!(matches!(
        CoordinateTransform::from_tag_data(None, None, Some(vec![0.0; 16])),
        Ok(CoordinateTransform::AffineTransform(_))
    ));
    assert!(matches!(
        CoordinateTransform::from_tag_data(Some(vec![1.0; 3]), Some(vec![0.0; 6]), None),
        Ok(CoordinateTransform::TiePointAndPixelScale(_, _))
    ));
    assert!(matches!(
        CoordinateTransform::from_tag_data(None, Some(vec![0.0; 18]), None),
        Ok(CoordinateTransform::TiePoints(_))
    ));
}

#[test]
fn every_message_names_a_tag() {
    let all = [
        TagError::PixelScaleLength,
        TagError::TiePointsEmpty,
        TagError::TiePointsNotDivisible,
        TagError::TransformationLength,
        TagError::PixelScaleWithTransformation,
        TagError::TiePointsWithTransformation,
        TagError::TiePointsMissing,
        TagError::PixelScaleMissing,
    ];
    for e in all {
        let m = e.message();
        assert!(m.contains("Tag"), "{}", m);
    }
    assert_eq!(
        TagError::PixelScaleLength.message(),
        "Number of values in ModelPixelScaleTag must be equal to 3"
    );
}
