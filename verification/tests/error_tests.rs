//! Error reporting: each rejection comes with its precise variant and
//! its description.

use geostrata::model3d::convert_data::Model2DError;
use geostrata::model3d::Model3D;
use geostrata::types::axis::AxisError;
use geostrata::types::default_layers_dist::DistError;
use geostrata::types::generation_params::Params3D;
use geostrata::types::layers_borders_gen::BorderError;
use geostrata::types::layers_filling_gen::FillError;
use geostrata::types::shifts::Shift3D;
use geostrata::types::shifts::ShiftError;
use geostrata::types::Axis;
use geostrata::types::LayersBorder;
use geostrata::types::LayersDist;
use geostrata::types::LayersFill;

#[test]
fn axis_error_variants() {
    assert!(matches!(
        Axis::generate_axis(1_000, 1_000, Some(1_000)),
        Err(AxisError::InvalidRange)
    ));
    assert!(matches!(
        Axis::generate_axis(1_000, 3_100, Some(0)),
        Err(AxisError::NonPositiveStep)
    ));
    assert!(matches!(
        Axis::generate_axis(1_000, 1_900, Some(1_000)),
        Err(AxisError::InsufficientElements)
    ));
    assert!(matches!(
        Axis::create_from_edges(vec![1_000, 500]),
        Err(AxisError::NonIncreasingValues)
    ));
    assert_eq!(
        AxisError::NonPositiveStep.message(),
        "Step must be bigger than zero"
    );
}

#[test]
fn dist_error_variants() {
    assert_eq!(
        LayersDist::generate_layers_dist_vec(3, 10, 5, None),
        Err(DistError::BoundsInconsistent)
    );
    assert_eq!(
        LayersDist::generate_layers_dist_vec(0, 1, 5, None),
        Err(DistError::NonPositiveArgument)
    );
    assert_eq!(
        LayersDist::generate_layers_dist_vec(2, 1, 5, Some(11)),
        Err(DistError::SumTooLarge)
    );
    assert_eq!(
        LayersDist::generate_layers_dist_vec(2, 3, 5, Some(5)),
        Err(DistError::SumTooSmall)
    );
    assert!(matches!(
        LayersDist::create_from_vec(vec![]),
        Err(DistError::EmptyDist)
    ));
    assert!(matches!(
        LayersDist::create_from_vec(vec![1; 300]),
        Err(DistError::TooManyLayers)
    ));
    assert!(matches!(
        LayersDist::create_from_vec(vec![3, -1]),
        Err(DistError::NonPositiveElement)
    ));
    assert!(matches!(
        LayersDist::create_from_vec(vec![i32::MAX, 1]),
        Err(DistError::SumOverflow)
    ));
    assert_eq!(
        DistError::NonPositiveArgument.message(),
        "Any argument must be bigger than zero"
    );
}

#[test]
fn border_error_variants() {
    let mut cfg = LayersBorder::new();
    assert_eq!(
        cfg.set_border_deviation(-1),
        Err(BorderError::NegativeDeviation)
    );
    assert_eq!(
        cfg.set_border_type(String::from("linear")),
        Err(BorderError::InvalidBorderType)
    );
    assert_eq!(
        cfg.set_border_step_prob(Some(2_000)),
        Err(BorderError::InvalidProbability)
    );
    assert_eq!(
        cfg.set_deviation_override(Some(vec![])),
        Err(BorderError::EmptyOverride)
    );
    assert_eq!(
        cfg.set_deviation_override(Some(vec![[5, 3]])),
        Err(BorderError::MalformedOverride)
    );
    assert_eq!(BorderError::ValidationFailed.message(), "Model is not valid");
}

#[test]
fn fill_error_variants() {
    let mut cfg = LayersFill::new();
    assert_eq!(cfg.set_values_preset(vec![]), Err(FillError::EmptyPreset));
    assert_eq!(
        cfg.set_values_preset(vec![vec![1, 2, 3]]),
        Err(FillError::MalformedSpec)
    );
    assert_eq!(
        cfg.set_values_preset(vec![vec![1], vec![]]),
        Err(FillError::MalformedSpec)
    );
    assert_eq!(
        cfg.set_values_deviation(Some(0)),
        Err(FillError::NonPositiveDeviation)
    );
    assert_eq!(
        FillError::EmptyPreset.message(),
        "Vector must contain at least one element"
    );
}

#[test]
fn shift_error_variants() {
    let mut shift = Shift3D::new();
    assert_eq!(shift.set_angle_x(180_001), Err(ShiftError::AngleOutOfRange));
    assert_eq!(shift.set_angle_y(-1), Err(ShiftError::AngleOutOfRange));
    assert_eq!(shift.set_angle_z(90_001), Err(ShiftError::AngleOutOfRange));
    assert_eq!(shift.set_main_region(5), Err(ShiftError::RegionOutOfRange));
    assert_eq!(shift.set_shift_force(-1), Err(ShiftError::NegativeForce));
    assert_eq!(
        ShiftError::NegativeForce.message(),
        "Shift force cannot be negative"
    );
}

#[test]
fn model2d_error_variants() {
    let borders = vec![vec![vec![1, 2], vec![3, 4]]];
    let m = Model3D::new(
        Vec::new(),
        Vec::new(),
        borders,
        Vec::new(),
        4,
        Params3D::new(),
    );
    assert_eq!(m.get_by_num(0, 0), Err(Model2DError::NoModel));
    assert!(matches!(
        m.form_2d_by_nums(vec![0, 1], vec![0]),
        Err(Model2DError::SizeMismatch)
    ));
    assert!(matches!(
        m.form_2d_by_nums(vec![0, 9], vec![0, 0]),
        Err(Model2DError::InvalidCoordinates)
    ));
    assert_eq!(Model2DError::OutOfBounds.message(), "X or Y out of bounds");
}
