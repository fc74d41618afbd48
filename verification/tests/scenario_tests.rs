//! End-to-end scenarios: trivial borders, the modifier, exact fill,
//! and a full run with one shift.

use geostrata::model3d::borders3d::create_layers_borders_3d;
use geostrata::model3d::generate_model;
use geostrata::model3d::shifts3d::add_shift;
use geostrata::model3d::shifts3d::ShiftGeometry;
use geostrata::types::generation_params::Params3D;
use geostrata::types::shifts::Shift2D;
use geostrata::types::shifts::Shift3D;
use geostrata::types::shifts::ShiftTypes;
use geostrata::types::shifts::ShiftTypes2D;
use geostrata::types::Axis;
use geostrata::types::LayersBorder;
use geostrata::types::LayersDist;
use geostrata::types::LayersFill;

type NoMod = fn(usize, usize, usize, i32) -> i32;

fn trivial_params() -> Params3D {
    let mut params = Params3D::new();
    params.set_x_axis(Axis::generate_axis(0, 2_000, None).unwrap());
    params.set_y_axis(Axis::generate_axis(0, 2_000, None).unwrap());
    params.set_layers_dist(LayersDist::create_from_vec(vec![1, 1, 1]).unwrap());
    params.set_layers_border(LayersBorder::new());
    params
}

#[test]
fn borders_trivial_equal_nominal_depths() {
    // Zero deviation pins every cell of layer L to the nominal depth.
    let params = trivial_params();
    let borders = create_layers_borders_3d(&params, None::<NoMod>).unwrap();
    assert_eq!(
        borders,
        vec![
            vec![vec![1, 1], vec![1, 1]],
            vec![vec![2, 2], vec![2, 2]],
            vec![vec![3, 3], vec![3, 3]]
        ]
    );
}

#[test]
fn fill_with_exact_ordered_preset() {
    let mut params = trivial_params();
    let mut fill_cfg = LayersFill::new();
    fill_cfg
        .set_values_preset(vec![vec![1], vec![2], vec![3]])
        .unwrap();
    fill_cfg.set_is_preset_odreder(true);
    params.set_layers_fill(fill_cfg);

    let model = generate_model(params, None::<NoMod>, &Vec::new()).unwrap();

    assert_eq!(model.max_depth(), 3);
    for x in 0..2 {
        for y in 0..2 {
            assert_eq!(model.model()[x][y], vec![1, 2, 3]);
            assert_eq!(model.model_mask()[x][y], vec![0, 1, 2]);
        }
    }
    assert_eq!(
        *model.layers_filling_values(),
        vec![vec![1, 1], vec![2, 2], vec![3, 3]]
    );
}

#[test]
fn shift_outer_descent_pushes_at_most_force() {
    // A 9 by 9 grid of three layers under one outer descent anchored
    // in the middle: untouched region-1 cells stay within their layer
    // range; every other cell moves down by at most the force.
    let mut params = Params3D::new();
    params.set_x_axis(Axis::generate_axis(0, 9_000, None).unwrap());
    params.set_y_axis(Axis::generate_axis(0, 9_000, None).unwrap());
    params.set_layers_dist(LayersDist::create_from_vec(vec![2, 3, 2]).unwrap());

    let mut border_cfg = LayersBorder::new();
    border_cfg.set_border_deviation(1_000).unwrap();
    border_cfg.set_border_max_step(Some(1));
    params.set_layers_border(border_cfg);

    let mut shift = Shift3D::new();
    shift.set_pos_x(4_500);
    shift.set_pos_y(4_500);
    shift.set_angle_x(90_000).unwrap();
    shift.set_angle_y(90_000).unwrap();
    shift.set_angle_z(90_000).unwrap();
    shift.set_main_region(1).unwrap();
    shift.set_shift_force(3).unwrap();
    shift.set_shift_type(ShiftTypes::OuterDescent);
    params.add_shift(shift);

    // Right-angle lines stay at the anchor for every row and column;
    // a right-angle tilt makes the slice depth saturate.
    let geometry = ShiftGeometry {
        x_line_points: vec![4_500; 9],
        y_line_points: vec![4_500; 9],
        crossed_point_x: 5,
        crossed_point_y: 5,
        tan_z_milli: 1_000_000_000_000,
    };

    let model = generate_model(params, None::<NoMod>, &vec![geometry]).unwrap();

    let summed = vec![2, 5, 7];
    let borders = model.borders();
    let mut max_cell = 0;
    for (l, layer) in borders.iter().enumerate() {
        let lower = if summed[l] - 1 < 0 { 0 } else { summed[l] - 1 };
        let upper = summed[l] + 1;
        for (y, row) in layer.iter().enumerate() {
            for (x, cell) in row.iter().enumerate() {
                if max_cell < *cell {
                    max_cell = *cell;
                }
                // Region 1: centers at most 4500 on both axes, which
                // are the first five blocks.
                if x <= 4 && y <= 4 {
                    assert!(lower <= *cell && *cell <= upper);
                } else {
                    assert!(lower <= *cell && *cell <= upper + 3);
                }
            }
        }
    }
    assert!(model.max_depth() >= max_cell);
    assert!(model.max_depth() >= 7 - 1);
}

#[test]
fn descent_and_lift_move_cells_toward_slice() {
    let mut params = Params3D::new();
    params.set_x_axis(Axis::generate_axis(0, 2_000, None).unwrap());
    params.set_y_axis(Axis::generate_axis(0, 2_000, None).unwrap());

    let mut shift = Shift3D::new();
    shift.set_pos_x(-1_000);
    shift.set_pos_y(-1_000);
    shift.set_angle_x(90_000).unwrap();
    shift.set_angle_y(90_000).unwrap();
    shift.set_main_region(1).unwrap();
    shift.set_shift_force(2).unwrap();
    shift.set_shift_type(ShiftTypes::OuterDescent);

    // Lines far in the negative corner: every cell falls in region 4,
    // and a saturated tilt pushes each included cell by the force.
    let geometry = ShiftGeometry {
        x_line_points: vec![-1_000; 2],
        y_line_points: vec![-1_000; 2],
        crossed_point_x: -1,
        crossed_point_y: -1,
        tan_z_milli: 1_000_000_000_000,
    };

    let mut borders = vec![vec![vec![5, 5], vec![5, 5]]];
    let mut max_depth = 5;
    add_shift(&params, &mut borders, &shift, &geometry, &mut max_depth);
    assert_eq!(borders, vec![vec![vec![7, 7], vec![7, 7]]]);
    assert_eq!(max_depth, 7);

    // The same geometry as a lift pulls cells up by the force: the
    // slice depth complement lies far above the cells.
    shift.set_shift_type(ShiftTypes::OuterLift);
    add_shift(&params, &mut borders, &shift, &geometry, &mut max_depth);
    assert_eq!(borders, vec![vec![vec![5, 5], vec![5, 5]]]);
    assert_eq!(max_depth, 7);
}

#[test]
fn shift2d_configuration_round_trip() {
    let mut s = Shift2D::new();
    assert_eq!(s.pos_x(), 5_000);
    assert_eq!(s.angle(), 90_000);
    assert_eq!(s.shift_force(), 20);
    assert!(matches!(s.shift_type(), ShiftTypes2D::RightDescent));

    s.set_pos_x(2_500);
    assert!(s.set_angle(45_000).is_ok());
    assert!(s.set_angle(90_000).is_err());
    assert!(s.set_angle(0).is_err());
    s.set_shift_force(7);
    s.set_shift_type(ShiftTypes2D::Horst);
    assert_eq!(s.pos_x(), 2_500);
    assert_eq!(s.angle(), 45_000);
    assert_eq!(s.shift_force(), 7);
    assert!(matches!(s.shift_type(), ShiftTypes2D::Horst));
}

#[test]
fn zero_force_shift_changes_nothing() {
    let mut params = Params3D::new();
    params.set_x_axis(Axis::generate_axis(0, 2_000, None).unwrap());
    params.set_y_axis(Axis::generate_axis(0, 2_000, None).unwrap());

    let mut shift = Shift3D::new();
    shift.set_pos_x(-1_000);
    shift.set_pos_y(-1_000);
    shift.set_angle_x(90_000).unwrap();
    shift.set_angle_y(90_000).unwrap();
    shift.set_main_region(1).unwrap();
    shift.set_shift_force(0).unwrap();
    shift.set_shift_type(ShiftTypes::OuterDescent);

    let geometry = ShiftGeometry {
        x_line_points: vec![-1_000; 2],
        y_line_points: vec![-1_000; 2],
        crossed_point_x: -1,
        crossed_point_y: -1,
        tan_z_milli: 1_000_000_000_000,
    };

    let mut borders = vec![vec![vec![5, 5], vec![5, 5]]];
    let mut max_depth = 9;
    add_shift(&params, &mut borders, &shift, &geometry, &mut max_depth);
    assert_eq!(borders, vec![vec![vec![5, 5], vec![5, 5]]]);
    assert_eq!(max_depth, 9);
}

#[test]
fn random_walk_never_repeats_a_preset_entry() {
    // Two distinguishable entries under the unordered walk: adjacent
    // layers must take different entries, so the realized bounds
    // alternate.
    let mut params = Params3D::new();
    params.set_x_axis(Axis::generate_axis(0, 2_000, None).unwrap());
    params.set_y_axis(Axis::generate_axis(0, 2_000, None).unwrap());
    params.set_layers_dist(
        LayersDist::create_from_vec(vec![1, 1, 1, 1, 1, 1, 1, 1]).unwrap(),
    );

    let mut fill_cfg = LayersFill::new();
    fill_cfg
        .set_values_preset(vec![vec![1], vec![2]])
        .unwrap();
    fill_cfg.set_is_preset_odreder(false);
    params.set_layers_fill(fill_cfg);

    let model = generate_model(params, None::<NoMod>, &Vec::new()).unwrap();
    let rows = model.layers_filling_values();
    assert_eq!(rows.len(), 8);
    for row in rows.iter() {
        assert!(*row == vec![1, 1] || *row == vec![2, 2]);
    }
    for k in 1..rows.len() {
        assert_ne!(rows[k - 1], rows[k]);
    }
}
