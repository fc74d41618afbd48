//! Border generation: randomized range and step constraints, and the
//! deterministic post-processing modifier.

use rand::Rng;

use geostrata::model3d::borders3d::create_layers_borders_3d;
use geostrata::model3d::borders3d::validate_layer;
use geostrata::types::generation_params::Params3D;
use geostrata::types::Axis;
use geostrata::types::LayersBorder;
use geostrata::types::LayersDist;

type NoMod = fn(usize, usize, usize, i32) -> i32;

#[test]
fn random_gen_layers_borders_tests() {
    let gen_count = 5000;
    let mut rng = rand::thread_rng();

    for _ in 0..gen_count {
        let mut params = Params3D::new();

        params.set_x_axis(
            Axis::generate_axis(0, rng.gen_range(1..25) as i64 * 1000, None).unwrap(),
        );
        params.set_y_axis(
            Axis::generate_axis(0, rng.gen_range(1..25) as i64 * 1000, None).unwrap(),
        );

        let layer_num: u8 = rng.gen_range(2..20);
        let layer_min: i32 = rng.gen_range(1..20);
        let layer_max: i32 = rng.gen_range(layer_min..layer_min + 20);
        let layer_sum: Option<i32> =
            Some(rng.gen_range(layer_min * layer_num as i32..layer_max * layer_num as i32 + 1));

        params.set_layers_dist(
            LayersDist::generate_from_params(layer_num, layer_min, layer_max, layer_sum)
                .expect("Impossible to generate, recheck test"),
        );

        let mut borders = LayersBorder::new();
        borders
            .set_border_deviation(rng.gen_range(0..100) as i64 * 100)
            .expect("Error");
        borders.set_border_max_step(Some(rng.gen_range(0..100)));
        params.set_layers_border(borders);

        let res = create_layers_borders_3d(&params, None::<NoMod>);
        assert!(res.is_ok());
    }
}

fn test_function(x_cord: usize, y_cord: usize, layers_num: usize, z_value: i32) -> i32 {
    (x_cord * y_cord * layers_num) as i32 * z_value
}

#[test]
fn check_border_mod_function() {
    let mut params = Params3D::new();
    params.set_x_axis(Axis::generate_axis(0, 2_000, None).unwrap());
    params.set_y_axis(Axis::generate_axis(0, 2_000, None).unwrap());

    params.set_layers_dist(LayersDist::create_from_vec(vec![1, 1, 1]).unwrap());

    let borders = LayersBorder::new();
    params.set_layers_border(borders);

    let res = create_layers_borders_3d(&params, Some(test_function)).unwrap();
    assert_eq!(
        res,
        vec![
            vec![vec![1, 1], vec![1, 1]],
            vec![vec![2, 2], vec![2, 0]],
            vec![vec![3, 3], vec![3, -3]]
        ]
    )
}

#[test]
fn generated_borders_pass_validation() {
    let mut rng = rand::thread_rng();
    for _ in 0..200 {
        let mut params = Params3D::new();
        params.set_x_axis(Axis::generate_axis(0, 8_000, None).unwrap());
        params.set_y_axis(Axis::generate_axis(0, 6_000, None).unwrap());
        params.set_layers_dist(LayersDist::create_from_vec(vec![5, 7, 4]).unwrap());

        let mut border_cfg = LayersBorder::new();
        border_cfg.set_border_deviation(3_000).unwrap();
        let step: i32 = rng.gen_range(1..5);
        border_cfg.set_border_max_step(Some(step));
        params.set_layers_border(border_cfg);

        let borders = create_layers_borders_3d(&params, None::<NoMod>).unwrap();
        let summed = vec![5, 12, 16];
        for (l, layer) in borders.iter().enumerate() {
            let upper = summed[l] + 3;
            let lower = if summed[l] - 3 < 0 { 0 } else { summed[l] - 3 };
            assert!(validate_layer(Some(step), upper, lower, layer, l).is_ok());
        }
    }
}

#[test]
fn validate_layer_flags_violations() {
    let good = vec![vec![3, 3], vec![3, 4]];
    assert!(validate_layer(Some(1), 5, 2, &good, 0).is_ok());

    let out_of_range = vec![vec![3, 9], vec![3, 4]];
    assert!(validate_layer(Some(1), 5, 2, &out_of_range, 0).is_err());

    let too_steep = vec![vec![2, 5], vec![2, 5]];
    assert!(validate_layer(Some(1), 5, 2, &too_steep, 0).is_err());
    assert!(validate_layer(None, 5, 2, &too_steep, 0).is_ok());
}

#[test]
fn invalid_border_type_rejected() {
    let mut params = Params3D::new();
    let mut border_cfg = LayersBorder::new();
    assert!(border_cfg.set_border_type(String::from("linear")).is_err());
    assert!(border_cfg.set_border_type(String::from("random")).is_ok());
    border_cfg.border_type = String::from("linear");
    params.set_layers_border(border_cfg);
    let res = create_layers_borders_3d(&params, None::<NoMod>);
    assert!(res.is_err());
}
