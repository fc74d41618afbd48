//! Text rendering: decimal and milli formatting, axis exports, and
//! the sink's JSON objects for whole models and slices.

use geostrata::model2d::Model2D;
use geostrata::model3d::Model3D;
use geostrata::text_num::milli_to_str;
use geostrata::types::generation_params::Params2D;
use geostrata::types::generation_params::Params3D;
use geostrata::types::Axis;
use geostrata::types::AxisExportType;
use geostrata::types::LayersDist;

#[test]
fn decimal_rendering() {
    assert_eq!(milli_to_str(7_000), "7");
    assert_eq!(milli_to_str(1_203_000), "1203");
    assert_eq!(milli_to_str(-45_000), "-45");

    assert_eq!(milli_to_str(0), "0");
    assert_eq!(milli_to_str(1_000), "1");
    assert_eq!(milli_to_str(1_500), "1.5");
    assert_eq!(milli_to_str(3_050), "3.05");
    assert_eq!(milli_to_str(1_000_005), "1000.005");
    assert_eq!(milli_to_str(-2_100), "-2.1");
}

#[test]
fn axis_export_modes() {
    let ax = Axis::generate_axis(1_000, 3_000, None).unwrap();

    let mut out = String::new();
    ax.export_axis(&AxisExportType::AsSelf, &mut out);
    assert_eq!(out, "1,2,3");

    let mut out = String::new();
    ax.export_axis(&AxisExportType::AsNum, &mut out);
    assert_eq!(out, "0,1,2");

    let mut out = String::new();
    ax.export_axis(&AxisExportType::Scale(2_000), &mut out);
    assert_eq!(out, "2,4,6");

    let mut out = String::new();
    ax.export_axis(
        &AxisExportType::CustomAxis(vec![500, 1_500, 2_500]),
        &mut out,
    );
    assert_eq!(out, "0.5,1.5,2.5");
}

#[test]
fn model3d_export_text() {
    let mut params = Params3D::new();
    params.set_x_axis(Axis::generate_axis(0, 2_000, None).unwrap());
    params.set_y_axis(Axis::generate_axis(0, 1_000, None).unwrap());
    params.set_layers_dist(LayersDist::create_from_vec(vec![1, 1]).unwrap());

    let borders = vec![vec![vec![1, 1]], vec![vec![2, 2]]];
    let model = vec![
        vec![vec![10, 20]],
        vec![vec![11, 21]],
    ];
    let mask = vec![vec![vec![0, 1]], vec![vec![0, 1]]];
    let fill_values = vec![vec![10, 11], vec![20, 21]];

    let m = Model3D::new(model, mask, borders, fill_values, 2, params);
    let axes = vec![
        AxisExportType::AsSelf,
        AxisExportType::AsSelf,
        AxisExportType::AsSelf,
    ];
    let text = m.export_model_text(None, true, true, true, true, &axes);
    let mut expected = String::from("{\"params3D\":null,");
    expected += "\"output_axes\":{\"x_ax\":[0,1,2],\"y_ax\":[0,1],\"z_ax\":[1,2]},";
    expected += "\"borders\":[{\"bo0\":[{\"y0\":[1,1]}]},{\"bo1\":[{\"y0\":[2,2]}]}],";
    expected += "\"fill_values\":[[10,11],[20,21]],";
    expected += "\"model\":[{\"x0\":[{\"y0\":[10,20]}]},{\"x1\":[{\"y0\":[11,21]}]}],";
    expected += "\"model_mask\":[{\"x0\":[{\"y0\":[0,1]}]},{\"x1\":[{\"y0\":[0,1]}]}]}";
    assert_eq!(text, expected);

    let params_json = String::from("{\"answer\":42}");
    let text = m.export_model_text(Some(&params_json), false, false, false, false, &axes);
    let mut expected = String::from("{\"params3D\":{\"answer\":42},");
    expected += "\"output_axes\":{\"x_ax\":[0,1,2],\"y_ax\":[0,1],\"z_ax\":[1,2]},";
    expected += "\"borders\":null,\"fill_values\":null,\"model\":null,\"model_mask\":null}";
    assert_eq!(text, expected);
}

#[test]
fn model2d_export_text() {
    let mut params = Params2D::new();
    params.set_x_axis(Axis::create_from_edges(vec![0, 1_000, 2_000]).unwrap());

    let m2 = Model2D::new(
        vec![vec![10, 20], vec![11, 21]],
        vec![vec![0, 1], vec![0, 1]],
        vec![vec![1, 2], vec![1, 2]],
        params,
    );
    let axes = vec![AxisExportType::AsSelf, AxisExportType::AsSelf];
    let text = m2.export_model_text(true, true, true, &axes);
    let mut expected = String::from("{\"params2D\":null,");
    expected += "\"output_axes\":{\"x_ax\":[0,1,2],\"z_ax\":[0,1]},";
    expected += "\"borders\":[{\"bo0\":[1,2]},{\"bo1\":[1,2]}],";
    expected += "\"fill_values\":null,";
    expected += "\"model\":[{\"x0\":[10,20]},{\"x1\":[11,21]}],";
    expected += "\"model_mask\":[{\"x0\":[0,1]},{\"x1\":[0,1]}]}";
    assert_eq!(text, expected);
}

#[test]
fn slice_extraction_by_nums() {
    let mut params = Params3D::new();
    params.set_x_axis(Axis::generate_axis(0, 2_000, None).unwrap());
    params.set_y_axis(Axis::generate_axis(0, 2_000, None).unwrap());
    params.set_layers_dist(LayersDist::create_from_vec(vec![1, 1]).unwrap());

    let borders = vec![
        vec![vec![1, 2], vec![3, 4]],
        vec![vec![5, 6], vec![7, 8]],
    ];
    let model = vec![
        vec![vec![10], vec![20]],
        vec![vec![30], vec![40]],
    ];
    let mask = vec![vec![vec![0], vec![1]], vec![vec![0], vec![1]]];

    let m = Model3D::new(model, mask, borders, Vec::new(), 8, params);

    let m2 = m.form_2d_by_nums(vec![0, 1], vec![1, 0]).unwrap();
    assert_eq!(*m2.borders(), vec![vec![3, 7], vec![2, 6]]);
    assert_eq!(*m2.model(), vec![vec![20], vec![30]]);
    assert_eq!(*m2.model_mask(), vec![vec![1], vec![0]]);

    assert!(m.form_2d_by_nums(vec![0, 1], vec![0]).is_err());
    assert!(m.form_2d_by_nums(vec![0, 5], vec![0, 0]).is_err());

    assert_eq!(m.get_by_num(1, 0).unwrap(), vec![30]);
    assert!(m.get_by_num(5, 0).is_err());
}
