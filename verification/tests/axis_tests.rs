//! Axis construction: generated, hard-generated and explicit axes,
//! with their edges and centers in millis.

use geostrata::types::Axis;

#[test]
fn gen_axis_tests() {
    let ax = Axis::generate_axis(1_000, 3_000, None).unwrap();
    assert_eq!(*ax.axis(), vec![1_000, 2_000, 3_000]);
    assert_eq!(*ax.centers(), vec![1_500, 2_500]);

    let ax = Axis::generate_axis(1_000, 3_000, Some(1_000)).unwrap();
    assert_eq!(*ax.axis(), vec![1_000, 2_000, 3_000]);
    assert_eq!(*ax.centers(), vec![1_500, 2_500]);

    let ax = Axis::generate_axis(1_000, 3_000, Some(1_100)).unwrap();
    assert_eq!(*ax.axis(), vec![1_000, 2_100]);
    assert_eq!(*ax.centers(), vec![1_550]);

    let ax = Axis::generate_axis(1_000, 3_100, None).unwrap();
    assert_eq!(*ax.axis(), vec![1_000, 2_000, 3_000]);
    assert_eq!(*ax.centers(), vec![1_500, 2_500]);

    let ax = Axis::generate_axis(1_000, 3_100, Some(-1_000));
    assert!(ax.is_err());

    let ax = Axis::generate_axis(1_000, -3_000, Some(-1_000));
    assert!(ax.is_err());

    let ax = Axis::generate_axis(1_000, 3_100, Some(0));
    assert!(ax.is_err());

    let ax = Axis::generate_axis(1_000, 1_000, Some(1_000));
    assert!(ax.is_err());

    let ax = Axis::generate_axis(1_000, 1_900, Some(1_000));
    assert!(ax.is_err());

    let ax = Axis::generate_axis_hard(1_000, 3_000, None).unwrap();
    assert_eq!(*ax.axis(), vec![1_000, 2_000, 3_000]);
    assert_eq!(*ax.centers(), vec![1_500, 2_500]);

    let ax = Axis::generate_axis_hard(1_000, 3_000, Some(1_000)).unwrap();
    assert_eq!(*ax.axis(), vec![1_000, 2_000, 3_000]);
    assert_eq!(*ax.centers(), vec![1_500, 2_500]);

    let ax = Axis::generate_axis_hard(1_000, 3_000, Some(1_100)).unwrap();
    assert_eq!(*ax.axis(), vec![1_000, 2_100, 3_000]);
    assert_eq!(*ax.centers(), vec![1_550, 2_550]);

    let ax = Axis::generate_axis_hard(1_000, 3_100, None).unwrap();
    assert_eq!(*ax.axis(), vec![1_000, 2_000, 3_000, 3_100]);
    assert_eq!(*ax.centers(), vec![1_500, 2_500, 3_050]);

    println!("{:?}", *ax.axis());
    let ax = Axis::generate_axis_hard(6_000_000, 9_100_000, Some(1_000_005)).unwrap();
    assert_eq!(
        *ax.axis(),
        vec![6_000_000, 7_000_005, 8_000_010, 9_000_015, 9_100_000]
    );
}

#[test]
fn axis_edges_strictly_increase_and_centers_are_midpoints() {
    let ax = Axis::generate_axis(-2_500, 10_000, Some(1_700)).unwrap();
    let edges = ax.axis();
    let centers = ax.centers();
    assert_eq!(centers.len(), edges.len() - 1);
    assert_eq!(ax.blocks_count(), centers.len());
    for i in 0..edges.len() - 1 {
        assert!(edges[i] < edges[i + 1]);
        let sum = edges[i] + edges[i + 1];
        let mid = if sum >= 0 { (sum + 1) / 2 } else { -((-sum + 1) / 2) };
        assert_eq!(centers[i], mid);
    }
}

#[test]
fn axis_from_edges_and_lookup() {
    let ax = Axis::create_from_edges(vec![0, 1_000, 2_500, 7_000]).unwrap();
    assert_eq!(ax.blocks_count(), 3);
    assert_eq!(ax.start(), 0);
    assert_eq!(ax.end(), 7_000);
    assert_eq!(ax.step(), None);
    assert_eq!(*ax.centers(), vec![500, 1_750, 4_750]);

    assert_eq!(ax.find_element_smaller(-1), None);
    assert_eq!(ax.find_element_smaller(0), Some(0));
    assert_eq!(ax.find_element_smaller(999), Some(0));
    assert_eq!(ax.find_element_smaller(1_000), Some(1));
    assert_eq!(ax.find_element_smaller(6_999), Some(2));
    assert_eq!(ax.find_element_smaller(900_000), Some(3));

    assert!(Axis::create_from_edges(vec![1_000]).is_err());
    assert!(Axis::create_from_edges(vec![1_000, 1_000]).is_err());
    assert!(Axis::create_from_edges(vec![1_000, 500]).is_err());
}
