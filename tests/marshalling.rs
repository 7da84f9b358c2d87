use rust_mcs_bridge::error::BridgeError;
use rust_mcs_bridge::marshal::ExitFlagEnum_C;
use rust_mcs_bridge::layout::{flatten_rows, release_sizes};
use rust_mcs_bridge::marshal::marshal_result;

#[test]
fn rows_are_laid_out_row_major() {
    let rows = vec![vec![1, 2], vec![3, 4], vec![5, 6]];
    assert_eq!(flatten_rows(&rows, 2), vec![1, 2, 3, 4, 5, 6]);
}

#[test]
fn no_rows_give_an_empty_buffer() {
    let rows: Vec<Vec<f64>> = Vec::new();
    assert!(flatten_rows(&rows, 4).is_empty());
}

#[test]
fn release_sizes_follow_dimension_and_count() {
    assert_eq!(release_sizes(6, 3), Ok((6, 18, 3)));
    assert_eq!(release_sizes(15, 0), Ok((15, 0, 0)));
    assert_eq!(release_sizes(0, 3), Err(BridgeError::UnsupportedDimension { n: 0 }));
    assert_eq!(release_sizes(16, 1), Err(BridgeError::UnsupportedDimension { n: 16 }));
    assert_eq!(release_sizes(2, usize::MAX), Err(BridgeError::MalformedResult));
}

#[test]
fn result_is_marshalled_with_its_buffers() {
    let xmin = vec![vec![0.5, -0.5, 0.0], vec![1.0, 1.0, -1.0]];
    let r = marshal_result(
        3,
        vec![0.0, 0.1, 0.2],
        0.05,
        &xmin,
        vec![0.5, 3.0],
        120,
        4,
        ExitFlagEnum_C::NormalShutdown,
    )
    .unwrap();
    assert_eq!(r.dim, 3);
    assert_eq!(r.xbest, vec![0.0, 0.1, 0.2]);
    assert_eq!(r.fbest, 0.05);
    assert_eq!(r.xmin, vec![0.5, -0.5, 0.0, 1.0, 1.0, -1.0]);
    assert_eq!(r.xmin_size, 2);
    assert_eq!(r.fmi, vec![0.5, 3.0]);
    assert_eq!(r.fmi_size, 2);
    assert_eq!(r.ncall, 120);
    assert_eq!(r.ncloc, 4);
    assert_eq!(r.flag, ExitFlagEnum_C::NormalShutdown);
    assert_eq!(r.minimum_point(0), vec![0.5, -0.5, 0.0]);
    assert_eq!(r.minimum_point(1), vec![1.0, 1.0, -1.0]);
}

#[test]
fn best_point_has_the_dimension_for_every_served_size() {
    for n in 1..=15usize {
        let r = marshal_result(
            n,
            vec![0.0; n],
            1.0,
            &Vec::new(),
            Vec::new(),
            10,
            0,
            ExitFlagEnum_C::StopNsweepsExceeded,
        )
        .unwrap();
        assert_eq!(r.xbest.len(), n);
        assert_eq!(r.xmin_size, 0);
        assert!(r.xmin.is_empty());
        assert!(r.flag.is_limit_exceeded());
    }
}

#[test]
fn unsupported_dimension_is_refused_before_shape() {
    let r = marshal_result(16, vec![0.0; 3], 1.0, &Vec::new(), Vec::new(), 0, 0, ExitFlagEnum_C::NormalShutdown);
    assert_eq!(r.err(), Some(BridgeError::UnsupportedDimension { n: 16 }));
}

#[test]
fn malformed_outputs_are_refused() {
    let flag = ExitFlagEnum_C::StopNfExceeded;
    let short_best = marshal_result(2, vec![0.0], 1.0, &Vec::new(), Vec::new(), 0, 0, flag);
    assert_eq!(short_best.err(), Some(BridgeError::MalformedResult));
    let ragged = marshal_result(2, vec![0.0, 0.0], 1.0, &vec![vec![1.0, 2.0], vec![3.0]], vec![1.0, 2.0], 0, 0, flag);
    assert_eq!(ragged.err(), Some(BridgeError::MalformedResult));
    let missing_value = marshal_result(2, vec![0.0, 0.0], 1.0, &vec![vec![1.0, 2.0]], Vec::new(), 0, 0, flag);
    assert_eq!(missing_value.err(), Some(BridgeError::MalformedResult));
}
