use maud_lsp::float_bits::{f32_is_negative, f32_is_unit, f64_lt};
use maud_lsp::priors::{
    is_square, ConcEnzyme, ConcUnbalanced, Dgf, Drain, KcatPrior, KmPrior, MeanForm, Prior,
};

fn bits(v: f64) -> Option<u64> {
    Some(v.to_bits())
}

fn kcat(exploc: Option<f64>, scale: Option<f64>, pct1: Option<f64>, pct99: Option<f64>) -> KcatPrior {
    KcatPrior {
        enzyme: "E1".to_string(),
        reaction: "pgi".to_string(),
        exploc: exploc.map(f64::to_bits),
        scale: scale.map(f64::to_bits),
        pct1: pct1.map(f64::to_bits),
        pct99: pct99.map(f64::to_bits),
    }
}

#[test]
fn kcat_with_location_only_is_incomplete_not_inconsistent() {
    let p = kcat(Some(1.5), None, None, None);
    assert!(p.incomplete().is_some());
    assert!(p.inconsistent().is_none());
}

#[test]
fn kcat_with_all_four_is_inconsistent_not_incomplete() {
    let p = kcat(Some(1.5), Some(0.2), Some(0.1), Some(3.0));
    assert!(p.incomplete().is_none());
    assert!(p.inconsistent().is_some());
}

#[test]
fn kcat_with_one_full_pair_is_fine() {
    let p = kcat(Some(1.5), Some(0.2), None, None);
    assert!(p.incomplete().is_none());
    assert!(p.inconsistent().is_none());
    let q = kcat(None, None, Some(0.1), Some(3.0));
    assert!(q.incomplete().is_none());
    assert!(q.inconsistent().is_none());
}

#[test]
fn prior_messages_match_their_kind() {
    let p = kcat(None, None, None, None);
    assert_eq!(
        p.incomplete().unwrap(),
        "Incomplete prior spec. Either exploc AND scale or pct1 AND pct99 must be specified."
    );
    let d = Drain {
        reaction: "dr".to_string(),
        experiment: "batch1".to_string(),
        location: None,
        scale: None,
        pct1: None,
        pct99: None,
    };
    assert_eq!(
        d.incomplete().unwrap(),
        "Incomplete prior spec. Both exploc and scale must be specified."
    );
    let c = ConcEnzyme {
        enzyme: "E1".to_string(),
        experiment: "batch1".to_string(),
        exploc: bits(1.0),
        scale: bits(1.0),
        pct1: bits(1.0),
        pct99: None,
    };
    assert_eq!(
        c.inconsistent().unwrap(),
        "There are extra parameters specified. exploc and scale take precedence over percentiles!"
    );
}

#[test]
fn mean_form_prefers_location_pair() {
    let km = KmPrior {
        metabolite: "g6p".to_string(),
        compartment: "c".to_string(),
        enzyme: "E1".to_string(),
        exploc: bits(2.0),
        scale: bits(0.5),
        pct1: bits(1.0),
        pct99: bits(9.0),
    };
    assert_eq!(km.mean(), MeanForm::FromLocation(2.0f64.to_bits()));
}

#[test]
fn mean_form_falls_back_to_percentiles() {
    let cu = ConcUnbalanced {
        metabolite: "g6p".to_string(),
        compartment: "c".to_string(),
        experiment: "batch1".to_string(),
        exploc: bits(2.0),
        scale: None,
        pct1: bits(1.0),
        pct99: bits(9.0),
    };
    assert_eq!(cu.mean(), MeanForm::FromPercentiles(1.0f64.to_bits(), 9.0f64.to_bits()));
    let none = ConcUnbalanced {
        metabolite: "g6p".to_string(),
        compartment: "c".to_string(),
        experiment: "batch1".to_string(),
        exploc: bits(2.0),
        scale: None,
        pct1: None,
        pct99: bits(9.0),
    };
    assert_eq!(none.mean(), MeanForm::Undefined);
}

#[test]
fn square_check() {
    let m = vec![vec![0u64; 3], vec![0u64; 3], vec![0u64; 3]];
    assert!(is_square(&m));
    let n = vec![vec![0u64; 2], vec![0u64; 3], vec![0u64; 3]];
    assert!(!is_square(&n));
}

#[test]
fn dgf_shape_checks_fire_in_order() {
    let mk = |ids: Vec<&str>, mean: Vec<f64>, cov: Vec<Vec<f64>>| Dgf {
        ids: ids.into_iter().map(str::to_string).collect(),
        mean_vector: mean.into_iter().map(f64::to_bits).collect(),
        covariance_matrix: cov
            .into_iter()
            .map(|row| row.into_iter().map(f64::to_bits).collect())
            .collect(),
    };
    let not_square = mk(vec!["a"], vec![0.0], vec![vec![1.0, 0.5]]);
    assert_eq!(not_square.incomplete(true), Some("Covariance matrix is not square."));
    let square = mk(vec!["a", "b"], vec![0.0, 0.0], vec![vec![1.0, 0.5], vec![0.5, 1.0]]);
    assert_eq!(
        square.incomplete(false),
        Some("Covariance matrix is not positive definite.")
    );
    let bad_mean = mk(vec!["a", "b"], vec![0.0], vec![vec![1.0, 0.5], vec![0.5, 1.0]]);
    assert_eq!(
        bad_mean.incomplete(true),
        Some("Ids and mean vector have different lengths.")
    );
    let bad_ids = mk(vec!["a"], vec![0.0], vec![vec![1.0, 0.5], vec![0.5, 1.0]]);
    assert_eq!(
        bad_ids.incomplete(true),
        Some("Ids and covariance matrix have different lengths.")
    );
    let empty_matrix = mk(vec!["a"], vec![0.0], vec![]);
    assert_eq!(
        empty_matrix.incomplete(true),
        Some("Ids and covariance matrix have different lengths.")
    );
    let ok = mk(vec!["a", "b"], vec![0.0, 0.0], vec![vec![1.0, 0.5], vec![0.5, 1.0]]);
    assert_eq!(ok.incomplete(true), None);
}

#[test]
fn bitwise_double_ordering_matches_hardware() {
    let cases: &[(f64, f64)] = &[
        (1.0, 2.0),
        (2.0, 1.0),
        (-1.0, 1.0),
        (1.0, -1.0),
        (-2.0, -1.0),
        (-1.0, -2.0),
        (0.0, -0.0),
        (-0.0, 0.0),
        (0.0, 0.0),
        (f64::NAN, 1.0),
        (1.0, f64::NAN),
        (f64::INFINITY, 1.0),
        (1.0, f64::INFINITY),
        (f64::NEG_INFINITY, -1.0e300),
        (1.0e-308, 2.0e-308),
    ];
    for &(a, b) in cases {
        assert_eq!(f64_lt(a.to_bits(), b.to_bits()), a < b, "{} < {}", a, b);
    }
}

#[test]
fn bitwise_single_predicates_match_hardware() {
    let values: &[f32] = &[1.0, -1.0, 2.0, -2.0, 0.0, -0.0, 0.5, -0.5, f32::NAN, f32::INFINITY];
    for &v in values {
        assert_eq!(f32_is_negative(v.to_bits()), v < 0.0, "{}", v);
        assert_eq!(f32_is_unit(v.to_bits()), v == 1.0 || v == -1.0, "{}", v);
    }
}
