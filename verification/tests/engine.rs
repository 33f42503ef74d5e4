use pincher_core::engine::best_match;

fn bits(v: &[f64]) -> Vec<u64> {
    v.iter().map(|x| x.to_bits()).collect()
}

#[test]
fn best_match_takes_the_first_most_similar() {
    assert_eq!(best_match(&bits(&[0.1, 0.5, 0.9, 0.9, 0.2])), Some(2));
    assert_eq!(best_match(&bits(&[0.35, 0.31])), Some(0));
    assert_eq!(best_match(&bits(&[0.31, 0.35])), Some(1));
}

#[test]
fn below_threshold_is_no_match() {
    assert_eq!(best_match(&bits(&[0.1, 0.29, -0.9])), None);
    assert_eq!(best_match(&bits(&[])), None);
    assert_eq!(best_match(&bits(&[0.3])), Some(0));
    assert_eq!(best_match(&bits(&[f64::NAN, 0.4])), Some(1));
    assert_eq!(best_match(&bits(&[f64::NAN])), None);
}
