use random_chains::ScoreMethod;

#[test]
fn from_name_lower_case() {
    assert_eq!(ScoreMethod::from_name("welford"), Some(ScoreMethod::Welford));
    assert_eq!(ScoreMethod::from_name("squares"), Some(ScoreMethod::Squares));
}

#[test]
fn from_name_ignores_case() {
    assert_eq!(ScoreMethod::from_name("Welford"), Some(ScoreMethod::Welford));
    assert_eq!(ScoreMethod::from_name("WELFORD"), Some(ScoreMethod::Welford));
    assert_eq!(ScoreMethod::from_name("SqUaReS"), Some(ScoreMethod::Squares));
}

#[test]
fn from_name_unknown() {
    assert_eq!(ScoreMethod::from_name(""), None);
    assert_eq!(ScoreMethod::from_name("welf"), None);
    assert_eq!(ScoreMethod::from_name("welfords"), None);
    assert_eq!(ScoreMethod::from_name("squares "), None);
    assert_eq!(ScoreMethod::from_name("mean"), None);
    assert_eq!(ScoreMethod::from_name("wélford"), None);
}
