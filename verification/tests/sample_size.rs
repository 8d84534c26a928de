use random_chains::sample::kept_count;
use random_chains::SampleState;

/// A deterministic stand-in for the random draws: values of a power law
/// `xi^(1 / (exponent + 1))` with `xi` in (0, 1] and the exponent in [-3, -2],
/// which are never below 1.
struct PowerLawDraws {
    seed: u64,
}

impl PowerLawDraws {
    fn next(&mut self) -> f64 {
        self.seed = self.seed.wrapping_mul(6364136223846793005).wrapping_add(1442695040888963407);
        let xi = ((self.seed >> 11) as f64 + 1.0) / (1u64 << 53) as f64;
        self.seed = self.seed.wrapping_mul(6364136223846793005).wrapping_add(1442695040888963407);
        let exponent = -3.0 + ((self.seed >> 11) as f64) / (1u64 << 53) as f64;
        xi.powf(1.0 / (exponent + 1.0))
    }
}

/// Draws one sample the way the simulation does: a draw is offered with the
/// budget test on the total of the values kept before it.
fn draw_sample(min_size: usize, max_size: usize, max_total: f64, draws: &mut PowerLawDraws) -> Vec<f64> {
    let mut state = SampleState::new(min_size, max_size);
    let mut total = 0.0;
    let mut values = Vec::new();
    while state.wants_draw() {
        let x = draws.next();
        if !state.offer(total < max_total) {
            break;
        }
        total += x;
        values.push(x);
    }
    assert_eq!(values.len(), state.len());
    values
}

const N_REPLICAS: u64 = 10000;

#[test]
fn check_max_size() {
    for seed in 0..N_REPLICAS {
        let mut draws = PowerLawDraws { seed };
        let smpl = draw_sample(0, 10, f64::INFINITY, &mut draws);
        assert_eq!(smpl.len(), 10, "sample = {:?}", smpl);
    }
}

#[test]
fn check_max_1() {
    for seed in 0..N_REPLICAS {
        let mut draws = PowerLawDraws { seed };
        let smpl = draw_sample(0, 10, 0.5, &mut draws);
        assert_eq!(smpl.len(), 1);
    }
}

#[test]
fn check_max_4() {
    for seed in 0..N_REPLICAS {
        let mut draws = PowerLawDraws { seed };
        let smpl = draw_sample(0, 10, 3.5, &mut draws);
        assert!(smpl.len() <= 4);
    }
}

#[test]
fn min_size_is_kept_over_budget() {
    for seed in 0..100 {
        let mut draws = PowerLawDraws { seed };
        let smpl = draw_sample(3, 10, 0.0, &mut draws);
        assert_eq!(smpl.len(), 3);
    }
}

#[test]
fn max_size_zero_draws_nothing() {
    let state = SampleState::new(5, 0);
    assert!(!state.wants_draw());
    assert_eq!(state.len(), 0);
    assert_eq!(kept_count(5, 0, &vec![true, true]), 0);
}

#[test]
fn refused_draw_ends_sample() {
    let mut state = SampleState::new(1, 10);
    assert!(state.wants_draw());
    assert!(state.offer(false));
    assert_eq!(state.len(), 1);
    assert!(state.offer(true));
    assert!(!state.offer(false));
    assert_eq!(state.len(), 2);
    assert!(!state.wants_draw());
}

#[test]
fn kept_count_unbounded_budget() {
    assert_eq!(kept_count(0, 10, &vec![true; 20]), 10);
    assert_eq!(kept_count(0, 10, &vec![true; 5]), 5);
    assert_eq!(kept_count(4, 3, &vec![true; 8]), 3);
}

#[test]
fn kept_count_stops_at_first_refusal() {
    assert_eq!(kept_count(0, 10, &vec![true, false, true]), 1);
    assert_eq!(kept_count(1, 10, &vec![true, true, true, false, true, true]), 3);
    assert_eq!(kept_count(0, 10, &vec![false, true]), 0);
}

#[test]
fn kept_count_honours_min_size() {
    assert_eq!(kept_count(2, 10, &vec![false, false, false, false]), 2);
    assert_eq!(kept_count(5, 10, &vec![false, false, false]), 3);
    assert_eq!(kept_count(2, 1, &vec![false, false]), 1);
}
