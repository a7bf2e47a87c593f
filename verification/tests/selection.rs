use xkcd_cli::selector::pick_random_id;
use xkcd_cli::selector::request_from_flags;
use xkcd_cli::selector::step_after_latest;
use xkcd_cli::selector::SelectionRequest;
use xkcd_cli::selector::SelectionStep;

#[test]
fn request_from_flags_prefers_latest() {
    assert_eq!(request_from_flags(true, false, 7), Some(SelectionRequest::Latest));
    assert_eq!(request_from_flags(true, true, 7), Some(SelectionRequest::Latest));
}

#[test]
fn request_from_flags_random_carries_seed() {
    assert_eq!(request_from_flags(false, true, 7), Some(SelectionRequest::Random { seed: 7 }));
}

#[test]
fn request_from_flags_rejects_no_flag() {
    assert_eq!(request_from_flags(false, false, 7), None);
}

#[test]
fn random_selection_fixture_seed_16() {
    assert_eq!(pick_random_id(16, 1000), Some(925));
}

#[test]
fn random_selection_is_deterministic() {
    let first = pick_random_id(16, 1000);
    let second = pick_random_id(16, 1000);
    assert_eq!(first, second);
    let first = pick_random_id(99, 2000);
    let second = pick_random_id(99, 2000);
    assert_eq!(first, second);
}

#[test]
fn random_selection_never_yields_excluded_ids() {
    let mut seed: u64 = 0;
    while seed < 300 {
        match pick_random_id(seed, 500) {
            Some(v) => assert!(v != 0 && v != 404 && 1 <= v && v <= 500),
            None => panic!("selection gave up on seed {}", seed),
        }
        seed += 1;
    }
}

#[test]
fn random_selection_with_bound_one_is_one() {
    let mut seed: u64 = 0;
    while seed < 50 {
        assert_eq!(pick_random_id(seed, 1), Some(1));
        seed += 1;
    }
}

#[test]
fn step_after_latest_answers_latest_directly() {
    assert_eq!(step_after_latest(&SelectionRequest::Latest, 3000), Some(SelectionStep::UseLatest));
}

#[test]
fn step_after_latest_draws_for_random() {
    let picked = pick_random_id(16, 1000).unwrap();
    assert_eq!(
        step_after_latest(&SelectionRequest::Random { seed: 16 }, 1000),
        Some(SelectionStep::FetchId(picked))
    );
    assert_eq!(
        step_after_latest(&SelectionRequest::Random { seed: 16 }, 1000),
        Some(SelectionStep::FetchId(925))
    );
}
