use yaya_word::algorithm::{
    calculate_next_review, parse_rating, InvalidRating, Rating, MAX_DIFFICULTY, MAX_STABILITY,
    MIN_DIFFICULTY, MIN_SCHEDULED_STABILITY,
};

const T: i64 = 1_700_000_000_000;
const MINUTE: i64 = 60_000;
const DAY: u64 = 1_000_000;

#[test]
fn rating_codes_decode() {
    assert_eq!(Rating::from_i32(1), Some(Rating::Again));
    assert_eq!(Rating::from_i32(2), Some(Rating::Hard));
    assert_eq!(Rating::from_i32(3), Some(Rating::Good));
    assert_eq!(Rating::from_i32(4), Some(Rating::Easy));
    for code in [0, 5, -1, i32::MAX, i32::MIN] {
        assert_eq!(Rating::from_i32(code), None);
    }
}

#[test]
fn rating_round_trip() {
    for r in [Rating::Again, Rating::Hard, Rating::Good, Rating::Easy] {
        assert_eq!(parse_rating(r.code()), Ok(r));
    }
    assert_eq!(Rating::Again.code(), 1);
    assert_eq!(Rating::Easy.code(), 4);
}

#[test]
fn invalid_rating_is_reported() {
    assert_eq!(parse_rating(0), Err(InvalidRating { code: 0 }));
    assert_eq!(parse_rating(5), Err(InvalidRating { code: 5 }));
    assert_eq!(parse_rating(-1), Err(InvalidRating { code: -1 }));
}

#[test]
fn new_item_rated_good() {
    let r = calculate_next_review(0, 0, Rating::Good, T);
    assert_eq!(r.new_stability, 3 * DAY);
    assert_eq!(r.new_difficulty, 1000);
    assert_eq!(r.next_due, T + 4320 * MINUTE);
}

#[test]
fn reviewed_item_rated_good() {
    let r = calculate_next_review(3 * DAY, 1000, Rating::Good, T);
    assert_eq!(r.new_difficulty, 1000);
    assert_eq!(r.new_stability, 9 * DAY);
    assert_eq!(r.next_due, T + 12960 * MINUTE);
}

#[test]
fn reviewed_item_lapses() {
    let r = calculate_next_review(5 * DAY, 8000, Rating::Again, T);
    assert_eq!(r.new_difficulty, 8400);
    assert_eq!(r.new_stability, DAY / 2);
    assert_eq!(r.next_due, T + 3000);
}

#[test]
fn difficulty_stays_clamped() {
    for r in [Rating::Again, Rating::Hard, Rating::Good, Rating::Easy] {
        for d in [i64::MIN, -5000, 0, 1000, 5500, 10000, 99_999, i64::MAX] {
            let out = calculate_next_review(2 * DAY, d, r, T);
            assert!(MIN_DIFFICULTY <= out.new_difficulty && out.new_difficulty <= MAX_DIFFICULTY);
        }
    }
    assert_eq!(calculate_next_review(2 * DAY, 9900, Rating::Again, T).new_difficulty, 10000);
    assert_eq!(calculate_next_review(2 * DAY, 1050, Rating::Easy, T).new_difficulty, 1000);
}

#[test]
fn difficulty_moves_by_rating() {
    assert_eq!(calculate_next_review(2 * DAY, 5000, Rating::Again, T).new_difficulty, 5400);
    assert_eq!(calculate_next_review(2 * DAY, 5000, Rating::Hard, T).new_difficulty, 5200);
    assert_eq!(calculate_next_review(2 * DAY, 5000, Rating::Good, T).new_difficulty, 4900);
    assert_eq!(calculate_next_review(2 * DAY, 5000, Rating::Easy, T).new_difficulty, 4700);
}

#[test]
fn new_items_take_seed_stability() {
    assert_eq!(calculate_next_review(0, 0, Rating::Again, T).new_stability, DAY / 10);
    assert_eq!(calculate_next_review(0, 0, Rating::Hard, T).new_stability, DAY);
    assert_eq!(calculate_next_review(0, 0, Rating::Good, T).new_stability, 3 * DAY);
    assert_eq!(calculate_next_review(0, 7000, Rating::Easy, T).new_stability, 7 * DAY);
    assert_eq!(calculate_next_review(0, 0, Rating::Hard, T).next_due, T + 1440 * MINUTE);
    assert_eq!(calculate_next_review(0, 0, Rating::Again, T).next_due, T + 3000);
}

#[test]
fn lapse_ignores_old_stability() {
    for s in [1, DAY / 2, 123_456_789, MAX_STABILITY] {
        let r = calculate_next_review(s, 3000, Rating::Again, T);
        assert_eq!(r.new_stability, DAY / 2);
        assert_eq!(r.next_due, T + 3000);
    }
}

#[test]
fn hard_grows_by_a_fifth() {
    let r = calculate_next_review(DAY, 5000, Rating::Hard, T);
    assert_eq!(r.new_stability, 1_200_000);
    assert_eq!(r.next_due, T + 1728 * MINUTE);
}

#[test]
fn lower_difficulty_grows_faster() {
    let easy_word = calculate_next_review(3 * DAY, 2000, Rating::Good, T);
    let hard_word = calculate_next_review(3 * DAY, 6000, Rating::Good, T);
    assert_eq!(easy_word.new_stability, 8_460_000);
    assert_eq!(hard_word.new_stability, 6_060_000);
    assert!(easy_word.new_stability > hard_word.new_stability);
}

#[test]
fn close_difficulties_stay_apart() {
    let a = calculate_next_review(DAY / 10, 5101, Rating::Good, T);
    let b = calculate_next_review(DAY / 10, 5110, Rating::Good, T);
    assert_eq!(a.new_stability, 219_980);
    assert_eq!(b.new_stability, 219_800);
}

#[test]
fn easy_outgrows_good() {
    let easy = calculate_next_review(3 * DAY, 5000, Rating::Easy, T);
    let good = calculate_next_review(3 * DAY, 5000, Rating::Good, T);
    assert_eq!(easy.new_stability, 9_300_000);
    assert_eq!(good.new_stability, 6_660_000);
    assert!(easy.new_stability > good.new_stability);
    let easy_new = calculate_next_review(0, 0, Rating::Easy, T);
    let good_new = calculate_next_review(0, 0, Rating::Good, T);
    assert!(easy_new.new_stability > good_new.new_stability);
    let easy_small = calculate_next_review(1000, 10300, Rating::Easy, T);
    let good_small = calculate_next_review(1000, 10300, Rating::Good, T);
    assert!(easy_small.new_stability > good_small.new_stability);
}

#[test]
fn due_uses_untruncated_stability() {
    let r = calculate_next_review(DAY, 1000, Rating::Easy, T);
    assert_eq!(r.new_difficulty, 1000);
    assert_eq!(r.new_stability, 4_333_333);
    assert_eq!(r.next_due, T + 6240 * MINUTE);
}

#[test]
fn fractional_minutes_truncate() {
    let r = calculate_next_review(DAY, 5000, Rating::Easy, T);
    assert_eq!(r.new_stability, 3_100_000);
    assert_eq!(r.next_due, T + 4464 * MINUTE);
    let q = calculate_next_review(1_000_500, 4000, Rating::Good, T);
    assert_eq!(q.new_stability, 2_421_210);
    assert_eq!(q.next_due, T + 3486 * MINUTE);
}

#[test]
fn scheduled_stability_keeps_its_floor() {
    let r = calculate_next_review(MIN_SCHEDULED_STABILITY, 10000, Rating::Hard, T);
    assert_eq!(r.new_stability, 120_000);
    assert!(r.next_due > T);
}

#[test]
fn largest_stability_fits() {
    let r = calculate_next_review(MAX_STABILITY, 0, Rating::Easy, T);
    assert_eq!(r.new_stability, 4_333_333_333_333_333);
    assert_eq!(r.next_due, T + 6_240_000_000_000 * MINUTE);
}
