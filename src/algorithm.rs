//! The review scheduler.
//!
//! Quantities are fixed point: stability is held in millionths of a day
//! (`3_000_000` is three days) and difficulty in thousandths (`8400` is
//! 8.4). Instants are milliseconds since the Unix epoch, UTC.
use vstd::prelude::*;

verus! {

/// The learner's judgment of how well an item was recalled, worst first.
#[derive(Debug, Clone, Copy, PartialEq, Eq, Structural)]
pub enum Rating {
    Again,
    Hard,
    Good,
    Easy,
}

/// The stable integer code of each rating.
pub open spec fn code_of(r: Rating) -> int {
    match r {
        Rating::Again => 1,
        Rating::Hard => 2,
        Rating::Good => 3,
        Rating::Easy => 4,
    }
}

/// The rating whose code is `v`, if any.
pub open spec fn rating_of(v: int) -> Option<Rating> {
    if v == 1 {
        Some(Rating::Again)
    } else if v == 2 {
        Some(Rating::Hard)
    } else if v == 3 {
        Some(Rating::Good)
    } else if v == 4 {
        Some(Rating::Easy)
    } else {
        None
    }
}

/// A rating code outside `1..=4`.
#[derive(Debug, Clone, Copy, PartialEq, Eq, Structural)]
pub struct InvalidRating {
    pub code: i32,
}

impl Rating {
    /// Decodes a rating code; `None` for anything but `1..=4`.
    pub fn from_i32(v: i32) -> (r: Option<Rating>)
        ensures
            r == rating_of(v as int),
    {
        match v {
            1 => Some(Rating::Again),
            2 => Some(Rating::Hard),
            3 => Some(Rating::Good),
            4 => Some(Rating::Easy),
            _ => None,
        }
    }

    /// The integer code of this rating.
    pub fn code(self) -> (r: i32)
        ensures
            r as int == code_of(self),
    {
        match self {
            Rating::Again => 1,
            Rating::Hard => 2,
            Rating::Good => 3,
            Rating::Easy => 4,
        }
    }
}

/// Decodes a rating code, reporting a code outside `1..=4` as an error
/// instead of substituting a default rating.
pub fn parse_rating(code: i32) -> (r: Result<Rating, InvalidRating>)
    ensures
        (1 <= code <= 4) <==> r is Ok,
        r matches Ok(rating) ==> Some(rating) == rating_of(code as int),
        r matches Err(e) ==> e.code == code,
{
    match Rating::from_i32(code) {
        Some(rating) => Ok(rating),
        None => Err(InvalidRating { code }),
    }
}

/// Decoding the code of a rating gives the rating back, and exactly the
/// codes `1..=4` decode.
pub proof fn lemma_rating_round_trip(r: Rating, v: int)
    ensures
        rating_of(code_of(r)) == Some(r),
        rating_of(v) is Some <==> 1 <= v <= 4,
        rating_of(v) matches Some(q) ==> code_of(q) == v,
{
}

/// Difficulty is held within `[MIN_DIFFICULTY, MAX_DIFFICULTY]`, 1.0 to 10.0.
pub const MIN_DIFFICULTY: i64 = 1000;

pub const MAX_DIFFICULTY: i64 = 10000;

/// Stability units in one day.
pub const STABILITY_PER_DAY: u64 = 1_000_000;

/// The largest stability accepted, a billion days.
pub const MAX_STABILITY: u64 = 1_000_000_000_000_000;

/// The least stability that the scheduler gives from a new item or from
/// one it scheduled before: a tenth of a day.
pub const MIN_SCHEDULED_STABILITY: u64 = 100_000;

/// The latest review instant accepted, so that every due instant fits.
pub const MAX_INSTANT: i64 = 8_000_000_000_000_000_000;

/// How far ahead a lapsed item is shown again: three seconds.
pub const RELEARN_DELAY_MS: i64 = 3000;

/// The outcome of one review: the new memory state and when it is due.
#[derive(Debug, Clone, Copy, PartialEq, Eq, Structural)]
pub struct ReviewResult {
    /// Millionths of a day.
    pub new_stability: u64,
    /// Thousandths, within `[MIN_DIFFICULTY, MAX_DIFFICULTY]`.
    pub new_difficulty: i64,
    /// Milliseconds since the Unix epoch.
    pub next_due: i64,
}

pub open spec fn clamp(x: int, lo: int, hi: int) -> int {
    if x < lo {
        lo
    } else if x > hi {
        hi
    } else {
        x
    }
}

/// How a rating moves difficulty: failures raise it, successes lower it.
pub open spec fn difficulty_delta(r: Rating) -> int {
    match r {
        Rating::Again => 400,
        Rating::Hard => 200,
        Rating::Good => -100,
        Rating::Easy => -300,
    }
}

/// The difficulty after a review, before stability is updated.
pub open spec fn next_difficulty(d: int, r: Rating) -> int {
    clamp(d + difficulty_delta(r), MIN_DIFFICULTY as int, MAX_DIFFICULTY as int)
}

/// The stability given to an item on its first review: 0.1, 1, 3 and 7
/// days from `Again` to `Easy`.
pub open spec fn seed_stability(r: Rating) -> int {
    match r {
        Rating::Again => 100_000,
        Rating::Hard => 1_000_000,
        Rating::Good => 3_000_000,
        Rating::Easy => 7_000_000,
    }
}

/// The numerator of the factor by which a successful review multiplies
/// stability, given the updated difficulty `d`: `Hard` multiplies it by
/// 1.2, `Good` by `1 + (11 - d) / 5` and `Easy` by `1 + (11 - d) / 3`.
pub open spec fn growth_num(d: int, r: Rating) -> int {
    match r {
        Rating::Again => 1,
        Rating::Hard => 6,
        Rating::Good => 16000 - d,
        Rating::Easy => 14000 - d,
    }
}

/// The denominator of that factor.
pub open spec fn growth_den(r: Rating) -> int {
    match r {
        Rating::Again => 1,
        Rating::Hard => 5,
        Rating::Good => 5000,
        Rating::Easy => 3000,
    }
}

/// The stability of an item reviewed before, from its stability `s` and
/// its updated difficulty `d`: a lapse resets it to half a day, a success
/// multiplies it by the growth factor, truncated to a millionth of a day.
pub open spec fn grown_stability(s: int, d: int, r: Rating) -> int {
    match r {
        Rating::Again => 500_000,
        _ => s * growth_num(d, r) / growth_den(r),
    }
}

/// The stability after a review; a stability of zero marks a new item.
pub open spec fn next_stability(s: int, d: int, r: Rating) -> int {
    if s == 0 {
        seed_stability(r)
    } else {
        grown_stability(s, d, r)
    }
}

/// Whole minutes from a successful review to the next due instant: the new
/// stability, exactly as the seed or the product with the growth factor,
/// read as a number of days and truncated to whole minutes.
pub open spec fn due_minutes(s: int, d: int, r: Rating) -> int {
    if s == 0 {
        seed_stability(r) * 1440 / STABILITY_PER_DAY as int
    } else {
        s * growth_num(d, r) * 1440 / (growth_den(r) * STABILITY_PER_DAY)
    }
}

/// Milliseconds from a review to the next due instant, from the stability
/// `s` before the review and the updated difficulty `d`: a lapse is shown
/// again shortly, a success after `due_minutes`.
pub open spec fn due_offset(s: int, d: int, r: Rating) -> int {
    match r {
        Rating::Again => RELEARN_DELAY_MS as int,
        _ => due_minutes(s, d, r) * 60000,
    }
}

/// Bounds on the stability that one review gives, and on how far ahead it
/// schedules the next one.
proof fn lemma_next_review_bounds(s: int, d: int, r: Rating)
    requires
        0 <= s <= MAX_STABILITY,
        MIN_DIFFICULTY <= d <= MAX_DIFFICULTY,
    ensures
        1 <= next_stability(s, d, r) <= 13 * MAX_STABILITY / 3,
        0 <= due_minutes(s, d, r) <= 7_000_000_000_000,
        s == 0 || s >= MIN_SCHEDULED_STABILITY ==> next_stability(s, d, r)
            >= MIN_SCHEDULED_STABILITY && due_minutes(s, d, r) >= 144,
{
    if s == 0 {
        assert(due_minutes(s, d, r) >= 144);
    } else {
        let num = growth_num(d, r);
        let den = growth_den(r);
        assert(den <= num <= 15000 && num * 3 <= den * 13 && 1 <= den <= 5000) by {
            match r {
                Rating::Again => {},
                Rating::Hard => {},
                Rating::Good => {},
                Rating::Easy => {},
            }
        }
        assert(1 <= s * num / den <= 13 * MAX_STABILITY / 3) by (nonlinear_arith)
            requires
                1 <= s <= MAX_STABILITY,
                1 <= den <= num,
                num * 3 <= den * 13,
        ;
        assert(0 <= s * num * 1440 / (den * 1_000_000) <= 7_000_000_000_000) by (nonlinear_arith)
            requires
                1 <= s <= MAX_STABILITY,
                1 <= den <= num,
                num * 3 <= den * 13,
        ;
        if s >= MIN_SCHEDULED_STABILITY {
            assert(s * num / den >= MIN_SCHEDULED_STABILITY) by (nonlinear_arith)
                requires
                    s >= MIN_SCHEDULED_STABILITY,
                    1 <= den <= num,
            ;
            assert(s * num * 1440 / (den * 1_000_000) >= 144) by (nonlinear_arith)
                requires
                    s >= MIN_SCHEDULED_STABILITY,
                    1 <= den <= num,
            ;
        }
    }
}

/// Schedules the next review of an item from its stability and difficulty
/// and the recall rating given at `now`.
pub fn calculate_next_review(
    current_stability: u64,
    current_difficulty: i64,
    rating: Rating,
    now: i64,
) -> (r: ReviewResult)
    requires
        current_stability <= MAX_STABILITY,
        now <= MAX_INSTANT,
    ensures
        r.new_difficulty == next_difficulty(current_difficulty as int, rating),
        r.new_stability == next_stability(
            current_stability as int,
            r.new_difficulty as int,
            rating,
        ),
        r.next_due == now + due_offset(
            current_stability as int,
            r.new_difficulty as int,
            rating,
        ),
        MIN_DIFFICULTY <= r.new_difficulty <= MAX_DIFFICULTY,
        r.new_stability > 0,
        r.next_due >= now,
        current_stability == 0 || current_stability >= MIN_SCHEDULED_STABILITY ==> {
            &&& r.new_stability >= MIN_SCHEDULED_STABILITY
            &&& r.next_due > now
        },
{
    let d_delta: i64 = match rating {
        Rating::Again => 400,
        Rating::Hard => 200,
        Rating::Good => -100,
        Rating::Easy => -300,
    };
    let d: i64 = if current_difficulty > MAX_DIFFICULTY - d_delta {
        MAX_DIFFICULTY
    } else if current_difficulty < MIN_DIFFICULTY - d_delta {
        MIN_DIFFICULTY
    } else {
        current_difficulty + d_delta
    };
    proof {
        lemma_next_review_bounds(current_stability as int, d as int, rating);
    }
    let num: u64 = match rating {
        Rating::Again => 1,
        Rating::Hard => 6,
        Rating::Good => (16000 - d) as u64,
        Rating::Easy => (14000 - d) as u64,
    };
    let den: u64 = match rating {
        Rating::Again => 1,
        Rating::Hard => 5,
        Rating::Good => 5000,
        Rating::Easy => 3000,
    };
    let s: u64;
    let minutes: u64;
    if current_stability == 0 {
        s = match rating {
            Rating::Again => 100_000,
            Rating::Hard => 1_000_000,
            Rating::Good => 3_000_000,
            Rating::Easy => 7_000_000,
        };
        minutes = s * 1440 / STABILITY_PER_DAY;
    } else {
        assert(current_stability * num <= 15000 * MAX_STABILITY) by (nonlinear_arith)
            requires current_stability <= MAX_STABILITY, num <= 15000;
        let prod: u64 = current_stability * num;
        s = match rating {
            Rating::Again => 500_000,
            _ => prod / den,
        };
        assert((prod as u128) * 1440 <= 1440 * 15000 * MAX_STABILITY) by (nonlinear_arith)
            requires prod <= 15000 * MAX_STABILITY;
        minutes = ((prod as u128) * 1440 / ((den as u128) * (STABILITY_PER_DAY as u128))) as u64;
    }
    let next_due: i64 = match rating {
        Rating::Again => now + RELEARN_DELAY_MS,
        _ => now + (minutes * 60000) as i64,
    };
    ReviewResult { new_stability: s, new_difficulty: d, next_due }
}

/// Whatever the difficulty before it, the difficulty after a review lies
/// within `[MIN_DIFFICULTY, MAX_DIFFICULTY]`.
pub proof fn lemma_difficulty_clamped(d: int, r: Rating)
    ensures
        MIN_DIFFICULTY <= next_difficulty(d, r) <= MAX_DIFFICULTY,
{
}

/// Before clamping, `Again` raises difficulty more than `Hard` does, and
/// `Easy` lowers it more than `Good` does.
pub proof fn lemma_difficulty_response(d: int)
    ensures
        d + difficulty_delta(Rating::Again) > d + difficulty_delta(Rating::Hard) > d,
        d + difficulty_delta(Rating::Easy) < d + difficulty_delta(Rating::Good) < d,
{
}

/// A new item takes its stability from the seed table, whatever its
/// difficulty: 0.1, 1, 3 and 7 days from `Again` to `Easy`.
pub proof fn lemma_new_item_seeds(d: int, r: Rating)
    ensures
        next_stability(0, next_difficulty(d, r), r) == match r {
            Rating::Again => 100_000int,
            Rating::Hard => 1_000_000int,
            Rating::Good => 3_000_000int,
            Rating::Easy => 7_000_000int,
        },
{
}

/// A lapse on an item reviewed before resets its stability to half a day,
/// whatever it was, and makes it due again three seconds later.
pub proof fn lemma_lapse_collapse(s: int, d: int)
    requires
        s > 0,
    ensures
        next_stability(s, next_difficulty(d, Rating::Again), Rating::Again) == 500_000,
        due_offset(s, next_difficulty(d, Rating::Again), Rating::Again) == 3000,
{
}

/// With `Good` on an item reviewed before, a lower updated difficulty gives
/// a strictly larger stability wherever the stability is at least 5000
/// millionths of a day, which covers every stability from
/// `MIN_SCHEDULED_STABILITY` up. Below that, truncation to a millionth of
/// a day can make the two equal, and the lower difficulty never gives less.
pub proof fn lemma_good_growth_monotonic(s: int, d1: int, d2: int)
    requires
        0 < s <= MAX_STABILITY,
        next_difficulty(d1, Rating::Good) < next_difficulty(d2, Rating::Good),
    ensures
        s >= 5000 ==> next_stability(s, next_difficulty(d1, Rating::Good), Rating::Good)
            > next_stability(s, next_difficulty(d2, Rating::Good), Rating::Good),
        next_stability(s, next_difficulty(d1, Rating::Good), Rating::Good) >= next_stability(
            s,
            next_difficulty(d2, Rating::Good),
            Rating::Good,
        ),
{
    let n1 = next_difficulty(d1, Rating::Good);
    let n2 = next_difficulty(d2, Rating::Good);
    let a = s * (16000 - n1);
    let b = s * (16000 - n2);
    assert(a - b == s * (n2 - n1) && a > b && b >= 0) by (nonlinear_arith)
        requires
            a == s * (16000 - n1),
            b == s * (16000 - n2),
            s > 0,
            n1 < n2 <= MAX_DIFFICULTY,
    ;
    assert(a / 5000 >= b / 5000) by (nonlinear_arith)
        requires a > b, b >= 0;
    if s >= 5000 {
        assert(a >= b + 5000) by (nonlinear_arith)
            requires a - b == s * (n2 - n1), s >= 5000, n1 < n2;
        assert(a / 5000 > b / 5000) by (nonlinear_arith)
            requires a >= b + 5000, b >= 0;
    }
}

/// On the same item, `Easy` gives a strictly larger stability than `Good`
/// wherever the item is new or its stability is at least 8 millionths of a
/// day, which covers every stability from `MIN_SCHEDULED_STABILITY` up.
/// Below that, truncation to a millionth of a day can make the two equal,
/// and `Easy` never gives less.
pub proof fn lemma_easy_outgrows_good(s: int, d: int)
    requires
        0 <= s <= MAX_STABILITY,
    ensures
        s == 0 || s >= 8 ==> next_stability(s, next_difficulty(d, Rating::Easy), Rating::Easy)
            > next_stability(s, next_difficulty(d, Rating::Good), Rating::Good),
        next_stability(s, next_difficulty(d, Rating::Easy), Rating::Easy) >= next_stability(
            s,
            next_difficulty(d, Rating::Good),
            Rating::Good,
        ),
{
    if s > 0 {
        let ne = next_difficulty(d, Rating::Easy);
        let ng = next_difficulty(d, Rating::Good);
        assert(ne <= ng);
        let a = s * (14000 - ne);
        let b = s * (16000 - ng);
        assert(5 * a >= 3 * b + 2000 * s && b >= 0) by (nonlinear_arith)
            requires
                a == s * (14000 - ne),
                b == s * (16000 - ng),
                s >= 1,
                ne <= ng <= MAX_DIFFICULTY,
        ;
        assert(a / 3000 >= b / 5000) by (nonlinear_arith)
            requires 5 * a >= 3 * b, b >= 0;
        if s >= 8 {
            assert(a / 3000 > b / 5000) by (nonlinear_arith)
                requires 5 * a >= 3 * b + 15000, b >= 0;
        }
    }
}

} // verus!
