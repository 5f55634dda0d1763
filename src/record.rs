//! The lifecycle record of one item that a learner studies.
use vstd::prelude::*;
use crate::algorithm::{
    calculate_next_review, due_offset, next_difficulty, next_stability, parse_rating,
    rating_of, InvalidRating, Rating, MAX_INSTANT, MAX_STABILITY, MIN_SCHEDULED_STABILITY,
};

verus! {

/// Whether an item has been reviewed yet.
#[derive(Debug, Clone, Copy, PartialEq, Eq, Structural)]
pub enum LearningStatus {
    New,
    Learning,
}

/// A word that a learner studies, with its memory state.
///
/// Stability is in millionths of a day, difficulty in thousandths, and
/// instants are milliseconds since the Unix epoch, UTC.
#[derive(Debug, Clone, Copy, PartialEq, Eq, Structural)]
pub struct UserWord {
    pub id: i32,
    pub master_word_id: i32,
    pub stability: u64,
    pub difficulty: i64,
    pub due: i64,
    pub status: LearningStatus,
    pub last_review: Option<i64>,
    pub added_at: i64,
}

/// The record of a word just added to study at `now`.
pub open spec fn fresh_word(master_word_id: i32, now: i64) -> UserWord {
    UserWord {
        id: 0,
        master_word_id,
        stability: 0,
        difficulty: 0,
        due: now,
        status: LearningStatus::New,
        last_review: None,
        added_at: now,
    }
}

impl UserWord {
    /// A word just added to study at `now`: never reviewed, due at once,
    /// with zero stability and a difficulty not yet set. Its `id` is zero
    /// until the store assigns one.
    pub fn new_learning(master_word_id: i32, now: i64) -> (r: UserWord)
        ensures
            r.id == 0,
            r.master_word_id == master_word_id,
            r.stability == 0,
            r.difficulty == 0,
            r.due == now,
            r.status == LearningStatus::New,
            r.last_review is None,
            r.added_at == now,
            r == fresh_word(master_word_id, now),
    {
        UserWord {
            id: 0,
            master_word_id,
            stability: 0,
            difficulty: 0,
            due: now,
            status: LearningStatus::New,
            last_review: None,
            added_at: now,
        }
    }

    /// Whether the word is due for review at `now`.
    pub fn is_due(&self, now: i64) -> (r: bool)
        ensures
            r == (self.due <= now),
    {
        self.due <= now
    }

    /// Records a review with `rating` at `now`: the memory state and due
    /// instant come from the scheduler, and the word is no longer new.
    pub fn apply_review(&mut self, rating: Rating, now: i64)
        requires
            old(self).stability <= MAX_STABILITY,
            now <= MAX_INSTANT,
        ensures
            final(self).difficulty == next_difficulty(old(self).difficulty as int, rating),
            final(self).stability == next_stability(
                old(self).stability as int,
                final(self).difficulty as int,
                rating,
            ),
            final(self).due == now + due_offset(
                old(self).stability as int,
                final(self).difficulty as int,
                rating,
            ),
            final(self).last_review == Some(now),
            final(self).status == LearningStatus::Learning,
            final(self).id == old(self).id,
            final(self).master_word_id == old(self).master_word_id,
            final(self).added_at == old(self).added_at,
            final(self).stability > 0,
            final(self).due >= now,
            old(self).stability == 0 || old(self).stability >= MIN_SCHEDULED_STABILITY ==> {
                &&& final(self).stability >= MIN_SCHEDULED_STABILITY
                &&& final(self).due > now
            },
    {
        let result = calculate_next_review(self.stability, self.difficulty, rating, now);
        self.stability = result.new_stability;
        self.difficulty = result.new_difficulty;
        self.due = result.next_due;
        self.last_review = Some(now);
        self.status = LearningStatus::Learning;
    }

    /// Records a review given by its rating code. A code outside `1..=4`
    /// is reported and leaves the word as it was.
    pub fn apply_rating_code(&mut self, code: i32, now: i64) -> (r: Result<(), InvalidRating>)
        requires
            old(self).stability <= MAX_STABILITY,
            now <= MAX_INSTANT,
        ensures
            (1 <= code <= 4) <==> r is Ok,
            r matches Err(e) ==> e.code == code && *final(self) == *old(self),
            r is Ok ==> ({
                let rating = rating_of(code as int)->0;
                &&& final(self).difficulty == next_difficulty(old(self).difficulty as int, rating)
                &&& final(self).stability == next_stability(
                    old(self).stability as int,
                    final(self).difficulty as int,
                    rating,
                )
                &&& final(self).due == now + due_offset(
                    old(self).stability as int,
                    final(self).difficulty as int,
                    rating,
                )
                &&& final(self).last_review == Some(now)
                &&& final(self).status == LearningStatus::Learning
                &&& final(self).id == old(self).id
                &&& final(self).master_word_id == old(self).master_word_id
                &&& final(self).added_at == old(self).added_at
            }),
    {
        match parse_rating(code) {
            Ok(rating) => {
                self.apply_review(rating, now);
                Ok(())
            },
            Err(e) => Err(e),
        }
    }
}

/// Fresh records for the words `master_ids`, in order, all added at `now`.
pub fn new_learning_words(master_ids: &Vec<i32>, now: i64) -> (r: Vec<UserWord>)
    ensures
        r@.len() == master_ids@.len(),
        forall|i: int| 0 <= i < r@.len() ==> r@[i] == fresh_word(master_ids@[i], now),
{
    let mut words: Vec<UserWord> = Vec::new();
    let mut k: usize = 0;
    while k < master_ids.len()
        invariant
            k <= master_ids@.len(),
            words@.len() == k,
            forall|i: int| 0 <= i < k ==> words@[i] == fresh_word(master_ids@[i], now),
        decreases master_ids@.len() - k,
    {
        words.push(UserWord::new_learning(master_ids[k], now));
        k = k + 1;
    }
    words
}

} // verus!
