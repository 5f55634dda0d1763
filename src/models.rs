//! What the review screen shows of a word.
use vstd::prelude::*;
use crate::record::UserWord;

verus! {

/// An entry of the master word list.
#[derive(Debug, Clone, PartialEq, Eq)]
pub struct MasterWord {
    pub id: i32,
    pub text: String,
    pub definition: String,
    pub pronunciation: Option<String>,
    pub audio_url: Option<String>,
    /// The label of the list the entry came from.
    pub source: Option<String>,
}

/// A word due for review, with its memory state and its entry.
#[derive(Debug, Clone)]
pub struct ReviewCard {
    pub id: i32,
    /// Millionths of a day.
    pub stability: u64,
    /// Thousandths.
    pub difficulty: i64,
    /// The due instant as RFC 3339 text.
    pub due: String,
    pub master_id: i32,
    pub text: String,
    pub definition: String,
    pub pronunciation: Option<String>,
}

/// The earliest instant chrono represents, -262143-01-01T00:00:00Z, in
/// milliseconds since the Unix epoch.
pub const MIN_DATE_MILLIS: i64 = -8_334_601_228_800_000;

/// The latest instant chrono represents at millisecond precision,
/// +262142-12-31T23:59:59.999Z.
pub const MAX_DATE_MILLIS: i64 = 8_210_266_876_799_999;

/// The RFC 3339 text of an instant given in milliseconds since the Unix
/// epoch, UTC.
pub uninterp spec fn rfc3339_text(millis: int) -> Seq<char>;

/// Relies on chrono's `DateTime::<Utc>::from_timestamp_millis`, which gives
/// an instant exactly for the milliseconds from the first day of year
/// -262143 to the last of year 262142, and `DateTime::to_rfc3339`, which
/// formats the instant.
#[verifier::external_body]
fn rfc3339_of_millis(millis: i64) -> (r: Option<String>)
    ensures
        r is Some <==> MIN_DATE_MILLIS <= millis <= MAX_DATE_MILLIS,
        r matches Some(t) ==> t@ == rfc3339_text(millis as int),
{
    match chrono::DateTime::<chrono::Utc>::from_timestamp_millis(millis) {
        Some(t) => Some(t.to_rfc3339()),
        None => None,
    }
}

/// Whether `c` is the card of `user`, whose entry is `m`.
pub open spec fn is_card_of(c: ReviewCard, user: UserWord, m: MasterWord) -> bool {
    &&& c.id == user.id
    &&& c.stability == user.stability
    &&& c.difficulty == user.difficulty
    &&& c.due@ == rfc3339_text(user.due as int)
    &&& c.master_id == m.id
    &&& c.text == m.text
    &&& c.definition == m.definition
    &&& c.pronunciation == m.pronunciation
}

/// Whether a due word, with its entry if found, makes a card: the entry
/// must be present and the due instant a date that can be written.
pub open spec fn has_card(user: UserWord, master: Option<MasterWord>) -> bool {
    &&& master is Some
    &&& MIN_DATE_MILLIS <= user.due <= MAX_DATE_MILLIS
}

/// The rows that make cards, in order.
pub open spec fn carded_rows(rows: Seq<(UserWord, Option<MasterWord>)>) -> Seq<
    (UserWord, MasterWord),
>
    decreases rows.len(),
{
    if rows.len() == 0 {
        Seq::empty()
    } else {
        let init = carded_rows(rows.drop_last());
        let row = rows.last();
        if has_card(row.0, row.1) {
            init.push((row.0, row.1->0))
        } else {
            init
        }
    }
}

fn clone_text(t: &Option<String>) -> (r: Option<String>)
    ensures
        r == *t,
{
    match t {
        Some(s) => Some(s.clone()),
        None => None,
    }
}

impl ReviewCard {
    /// The card of `user`, whose entry is `master`, with its due instant
    /// already written as `due`.
    pub fn from_parts(user: &UserWord, master: &MasterWord, due: String) -> (r: ReviewCard)
        ensures
            r.id == user.id,
            r.stability == user.stability,
            r.difficulty == user.difficulty,
            r.due == due,
            r.master_id == master.id,
            r.text == master.text,
            r.definition == master.definition,
            r.pronunciation == master.pronunciation,
    {
        ReviewCard {
            id: user.id,
            stability: user.stability,
            difficulty: user.difficulty,
            due,
            master_id: master.id,
            text: master.text.clone(),
            definition: master.definition.clone(),
            pronunciation: clone_text(&master.pronunciation),
        }
    }

    fn of_row(user: &UserWord, master: &Option<MasterWord>) -> (r: Option<ReviewCard>)
        ensures
            r is Some <==> has_card(*user, *master),
            r matches Some(c) ==> is_card_of(c, *user, master->0),
    {
        match master {
            None => None,
            Some(m) => match rfc3339_of_millis(user.due) {
                Some(due) => Some(ReviewCard::from_parts(user, m, due)),
                None => None,
            },
        }
    }

    /// The card of `user` and its entry; `None` where the entry is missing
    /// or the due instant lies outside the dates that can be written.
    pub fn from_query_result(user: UserWord, master: Option<MasterWord>) -> (r: Option<
        ReviewCard,
    >)
        ensures
            r is Some <==> has_card(user, master),
            r matches Some(c) ==> is_card_of(c, user, master->0),
    {
        ReviewCard::of_row(&user, &master)
    }
}

/// The cards of the due words `rows`, in order, leaving out each word
/// whose entry is missing or whose due instant cannot be written.
pub fn cards_from_query_results(rows: &Vec<(UserWord, Option<MasterWord>)>) -> (r: Vec<
    ReviewCard,
>)
    ensures
        r@.len() == carded_rows(rows@).len(),
        forall|i: int|
            0 <= i < r@.len() ==> is_card_of(
                #[trigger] r@[i],
                carded_rows(rows@)[i].0,
                carded_rows(rows@)[i].1,
            ),
{
    let mut cards: Vec<ReviewCard> = Vec::new();
    let mut k: usize = 0;
    while k < rows.len()
        invariant
            k <= rows@.len(),
            cards@.len() == carded_rows(rows@.subrange(0, k as int)).len(),
            forall|i: int|
                0 <= i < cards@.len() ==> is_card_of(
                    #[trigger] cards@[i],
                    carded_rows(rows@.subrange(0, k as int))[i].0,
                    carded_rows(rows@.subrange(0, k as int))[i].1,
                ),
        decreases rows@.len() - k,
    {
        let row = &rows[k];
        let card = ReviewCard::of_row(&row.0, &row.1);
        proof {
            let next = rows@.subrange(0, k + 1);
            assert(next.drop_last() =~= rows@.subrange(0, k as int));
            assert(next.last() == rows@[k as int]);
        }
        match card {
            Some(c) => cards.push(c),
            None => {},
        }
        k = k + 1;
    }
    assert(rows@.subrange(0, rows@.len() as int) =~= rows@);
    cards
}

} // verus!
