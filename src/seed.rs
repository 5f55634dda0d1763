//! The bundled word list, and the master-list entries made from it.
use vstd::prelude::*;
use vstd::string::StringExecFns;
use crate::models::MasterWord;

verus! {

/// One translation of a bundled word, with its part of speech if given.
#[derive(Debug, Clone)]
pub struct SeedTranslation {
    pub translation: String,
    pub word_type: Option<String>,
}

/// A phrase that uses a bundled word.
#[derive(Debug, Clone)]
pub struct SeedPhrase {
    pub phrase: String,
    pub translation: String,
}

/// A word of the bundled list.
#[derive(Debug, Clone)]
pub struct SeedWord {
    pub word: String,
    pub translations: Vec<SeedTranslation>,
    pub phrases: Option<Vec<SeedPhrase>>,
}

/// The source label given to entries made from the bundled list.
pub open spec fn seed_source() -> Seq<char> {
    "高中"@
}

/// One translation as text: `"<type>. <translation>"`, or the translation
/// alone where no type is given.
pub open spec fn translation_text(t: SeedTranslation) -> Seq<char> {
    match t.word_type {
        Some(wt) => wt@ + ". "@ + t.translation@,
        None => t.translation@,
    }
}

/// The translations as text, in order, separated by `"/n"`.
pub open spec fn definition_of(ts: Seq<SeedTranslation>) -> Seq<char>
    decreases ts.len(),
{
    if ts.len() == 0 {
        Seq::empty()
    } else if ts.len() == 1 {
        translation_text(ts[0])
    } else {
        definition_of(ts.drop_last()) + "/n"@ + translation_text(ts.last())
    }
}

/// The text of one translation.
pub fn translation_text_of(t: &SeedTranslation) -> (r: String)
    ensures
        r@ == translation_text(*t),
{
    match &t.word_type {
        Some(wt) => {
            let mut s = wt.clone();
            s.append(". ");
            s.append(t.translation.as_str());
            s
        },
        None => t.translation.clone(),
    }
}

/// The definition text of a bundled word, from its translations.
pub fn definition_text(ts: &Vec<SeedTranslation>) -> (r: String)
    ensures
        r@ == definition_of(ts@),
{
    let mut out = String::new();
    let mut k: usize = 0;
    while k < ts.len()
        invariant
            k <= ts@.len(),
            out@ == definition_of(ts@.subrange(0, k as int)),
        decreases ts@.len() - k,
    {
        let piece = translation_text_of(&ts[k]);
        proof {
            let next = ts@.subrange(0, k + 1);
            assert(next.drop_last() =~= ts@.subrange(0, k as int));
            assert(next.last() == ts@[k as int]);
        }
        if k > 0 {
            out.append("/n");
        }
        out.append(piece.as_str());
        k = k + 1;
    }
    assert(ts@.subrange(0, ts@.len() as int) =~= ts@);
    out
}

/// The master-list entry made from a bundled word: its text, its
/// definition text, the bundled list's source label, and no pronunciation
/// or audio. Its `id` is zero until the store assigns one.
pub fn master_word_from_seed(w: &SeedWord) -> (r: MasterWord)
    ensures
        r.id == 0,
        r.text == w.word,
        r.definition@ == definition_of(w.translations@),
        r.pronunciation is None,
        r.audio_url is None,
        r.source matches Some(s) && s@ == seed_source(),
{
    MasterWord {
        id: 0,
        text: w.word.clone(),
        definition: definition_text(&w.translations),
        pronunciation: None,
        audio_url: None,
        source: Some("高中".to_owned()),
    }
}

} // verus!
