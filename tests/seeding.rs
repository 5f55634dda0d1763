use yaya_word::query::{page_offset, prefix_pattern, SEARCH_LIMIT};
use yaya_word::seed::{
    definition_text, master_word_from_seed, translation_text_of, SeedPhrase, SeedTranslation,
    SeedWord,
};

fn tr(translation: &str, word_type: Option<&str>) -> SeedTranslation {
    SeedTranslation {
        translation: translation.to_string(),
        word_type: word_type.map(|t| t.to_string()),
    }
}

#[test]
fn translation_with_and_without_type() {
    assert_eq!(translation_text_of(&tr("苹果", Some("n"))), "n. 苹果");
    assert_eq!(translation_text_of(&tr("苹果", None)), "苹果");
}

#[test]
fn definition_joins_translations() {
    assert_eq!(definition_text(&vec![]), "");
    assert_eq!(definition_text(&vec![tr("run", Some("v"))]), "v. run");
    let ts = vec![tr("run", Some("v")), tr("a run", Some("n")), tr("running", None)];
    assert_eq!(definition_text(&ts), "v. run/nn. a run/nrunning");
}

#[test]
fn seed_entry() {
    let w = SeedWord {
        word: "run".to_string(),
        translations: vec![tr("跑", Some("v")), tr("跑步", Some("n"))],
        phrases: Some(vec![SeedPhrase {
            phrase: "run out".to_string(),
            translation: "用完".to_string(),
        }]),
    };
    let m = master_word_from_seed(&w);
    assert_eq!(m.id, 0);
    assert_eq!(m.text, "run");
    assert_eq!(m.definition, "v. 跑/nn. 跑步");
    assert_eq!(m.pronunciation, None);
    assert_eq!(m.audio_url, None);
    assert_eq!(m.source, Some("高中".to_string()));
}

#[test]
fn prefix_patterns() {
    assert_eq!(prefix_pattern("ab"), "ab%");
    assert_eq!(prefix_pattern(""), "%");
}

#[test]
fn page_offsets() {
    assert_eq!(page_offset(0, 20), Some(0));
    assert_eq!(page_offset(3, 20), Some(60));
    assert_eq!(page_offset(u64::MAX, 2), None);
    assert_eq!(page_offset(u64::MAX, 1), Some(u64::MAX));
    assert_eq!(SEARCH_LIMIT, 50);
}
