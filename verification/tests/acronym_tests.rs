//! The acronym deriver: tier order, evidence joining, and the
//! single-character rule.

use imp_ror::acronym::{Candidate, derive_for_acronym};

fn cand(key: &str, lang: Option<&str>) -> Candidate {
    Candidate { key: key.to_string(), lang: lang.map(|s| s.to_string()) }
}

#[test]
fn of_words_drop_out_of_derived_acronyms() {
    // the minus-"of" tier turns "university of california" into "uc"
    let cands = vec![cand("university of california", Some("en"))];
    let m = derive_for_acronym(&cands, "uc").unwrap();
    assert_eq!(m.lang_codes, "en");
    assert_eq!(m.source_keys, "university of california");
}

#[test]
fn plain_initials_match_at_the_base_tier() {
    let cands = vec![cand("zentrum alpha berlin", Some("de"))];
    let m = derive_for_acronym(&cands, "zab").unwrap();
    assert_eq!(m.lang_codes, "de");
}

#[test]
fn hyphens_and_spaces_in_the_acronym_are_ignored() {
    let cands = vec![cand("zentrum alpha berlin", Some("de"))];
    let m = derive_for_acronym(&cands, "z-a b").unwrap();
    assert_eq!(m.lang_codes, "de");
}

#[test]
fn elided_articles_lose_their_prefix() {
    // "l’institut de recherche" derives "ir" once the article is stripped
    let cands = vec![cand("l\u{2019}institut de recherche", Some("fr"))];
    let m = derive_for_acronym(&cands, "ir").unwrap();
    assert_eq!(m.lang_codes, "fr");
}

#[test]
fn conjunctions_and_prepositions_drop_in_the_higher_tiers() {
    let cands = vec![cand("science and technology for health", Some("en"))];
    // the most filtered tier keeps only science, technology, health
    let m = derive_for_acronym(&cands, "sth").unwrap();
    assert_eq!(m.lang_codes, "en");
}

#[test]
fn multiple_evidence_is_joined_comma_separated() {
    let cands = vec![
        cand("university of california", Some("en")),
        cand("universit\u{00E9} de californie", Some("fr")),
    ];
    let m = derive_for_acronym(&cands, "uc").unwrap();
    assert_eq!(m.lang_codes, "en, fr");
    assert_eq!(m.source_keys, "university of california, universit\u{00E9} de californie");
}

#[test]
fn duplicate_source_keys_count_once() {
    let cands = vec![
        cand("university of california", Some("en")),
        cand("university of california", Some("en")),
    ];
    let m = derive_for_acronym(&cands, "uc").unwrap();
    assert_eq!(m.lang_codes, "en");
    assert_eq!(m.source_keys, "university of california");
}

#[test]
fn uncoded_sources_alone_assign_nothing() {
    let cands = vec![cand("university of california", None)];
    assert!(derive_for_acronym(&cands, "uc").is_none());
}

#[test]
fn single_letter_acronyms_never_match() {
    // the length-1 rule: a one-word name derives a one-letter candidate,
    // which is never proposed
    let cands = vec![cand("union", Some("en"))];
    assert!(derive_for_acronym(&cands, "u").is_none());
}

#[test]
fn unrelated_acronyms_stay_unmatched() {
    let cands = vec![cand("university of california", Some("en"))];
    assert!(derive_for_acronym(&cands, "mit").is_none());
}
