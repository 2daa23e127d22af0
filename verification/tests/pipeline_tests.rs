//! The classifier cascade, end to end over in-memory records.

use imp_ror::records::{NameRecord, NameType, Organization, ORG_TYPE_COMPANY};
use imp_ror::classify::{run_pipeline, prep_names, apply_name_codes, apply_acro_codes, LexRule};
use imp_ror::lex_rules::default_lex_rules;

const ORG_TYPE_EDUCATION: u32 = 200;

fn org(id: &str, country: &str, org_type: u32) -> Organization {
    Organization { id: id.to_string(), country_code: country.to_string(), org_type }
}

fn rec(id: &str, name: &str, name_type: NameType, script: &str, lang: Option<&str>) -> NameRecord {
    NameRecord {
        id: id.to_string(),
        name: name.to_string(),
        name_to_match: None,
        name_type,
        script_code: script.to_string(),
        lang_code: lang.map(|s| s.to_string()),
        lang_source: None,
    }
}

fn run(orgs: &Vec<Organization>, records: &mut Vec<NameRecord>) {
    let rules: Vec<LexRule> = default_lex_rules();
    run_pipeline(records, orgs, &rules);
}

#[test]
fn match_keys_are_written_once() {
    let mut records = vec![rec("A", "St. Mary's College", NameType::Label, "Latn", None)];
    prep_names(&mut records);
    assert_eq!(records[0].name_to_match.as_deref(), Some("st mary\u{2019}s college"));
    // a second run leaves the stored key alone
    prep_names(&mut records);
    assert_eq!(records[0].name_to_match.as_deref(), Some("st mary\u{2019}s college"));
}

#[test]
fn source_codes_get_ror_provenance() {
    let orgs = vec![org("A", "DE", ORG_TYPE_EDUCATION)];
    let mut records = vec![rec("A", "Some Name", NameType::Label, "Latn", Some("de"))];
    run(&orgs, &mut records);
    assert_eq!(records[0].lang_code.as_deref(), Some("de"));
    assert_eq!(records[0].lang_source.as_deref(), Some("ror"));
}

#[test]
fn nonlatin_script_takes_the_country_language() {
    let orgs = vec![org("A", "RU", ORG_TYPE_EDUCATION)];
    let mut records = vec![rec("A", "\u{0410}\u{043A}\u{0430}\u{0434}", NameType::Label, "Cyrl",
        None)];
    run(&orgs, &mut records);
    assert_eq!(records[0].lang_code.as_deref(), Some("ru"));
    assert_eq!(records[0].lang_source.as_deref(), Some("script_auto"));
}

#[test]
fn hebrew_script_is_hebrew_regardless_of_country() {
    let orgs = vec![org("A", "FR", ORG_TYPE_EDUCATION)];
    let mut records = vec![rec("A", "\u{05DE}\u{05DB}\u{05D5}\u{05DF}", NameType::Label, "Hebr",
        None)];
    run(&orgs, &mut records);
    assert_eq!(records[0].lang_code.as_deref(), Some("he"));
    assert_eq!(records[0].lang_source.as_deref(), Some("script_auto"));
}

#[test]
fn greek_letters_of_us_societies_count_as_english() {
    let orgs = vec![org("A", "US", ORG_TYPE_EDUCATION)];
    let mut records = vec![rec("A", "\u{03A6}\u{0392}\u{039A}", NameType::Label, "Grek", None)];
    run(&orgs, &mut records);
    assert_eq!(records[0].lang_code.as_deref(), Some("en"));
    assert_eq!(records[0].lang_source.as_deref(), Some("script_auto"));
}

#[test]
fn keyword_rules_fill_latin_names() {
    let orgs = vec![org("A", "GB", ORG_TYPE_EDUCATION)];
    let mut records = vec![rec("A", "Imperial College", NameType::Label, "Latn", None)];
    run(&orgs, &mut records);
    assert_eq!(records[0].lang_code.as_deref(), Some("en"));
    assert_eq!(records[0].lang_source.as_deref(), Some("lex_auto"));
}

#[test]
fn school_rule_skips_german_compounds() {
    let orgs = vec![org("A", "DE", ORG_TYPE_EDUCATION)];
    let mut records = vec![rec("A", "Fachhochshule School", NameType::Label, "Latn", None)];
    run(&orgs, &mut records);
    // the match key holds "hochshule", so the school rule stands back
    assert_eq!(records[0].lang_code, None);
    assert_eq!(records[0].lang_source, None);
}

#[test]
fn brand_override_beats_everything() {
    // brand-override dominance: whatever the source said, a company name
    // ends up branded
    let orgs = vec![org("A", "JP", ORG_TYPE_COMPANY)];
    let mut records = vec![
        rec("A", "Acme University", NameType::Label, "Latn", Some("en")),
        rec("A", "ACME", NameType::Acronym, "Latn", None),
    ];
    run(&orgs, &mut records);
    for r in &records {
        assert_eq!(r.lang_code.as_deref(), Some("cm"));
        assert_eq!(r.lang_source.as_deref(), Some("cm_brand"));
    }
}

#[test]
fn codes_are_write_once_through_the_cascade() {
    // a code the source supplied survives every later tier
    let orgs = vec![org("A", "RU", ORG_TYPE_EDUCATION)];
    let mut records = vec![rec("A", "Universitet City", NameType::Label, "Cyrl", Some("tt"))];
    run(&orgs, &mut records);
    assert_eq!(records[0].lang_code.as_deref(), Some("tt"));
    assert_eq!(records[0].lang_source.as_deref(), Some("ror"));
}

#[test]
fn running_the_cascade_twice_changes_nothing() {
    let orgs = vec![
        org("X1", "JP", ORG_TYPE_EDUCATION),
        org("C", "US", ORG_TYPE_COMPANY),
        org("F", "FR", ORG_TYPE_EDUCATION),
    ];
    let mut records = vec![
        rec("X1", "Tokyo Daigaku", NameType::Label, "Latn", None),
        rec("X1", "TD", NameType::Acronym, "Latn", None),
        rec("C", "Acme Corp", NameType::Label, "Latn", Some("en")),
        rec("F", "Universit\u{00E9} de Paris", NameType::Label, "Latn", Some("fr")),
        rec("F", "UP", NameType::Acronym, "Latn", None),
    ];
    run(&orgs, &mut records);
    let after_once: Vec<(Option<String>, Option<String>, Option<String>)> = records
        .iter()
        .map(|r| (r.name_to_match.clone(), r.lang_code.clone(), r.lang_source.clone()))
        .collect();
    run(&orgs, &mut records);
    let after_twice: Vec<(Option<String>, Option<String>, Option<String>)> = records
        .iter()
        .map(|r| (r.name_to_match.clone(), r.lang_code.clone(), r.lang_source.clone()))
        .collect();
    assert_eq!(after_once, after_twice);
}

#[test]
fn mono_lingual_orgs_pass_their_language_to_acronyms() {
    // mono-lingual propagation: all non-acronym names carry fr, so the
    // still-null acronym receives fr
    let orgs = vec![org("F", "FR", ORG_TYPE_EDUCATION)];
    let mut records = vec![
        rec("F", "Nom Premier", NameType::Label, "Latn", Some("fr")),
        rec("F", "Nom Second", NameType::Alias, "Latn", Some("fr")),
        rec("F", "NP", NameType::Acronym, "Latn", None),
    ];
    run(&orgs, &mut records);
    assert_eq!(records[2].lang_code.as_deref(), Some("fr"));
    assert_eq!(records[2].lang_source.as_deref(), Some("mono lang org"));
}

#[test]
fn mixed_language_orgs_fall_back_to_derivation() {
    // two source languages block propagation; the deriver matches both
    // names and keeps both attributions
    let orgs = vec![org("U", "CA", ORG_TYPE_EDUCATION)];
    let mut records = vec![
        rec("U", "Western University", NameType::Label, "Latn", Some("en")),
        rec("U", "Wissenschaft Universit\u{00E4}t", NameType::Alias, "Latn", Some("de")),
        rec("U", "WU", NameType::Acronym, "Latn", None),
    ];
    run(&orgs, &mut records);
    assert_eq!(records[2].lang_code.as_deref(), Some("en, de"));
    assert_eq!(records[2].lang_source.as_deref(), Some("derived acro"));
}

#[test]
fn single_letter_acronyms_stay_unclassified() {
    // two languages block propagation, and a one-letter acronym is never a
    // derivation match
    let orgs = vec![org("U", "CA", ORG_TYPE_EDUCATION)];
    let mut records = vec![
        rec("U", "Union", NameType::Label, "Latn", Some("en")),
        rec("U", "Uni\u{00F3}n", NameType::Alias, "Latn", Some("es")),
        rec("U", "U", NameType::Acronym, "Latn", None),
    ];
    run(&orgs, &mut records);
    assert_eq!(records[2].lang_code, None);
    assert_eq!(records[2].lang_source, None);
}

#[test]
fn unmatched_names_remain_unclassified() {
    // no rule fits: staying null is the accepted terminal state
    let orgs = vec![org("A", "GB", ORG_TYPE_EDUCATION)];
    let mut records = vec![rec("A", "Zzyzx", NameType::Label, "Latn", None)];
    run(&orgs, &mut records);
    assert_eq!(records[0].lang_code, None);
    assert_eq!(records[0].lang_source, None);
}

#[test]
fn japanese_education_org_end_to_end() {
    // the end-to-end scenario: a Japanese university with a romanized label
    // and an acronym
    let orgs = vec![org("X1", "JP", ORG_TYPE_EDUCATION)];
    let mut records = vec![
        rec("X1", "Tokyo Daigaku", NameType::Label, "Latn", None),
        rec("X1", "TD", NameType::Acronym, "Latn", None),
    ];
    run(&orgs, &mut records);
    // the label matches the daigaku keyword rule
    assert_eq!(records[0].lang_code.as_deref(), Some("ja"));
    assert_eq!(records[0].lang_source.as_deref(), Some("lex_auto"));
    // the acronym follows, with a recorded provenance
    assert_eq!(records[1].lang_code.as_deref(), Some("ja"));
    assert!(records[1].lang_source.is_some());
}

#[test]
fn name_code_and_acro_passes_compose() {
    let orgs = vec![org("X1", "JP", ORG_TYPE_EDUCATION)];
    let rules = default_lex_rules();
    let mut records = vec![
        rec("X1", "Tokyo Daigaku", NameType::Label, "Latn", None),
        rec("X1", "TD", NameType::Acronym, "Latn", None),
    ];
    prep_names(&mut records);
    apply_name_codes(&mut records, &orgs, &rules);
    assert_eq!(records[0].lang_code.as_deref(), Some("ja"));
    assert_eq!(records[1].lang_code, None);
    apply_acro_codes(&mut records);
    assert_eq!(records[1].lang_code.as_deref(), Some("ja"));
    assert_eq!(records[1].lang_source.as_deref(), Some("mono lang org"));
}

#[test]
fn french_unit_prefixes_use_the_raw_name() {
    let orgs = vec![org("A", "FR", ORG_TYPE_EDUCATION)];
    let mut records = vec![
        rec("A", "UMR 5558 Biometrie", NameType::Label, "Latn", None),
        rec("A", "inserm unit one", NameType::Alias, "Latn", None),
    ];
    run(&orgs, &mut records);
    assert_eq!(records[0].lang_code.as_deref(), Some("fr"));
    // the Inserm prefix matches case-insensitively
    assert_eq!(records[1].lang_code.as_deref(), Some("fr"));
}

#[test]
fn norwegian_names_fold_and_match() {
    // the folded match key carries the lower-case vowel the rule looks for
    let orgs = vec![org("A", "NO", ORG_TYPE_EDUCATION)];
    let mut records = vec![rec("A", "S\u{00D8}RLANDET SYKEHUS", NameType::Label, "Latn", None)];
    run(&orgs, &mut records);
    assert_eq!(records[0].name_to_match.as_deref(), Some("s\u{00F8}rlandet sykehus"));
    assert_eq!(records[0].lang_code.as_deref(), Some("no"));
}

#[test]
fn greek_technical_institutes_count_as_english() {
    let orgs = vec![org("A", "GR", ORG_TYPE_EDUCATION)];
    let mut records = vec![
        rec("A", "TEI Athinon", NameType::Label, "Latn", None),
        rec("A", "Panepistimio Thessalias", NameType::Alias, "Latn", None),
    ];
    run(&orgs, &mut records);
    assert_eq!(records[0].lang_code.as_deref(), Some("en"));
    assert_eq!(records[1].lang_code.as_deref(), Some("el"));
}

#[test]
fn hospital_rule_respects_country_exclusions() {
    let orgs = vec![
        org("GB1", "GB", ORG_TYPE_EDUCATION),
        org("ES1", "ES", ORG_TYPE_EDUCATION),
    ];
    let mut records = vec![
        rec("GB1", "Northern Hospital", NameType::Label, "Latn", None),
        rec("ES1", "Hospital del Norte", NameType::Label, "Latn", None),
    ];
    run(&orgs, &mut records);
    assert_eq!(records[0].lang_code.as_deref(), Some("en"));
    assert_eq!(records[1].lang_code, None);
}
