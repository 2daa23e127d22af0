//! The normalizer: one test per cleanup step, plus the idempotence and
//! double-space properties on concrete inputs.

use imp_ror::normalize::normalize;
use imp_ror::tokenize::tokenize;

#[test]
fn plain_names_just_fold_case() {
    assert_eq!(normalize("Harvard University"), "harvard university");
}

#[test]
fn accented_capitals_fold_too() {
    assert_eq!(normalize("\u{00C9}COLE NORMALE"), "\u{00E9}cole normale");
    assert_eq!(normalize("\u{0410}\u{041A}\u{0410}\u{0414}\u{0415}\u{041C}\u{0418}\u{042F}"),
        "\u{0430}\u{043A}\u{0430}\u{0434}\u{0435}\u{043C}\u{0438}\u{044F}");
}

#[test]
fn extended_latin_and_greek_capitals_fold() {
    // Latin Extended-A and Extended Additional
    assert_eq!(normalize("\u{010C}ESK\u{00C1} \u{0160}KOLA"), "\u{010D}esk\u{00E1} \u{0161}kola");
    assert_eq!(normalize("\u{015E}\u{0162}"), "\u{015F}\u{0163}");
    assert_eq!(normalize("\u{1E62}AN"), "\u{1E63}an");
    // accented Greek capitals
    assert_eq!(normalize("\u{0386}\u{0388}\u{038C}"), "\u{03AC}\u{03AD}\u{03CC}");
    // further Cyrillic blocks
    assert_eq!(normalize("\u{0490}\u{04D8}"), "\u{0491}\u{04D9}");
}

#[test]
fn zero_width_marks_are_stripped() {
    assert_eq!(normalize("Uni\u{200B}versity\u{FEFF}"), "university");
}

#[test]
fn peoples_misencoding_is_repaired() {
    assert_eq!(normalize("people 's hospital"), "people\u{2019}s hospital");
}

#[test]
fn listed_punctuation_is_removed() {
    assert_eq!(normalize("St. Mary, Queen: of; Heaven"), "st mary queen of heaven");
}

#[test]
fn brackets_open_to_spaces_and_close_away() {
    assert_eq!(normalize("Institute(Berlin)"), "institute berlin");
    assert_eq!(normalize("Lab[Main]"), "lab main");
}

#[test]
fn double_quotes_and_guillemets_vanish() {
    assert_eq!(normalize("\"Quoted\" \u{00AB}Name\u{00BB} \u{201C}x\u{201D}"), "quoted name x");
}

#[test]
fn twin_apostrophes_vanish() {
    assert_eq!(normalize("a''b"), "ab");
}

#[test]
fn quote_marks_become_single_curly_quotes() {
    assert_eq!(normalize("a\u{02BC}b"), "a\u{2019}b");
    assert_eq!(normalize("a\u{201A}b"), "a\u{2018}b");
}

#[test]
fn space_variants_become_plain_spaces() {
    assert_eq!(normalize("a\u{00A0}b\u{3000}c"), "a b c");
}

#[test]
fn apostrophe_after_space_or_at_start_turns_left() {
    // the apostrophe placement rule of the specification
    let key = normalize("'Ecole");
    assert!(key.starts_with("\u{2018}ecole"));
    assert_eq!(normalize("L'Universit\u{00E9}"), "l\u{2019}universit\u{00E9}");
    assert_eq!(normalize("d 'Arc"), "d \u{2018}arc");
}

#[test]
fn fullwidth_apostrophe_is_standardised_first() {
    assert_eq!(normalize("L\u{FF07}Institut"), "l\u{2019}institut");
}

#[test]
fn bullets_become_spaces() {
    assert_eq!(normalize("a\u{2022}b\u{30FB}c"), "a b c");
}

#[test]
fn dashes_become_hyphens_and_lose_their_spaces() {
    assert_eq!(normalize("Nord \u{2013} Sud"), "nord-sud");
    assert_eq!(normalize("a - b"), "a-b");
    // one space per side is stripped; a longer run keeps its remainder
    assert_eq!(normalize("a  -  b"), "a - b");
}

#[test]
fn space_runs_collapse() {
    // the double-space property: no run of two spaces survives
    let key = normalize("A    B");
    assert_eq!(key, "a b");
    assert!(!key.contains("  "));
}

#[test]
fn ends_are_trimmed() {
    assert_eq!(normalize("  padded out  "), "padded out");
}

#[test]
fn normalize_accepts_any_string() {
    // totality: odd input passes through the steps untouched
    assert_eq!(normalize(""), "");
    assert_eq!(normalize("\u{0007}x\u{FFFD}"), "\u{0007}x\u{FFFD}");
}

#[test]
fn normalize_is_idempotent_on_samples() {
    let samples = [
        "  L'Universit\u{00E9} de (Paris)  ",
        "people 's REPUBLIC\u{2014}text",
        "A    B",
        "a - b \u{2022} c",
        "\"Name\" with 'quotes' and \u{FF07}marks",
        "v\u{200B}anish",
    ];
    for s in samples {
        let once = normalize(s);
        let twice = normalize(&once);
        assert_eq!(once, twice);
    }
}

#[test]
fn tokens_split_on_spaces_and_hyphens() {
    assert_eq!(tokenize("jean-pierre institute"), vec!["jean", "pierre", "institute"]);
    assert_eq!(tokenize("  a  b "), vec!["a", "b"]);
    assert_eq!(tokenize(""), Vec::<String>::new());
}
