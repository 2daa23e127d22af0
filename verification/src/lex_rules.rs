//! The stock keyword-rule table of the classifier: one entry per pattern,
//! grouped by target language, in cascade order.  The first rule whose
//! conditions hold wins, so the order of this list is part of the rule set.
//!
//! The whole table is stated row by row at specification level
//! ([`default_rules_spec`]), and [`default_lex_rules`] is proved to return
//! exactly that list.

use vstd::prelude::*;
use crate::classify::{LexRule, LexRuleV};

verus! {

// ---------------------------------------------------------------------------
// Rule shapes
// ---------------------------------------------------------------------------

/// A rule with no conditions beyond its target language.
pub open spec fn base_rule_v(lang: Seq<char>) -> LexRuleV {
    LexRuleV {
        lang,
        key_pattern: None,
        key_prefix: None,
        name_prefix: None,
        prefix_fold: false,
        countries: Seq::empty(),
        exclude_countries: Seq::empty(),
        exclude_key: None,
        exclude_name: None,
    }
}

/// A rule on a match-key substring, with an optional country filter.
pub open spec fn key_rule_v(lang: Seq<char>, pat: Seq<char>, countries: Seq<Seq<char>>) -> LexRuleV {
    LexRuleV { key_pattern: Some(pat), countries, ..base_rule_v(lang) }
}

/// A rule on a match-key prefix, with an optional country filter.
pub open spec fn key_prefix_rule_v(
    lang: Seq<char>,
    pat: Seq<char>,
    countries: Seq<Seq<char>>,
) -> LexRuleV {
    LexRuleV { key_prefix: Some(pat), countries, ..base_rule_v(lang) }
}

/// A rule on a raw-name prefix, with an optional country filter.
pub open spec fn name_prefix_rule_v(
    lang: Seq<char>,
    pat: Seq<char>,
    countries: Seq<Seq<char>>,
    fold: bool,
) -> LexRuleV {
    LexRuleV { name_prefix: Some(pat), prefix_fold: fold, countries, ..base_rule_v(lang) }
}

/// One key rule per pattern, in pattern order.
pub open spec fn key_rules_of(
    lang: Seq<char>,
    pats: Seq<Seq<char>>,
    countries: Seq<Seq<char>>,
) -> Seq<LexRuleV> {
    Seq::new(pats.len(), |i: int| key_rule_v(lang, pats[i], countries))
}

/// One raw-name prefix rule per pattern, in pattern order.
pub open spec fn name_prefix_rules_of(
    lang: Seq<char>,
    pats: Seq<Seq<char>>,
    countries: Seq<Seq<char>>,
    fold: bool,
) -> Seq<LexRuleV> {
    Seq::new(pats.len(), |i: int| name_prefix_rule_v(lang, pats[i], countries, fold))
}

// ---------------------------------------------------------------------------
// The table, row by row
// ---------------------------------------------------------------------------

/// The generic English institutional vocabulary, matched anywhere.
pub open spec fn english_keywords() -> Seq<Seq<char>> {
    seq![
        "university"@,
        "college"@,
        "polytechnic"@,
        "museum"@,
        "institute"@,
        "center"@,
        "clinic"@,
        "library"@,
        "society"@,
        "foundation"@,
        " trust"@,
        "laboratory"@,
        "laboratories"@,
        "bureau"@,
        "academy"@,
        " zoo"@,
        " park"@,
        " garden"@,
        "wikimedia"@,
        "forum"@,
        "municipal"@,
        "medical"@,
        "health"@,
        "sanitorium"@,
        "genebank"@,
    ]
}

/// The Spanish- and Portuguese-speaking countries whose hospitals are not
/// assumed English.
pub open spec fn hospital_excluded_countries() -> Seq<Seq<char>> {
    seq![
        "AR"@,
        "BO"@,
        "CL"@,
        "CO"@,
        "CR"@,
        "CU"@,
        "DO"@,
        "EC"@,
        "ES"@,
        "GQ"@,
        "GT"@,
        "HN"@,
        "MX"@,
        "NI"@,
        "PE"@,
        "PY"@,
        "UY"@,
        "VE"@,
        "PT"@,
        "BR"@,
        "CV"@,
        "AO"@,
        "MZ"@,
        "GW"@,
        "ST"@,
        "TL"@,
    ]
}

/// An observatory rule: English, unless the raw name carries the Cyrillic
/// marker.
pub open spec fn observatory_rule(pat: Seq<char>) -> LexRuleV {
    LexRuleV {
        key_pattern: Some(pat),
        exclude_name: Some("\u{041F}\u{041C}\u{0424}"@),
        ..base_rule_v("en"@)
    }
}

/// The English rules: the keyword list, then the guarded special cases.
pub open spec fn english_rules() -> Seq<LexRuleV> {
    key_rules_of("en"@, english_keywords(), Seq::empty()) + seq![
        observatory_rule("observatory"@),
        observatory_rule("observatories"@),
        LexRuleV {
            key_pattern: Some("school"@),
            exclude_key: Some("hochshule"@),
            ..base_rule_v("en"@)
        },
        LexRuleV {
            key_pattern: Some("hospital"@),
            exclude_countries: hospital_excluded_countries(),
            ..base_rule_v("en"@)
        },
        LexRuleV {
            key_pattern: Some("network"@),
            exclude_key: Some("researcherenye"@),
            ..base_rule_v("en"@)
        },
    ]
}

pub open spec fn japanese_keywords() -> Seq<Seq<char>> {
    seq![
        "daigaku"@,
        "daigakk\u{014D}"@,
        "kabushiki"@,
        "nippon"@,
        "kaihatsu"@,
        "bijutsukan"@,
        "kenritsu"@,
        "dokuritsu"@,
        " kik\u{014D}"@,
        "gakk\u{014D}"@,
        "gakko"@,
        "gakkou"@,
        "-sh\u{014D}"@,
        "bunka senta"@,
        "denryoku"@,
        "gakuen"@,
        "kagaku-kan"@,
        "bungaku-kan"@,
        "-ch\u{014D}"@,
        "chuobyoin"@,
        "shiritsu"@,
        "kenky\u{016B}jo"@,
        "kenkyujo"@,
        "kenky\u{016B}sho"@,
        "kenkei"@,
        "ky\u{014D}d\u{014D}"@,
        "tankyu"@,
        "kenkyusho"@,
        "kenkyuu"@,
        "kokusai"@,
        "hakubutsukan"@,
        "toshoken"@,
        "byoin"@,
        "by\u{014D}in"@,
        "nihon"@,
        "kinzoku"@,
        "kenky\u{016B}"@,
        "kokudo"@,
        "jitsugyo"@,
        "fukusei"@,
        "shiryokan"@,
        "gur\u{016B}pu"@,
        "kenkyuukikou"@,
        "shiminbyoin"@,
    ]
}

/// The Japanese rules: romanized vocabulary under the JP filter, plus one
/// key-prefix form.
pub open spec fn japanese_rules() -> Seq<LexRuleV> {
    key_rules_of("ja"@, japanese_keywords(), seq!["JP"@]) + seq![
        key_prefix_rule_v("ja"@, "shiritsuchuobyoin"@, seq!["JP"@]),
    ]
}

pub open spec fn chinese_keywords() -> Seq<Seq<char>> {
    seq![
        "d\u{00E0}xu\u{00E9}"@,
        "daxue"@,
        "d\u{00E0}x\u{00FA}e"@,
        "zh\u{014D}ngy\u{012B}"@,
        "xu\u{00E9}yu\u{00E0}n"@,
        "y\u{012B}yu\u{00E0}n"@,
        "j\u{012B}g\u{00F2}u"@,
        "y\u{00E1}nji\u{016B}"@,
        "m\u{00ED}ngu\u{00F3}"@,
        "y\u{00ED}nh\u{00E1}ng"@,
        "y\u{012B}y\u{00FA}n"@,
        "y\u{00E1}nji\u{00F9}yu\u{00E0}n"@,
        "yb\u{00F3}w\u{00F9}gu\u{01CE}n"@,
        "xu\u{00E9}xi\u{00E0}o"@,
        "sh\u{00E9}nxu\u{00E9}"@,
        "g\u{014D}ngy\u{00E8}"@,
        "zh\u{00E8}ngf\u{01D4}"@,
        "gu\u{00F3}ji\u{0101}"@,
        "sh\u{012B}f\u{00E0}n"@,
    ]
}

pub open spec fn chinese_rules() -> Seq<LexRuleV> {
    key_rules_of("zh"@, chinese_keywords(), seq!["CN"@, "TW"@, "HK"@])
}

pub open spec fn french_prefixes() -> Seq<Seq<char>> {
    seq![
        "CH "@,
        "CHU "@,
        "CIC "@,
        "EA"@,
        "ERL "@,
        "GDR"@,
        "U "@,
        "UAR"@,
        "UMR"@,
        "UMRS "@,
        "UMR_S "@,
        "UMS "@,
        "UR"@,
        "URP "@,
        "US"@,
    ]
}

/// The French rules: the case-insensitive Inserm prefix, then the unit-name
/// prefixes on the raw name, all under the FR/PF filter.
pub open spec fn french_rules() -> Seq<LexRuleV> {
    seq![name_prefix_rule_v("fr"@, "Inserm "@, seq!["FR"@, "PF"@], true)]
        + name_prefix_rules_of("fr"@, french_prefixes(), seq!["FR"@, "PF"@], false)
}

pub open spec fn indian_prefixes() -> Seq<Seq<char>> {
    seq![
        "AIIMS"@,
        "GCE"@,
        "GMC"@,
        "IIIT"@,
        "IIM"@,
        "IISER"@,
        "IIT"@,
        "NIPER"@,
        "NIT"@,
        "RDC"@,
        "REC"@,
        "SKUAST"@,
        "JNT"@,
    ]
}

pub open spec fn hindi_keywords() -> Seq<Seq<char>> {
    seq![
        " vigyan"@,
        " vishwavidyalaya"@,
        " sanstha"@,
        " sansth\u{0101}"@,
        " vidy\u{0101}laya"@,
        "krishi"@,
        "samsthana"@,
    ]
}

/// The Indian rules: acronym-institution prefixes and `centre` give English;
/// then the KVK prefix, a key prefix, and the Hindi vocabulary give Hindi.
pub open spec fn indian_rules() -> Seq<LexRuleV> {
    name_prefix_rules_of("en"@, indian_prefixes(), seq!["IN"@], false) + seq![
        key_rule_v("en"@, "centre"@, seq!["IN"@]),
        name_prefix_rule_v("hi"@, "KVK "@, seq!["IN"@], false),
        key_prefix_rule_v("hi"@, "GCE"@, seq!["IN"@]),
    ] + key_rules_of("hi"@, hindi_keywords(), seq!["IN"@])
}

pub open spec fn iranian_rules() -> Seq<LexRuleV> {
    key_rules_of("fa"@, seq!["d\u{0101}neshg\u{0101}h"@], seq!["IR"@])
}

pub open spec fn russian_keywords_a() -> Seq<Seq<char>> {
    seq!["institut "@, "universitet"@, "akademiya"@, "akad\u{00E9}miya"@, "oblastnoy"@]
}

pub open spec fn russian_keywords_b() -> Seq<Seq<char>> {
    seq!["federalnyy"@, "patologii"@, "khirurgii"@, "shkola"@, "kombinat"@, "tsentr"@]
}

/// The Russian rules: two keyword groups around the JSC raw-name prefix.
pub open spec fn russian_rules() -> Seq<LexRuleV> {
    key_rules_of("ru"@, russian_keywords_a(), seq!["RU"@]) + seq![
        name_prefix_rule_v("ru"@, "JSC "@, seq!["RU"@], false),
    ] + key_rules_of("ru"@, russian_keywords_b(), seq!["RU"@])
}

pub open spec fn ukrainian_keywords() -> Seq<Seq<char>> {
    seq!["universit\u{00E9}t "@, "universytet"@, "ukrainsky"@, "ukrayinska"@, "ukrayiny"@]
}

pub open spec fn ukrainian_rules() -> Seq<LexRuleV> {
    key_rules_of("uk"@, ukrainian_keywords(), seq!["UA"@])
}

pub open spec fn norwegian_keywords() -> Seq<Seq<char>> {
    seq![
        "sykehus"@,
        "skole"@,
        "skule"@,
        "universitet"@,
        " i "@,
        "\u{00F8}"@,
        "direktoratet"@,
        "registeret"@,
        "kommune"@,
        "instituut"@,
    ]
}

pub open spec fn norwegian_rules() -> Seq<LexRuleV> {
    key_rules_of("no"@, norwegian_keywords(), seq!["NO"@])
}

pub open spec fn serbian_rules() -> Seq<LexRuleV> {
    key_rules_of("sr"@, seq!["institut"@, "univerzitet"@, "zvezdara"@], seq!["RS"@])
}

pub open spec fn bulgarian_keywords() -> Seq<Seq<char>> {
    seq![
        "institut"@,
        "akademiya"@,
        "universitet"@,
        "ministerstvo"@,
        "obshtina"@,
        "muzei"@,
        "medicinska"@,
    ]
}

pub open spec fn bulgarian_rules() -> Seq<LexRuleV> {
    key_rules_of("bg"@, bulgarian_keywords(), seq!["BG"@])
}

pub open spec fn israeli_keywords() -> Seq<Seq<char>> {
    seq![
        "ha-universita"@,
        "hauniversita"@,
        "machon "@,
        "merkaz "@,
        "misrad "@,
        "misgav "@,
        "mikhlelet"@,
        "miklelet"@,
    ]
}

pub open spec fn israeli_rules() -> Seq<LexRuleV> {
    key_rules_of("he"@, israeli_keywords(), seq!["IL"@])
}

pub open spec fn korean_rules() -> Seq<LexRuleV> {
    key_rules_of("ko"@, seq!["daehak"@, "hakkyo"@, "taehak"@], seq!["KR"@])
}

/// The Greek rules: the `tei` key prefix gives English, the Greek
/// vocabulary gives Greek.
pub open spec fn greek_rules() -> Seq<LexRuleV> {
    seq![key_prefix_rule_v("en"@, "tei "@, seq!["GR"@])] + key_rules_of(
        "el"@,
        seq!["panepistimio"@, "panepistimiako"@, "ellinikon"@, "institouto"@],
        seq!["GR"@],
    )
}

/// The whole rule table, language group by language group, in cascade order.
pub open spec fn default_rules_spec() -> Seq<LexRuleV> {
    english_rules() + japanese_rules() + chinese_rules() + french_rules() + indian_rules()
        + iranian_rules() + russian_rules() + ukrainian_rules() + norwegian_rules()
        + serbian_rules() + bulgarian_rules() + israeli_rules() + korean_rules() + greek_rules()
}

// ---------------------------------------------------------------------------
// Building the table
// ---------------------------------------------------------------------------

fn base_rule(lang: &str) -> (r: LexRule)
    ensures
        r@ == base_rule_v(lang@),
{
    let r = LexRule {
        lang: String::from_str(lang),
        key_pattern: None,
        key_prefix: None,
        name_prefix: None,
        prefix_fold: false,
        countries: Vec::new(),
        exclude_countries: Vec::new(),
        exclude_key: None,
        exclude_name: None,
    };
    assert(r@ =~= base_rule_v(lang@));
    r
}

fn push_str_list(list: &mut Vec<String>, x: &str)
    ensures
        final(list).deep_view() == old(list).deep_view().push(x@),
{
    let ghost pre = list.deep_view();
    list.push(String::from_str(x));
    assert(list.deep_view() =~~= pre.push(x@));
}

fn clone_str_list(v: &Vec<String>) -> (r: Vec<String>)
    ensures
        r.deep_view() == v.deep_view(),
{
    let n = v.len();
    let mut r: Vec<String> = Vec::new();
    let mut i: usize = 0;
    while i < n
        invariant
            i <= n,
            n == v@.len(),
            v.deep_view().len() == n,
            r.deep_view().len() == i as nat,
            forall|k: int| 0 <= k < i ==> r.deep_view()[k] == v.deep_view()[k],
        decreases n - i,
    {
        let ghost pre = r.deep_view();
        r.push(v[i].clone());
        proof {
            assert(v.deep_view()[i as int] == v@[i as int]@);
            assert(r.deep_view() =~~= pre.push(v@[i as int]@));
        }
        i = i + 1;
    }
    assert(r.deep_view() =~~= v.deep_view());
    r
}

fn key_rules_vec(lang: &str, pats: &Vec<String>, countries: &Vec<String>) -> (r: Vec<LexRule>)
    ensures
        r.deep_view() == key_rules_of(lang@, pats.deep_view(), countries.deep_view()),
{
    let n = pats.len();
    let mut r: Vec<LexRule> = Vec::new();
    let mut i: usize = 0;
    while i < n
        invariant
            i <= n,
            n == pats@.len(),
            pats.deep_view().len() == n,
            r.deep_view().len() == i as nat,
            forall|k: int|
                0 <= k < i ==> r.deep_view()[k] == key_rule_v(
                    lang@,
                    pats.deep_view()[k],
                    countries.deep_view(),
                ),
        decreases n - i,
    {
        let mut rule = base_rule(lang);
        rule.key_pattern = Some(pats[i].clone());
        rule.countries = clone_str_list(countries);
        proof {
            assert(pats.deep_view()[i as int] == pats@[i as int]@);
            assert(rule@ =~= key_rule_v(lang@, pats.deep_view()[i as int], countries.deep_view()));
        }
        let ghost pre = r.deep_view();
        r.push(rule);
        proof {
            assert(r.deep_view() =~~= pre.push(rule@));
        }
        i = i + 1;
    }
    assert(r.deep_view() =~~= key_rules_of(lang@, pats.deep_view(), countries.deep_view()));
    r
}

fn name_prefix_rules_vec(lang: &str, pats: &Vec<String>, countries: &Vec<String>, fold: bool) -> (
    r: Vec<LexRule>)
    ensures
        r.deep_view() == name_prefix_rules_of(
            lang@,
            pats.deep_view(),
            countries.deep_view(),
            fold,
        ),
{
    let n = pats.len();
    let mut r: Vec<LexRule> = Vec::new();
    let mut i: usize = 0;
    while i < n
        invariant
            i <= n,
            n == pats@.len(),
            pats.deep_view().len() == n,
            r.deep_view().len() == i as nat,
            forall|k: int|
                0 <= k < i ==> r.deep_view()[k] == name_prefix_rule_v(
                    lang@,
                    pats.deep_view()[k],
                    countries.deep_view(),
                    fold,
                ),
        decreases n - i,
    {
        let mut rule = base_rule(lang);
        rule.name_prefix = Some(pats[i].clone());
        rule.prefix_fold = fold;
        rule.countries = clone_str_list(countries);
        proof {
            assert(pats.deep_view()[i as int] == pats@[i as int]@);
            assert(rule@ =~= name_prefix_rule_v(
                lang@,
                pats.deep_view()[i as int],
                countries.deep_view(),
                fold,
            ));
        }
        let ghost pre = r.deep_view();
        r.push(rule);
        proof {
            assert(r.deep_view() =~~= pre.push(rule@));
        }
        i = i + 1;
    }
    assert(r.deep_view() =~~= name_prefix_rules_of(
        lang@,
        pats.deep_view(),
        countries.deep_view(),
        fold,
    ));
    r
}

fn append_rules(dst: &mut Vec<LexRule>, src: Vec<LexRule>)
    ensures
        final(dst).deep_view() == old(dst).deep_view() + src.deep_view(),
{
    let ghost pre = dst.deep_view();
    let ghost sdv = src.deep_view();
    let mut s = src;
    dst.append(&mut s);
    assert(dst.deep_view() =~~= pre + sdv);
}

fn english_rules_x() -> (r: Vec<LexRule>)
    ensures
        r.deep_view() == english_rules(),
{
    let mut pats: Vec<String> = Vec::new();
    push_str_list(&mut pats, "university");
    push_str_list(&mut pats, "college");
    push_str_list(&mut pats, "polytechnic");
    push_str_list(&mut pats, "museum");
    push_str_list(&mut pats, "institute");
    push_str_list(&mut pats, "center");
    push_str_list(&mut pats, "clinic");
    push_str_list(&mut pats, "library");
    push_str_list(&mut pats, "society");
    push_str_list(&mut pats, "foundation");
    push_str_list(&mut pats, " trust");
    push_str_list(&mut pats, "laboratory");
    push_str_list(&mut pats, "laboratories");
    push_str_list(&mut pats, "bureau");
    push_str_list(&mut pats, "academy");
    push_str_list(&mut pats, " zoo");
    push_str_list(&mut pats, " park");
    push_str_list(&mut pats, " garden");
    push_str_list(&mut pats, "wikimedia");
    push_str_list(&mut pats, "forum");
    push_str_list(&mut pats, "municipal");
    push_str_list(&mut pats, "medical");
    push_str_list(&mut pats, "health");
    push_str_list(&mut pats, "sanitorium");
    push_str_list(&mut pats, "genebank");
    assert(pats.deep_view() =~~= english_keywords());
    let none: Vec<String> = Vec::new();
    assert(none.deep_view() =~~= Seq::<Seq<char>>::empty());
    let mut r = key_rules_vec("en", &pats, &none);

    let mut rule = base_rule("en");
    rule.key_pattern = Some(String::from_str("observatory"));
    rule.exclude_name = Some(String::from_str("\u{041F}\u{041C}\u{0424}"));
    assert(rule@ =~= observatory_rule("observatory"@));
    let ghost p1 = r.deep_view();
    r.push(rule);
    proof {
        assert(r.deep_view() =~~= p1.push(observatory_rule("observatory"@)));
    }

    let mut rule = base_rule("en");
    rule.key_pattern = Some(String::from_str("observatories"));
    rule.exclude_name = Some(String::from_str("\u{041F}\u{041C}\u{0424}"));
    assert(rule@ =~= observatory_rule("observatories"@));
    let ghost p2 = r.deep_view();
    r.push(rule);
    proof {
        assert(r.deep_view() =~~= p2.push(observatory_rule("observatories"@)));
    }

    let mut rule = base_rule("en");
    rule.key_pattern = Some(String::from_str("school"));
    rule.exclude_key = Some(String::from_str("hochshule"));
    assert(rule@ =~= (LexRuleV {
        key_pattern: Some("school"@),
        exclude_key: Some("hochshule"@),
        ..base_rule_v("en"@)
    }));
    let ghost p3 = r.deep_view();
    r.push(rule);
    proof {
        assert(r.deep_view() =~~= p3.push(
            LexRuleV {
                key_pattern: Some("school"@),
                exclude_key: Some("hochshule"@),
                ..base_rule_v("en"@)
            },
        ));
    }

    let mut ex: Vec<String> = Vec::new();
    push_str_list(&mut ex, "AR");
    push_str_list(&mut ex, "BO");
    push_str_list(&mut ex, "CL");
    push_str_list(&mut ex, "CO");
    push_str_list(&mut ex, "CR");
    push_str_list(&mut ex, "CU");
    push_str_list(&mut ex, "DO");
    push_str_list(&mut ex, "EC");
    push_str_list(&mut ex, "ES");
    push_str_list(&mut ex, "GQ");
    push_str_list(&mut ex, "GT");
    push_str_list(&mut ex, "HN");
    push_str_list(&mut ex, "MX");
    push_str_list(&mut ex, "NI");
    push_str_list(&mut ex, "PE");
    push_str_list(&mut ex, "PY");
    push_str_list(&mut ex, "UY");
    push_str_list(&mut ex, "VE");
    push_str_list(&mut ex, "PT");
    push_str_list(&mut ex, "BR");
    push_str_list(&mut ex, "CV");
    push_str_list(&mut ex, "AO");
    push_str_list(&mut ex, "MZ");
    push_str_list(&mut ex, "GW");
    push_str_list(&mut ex, "ST");
    push_str_list(&mut ex, "TL");
    assert(ex.deep_view() =~~= hospital_excluded_countries());
    let mut rule = base_rule("en");
    rule.key_pattern = Some(String::from_str("hospital"));
    rule.exclude_countries = ex;
    assert(rule@ =~= (LexRuleV {
        key_pattern: Some("hospital"@),
        exclude_countries: hospital_excluded_countries(),
        ..base_rule_v("en"@)
    }));
    let ghost p4 = r.deep_view();
    r.push(rule);
    proof {
        assert(r.deep_view() =~~= p4.push(
            LexRuleV {
                key_pattern: Some("hospital"@),
                exclude_countries: hospital_excluded_countries(),
                ..base_rule_v("en"@)
            },
        ));
    }

    let mut rule = base_rule("en");
    rule.key_pattern = Some(String::from_str("network"));
    rule.exclude_key = Some(String::from_str("researcherenye"));
    assert(rule@ =~= (LexRuleV {
        key_pattern: Some("network"@),
        exclude_key: Some("researcherenye"@),
        ..base_rule_v("en"@)
    }));
    let ghost p5 = r.deep_view();
    r.push(rule);
    proof {
        assert(r.deep_view() =~~= p5.push(
            LexRuleV {
                key_pattern: Some("network"@),
                exclude_key: Some("researcherenye"@),
                ..base_rule_v("en"@)
            },
        ));
        assert(r.deep_view() =~~= english_rules());
    }
    r
}

fn japanese_rules_x() -> (r: Vec<LexRule>)
    ensures
        r.deep_view() == japanese_rules(),
{
    let mut jp: Vec<String> = Vec::new();
    push_str_list(&mut jp, "JP");
    assert(jp.deep_view() =~~= seq!["JP"@]);
    let mut pats: Vec<String> = Vec::new();
    push_str_list(&mut pats, "daigaku");
    push_str_list(&mut pats, "daigakk\u{014D}");
    push_str_list(&mut pats, "kabushiki");
    push_str_list(&mut pats, "nippon");
    push_str_list(&mut pats, "kaihatsu");
    push_str_list(&mut pats, "bijutsukan");
    push_str_list(&mut pats, "kenritsu");
    push_str_list(&mut pats, "dokuritsu");
    push_str_list(&mut pats, " kik\u{014D}");
    push_str_list(&mut pats, "gakk\u{014D}");
    push_str_list(&mut pats, "gakko");
    push_str_list(&mut pats, "gakkou");
    push_str_list(&mut pats, "-sh\u{014D}");
    push_str_list(&mut pats, "bunka senta");
    push_str_list(&mut pats, "denryoku");
    push_str_list(&mut pats, "gakuen");
    push_str_list(&mut pats, "kagaku-kan");
    push_str_list(&mut pats, "bungaku-kan");
    push_str_list(&mut pats, "-ch\u{014D}");
    push_str_list(&mut pats, "chuobyoin");
    push_str_list(&mut pats, "shiritsu");
    push_str_list(&mut pats, "kenky\u{016B}jo");
    push_str_list(&mut pats, "kenkyujo");
    push_str_list(&mut pats, "kenky\u{016B}sho");
    push_str_list(&mut pats, "kenkei");
    push_str_list(&mut pats, "ky\u{014D}d\u{014D}");
    push_str_list(&mut pats, "tankyu");
    push_str_list(&mut pats, "kenkyusho");
    push_str_list(&mut pats, "kenkyuu");
    push_str_list(&mut pats, "kokusai");
    push_str_list(&mut pats, "hakubutsukan");
    push_str_list(&mut pats, "toshoken");
    push_str_list(&mut pats, "byoin");
    push_str_list(&mut pats, "by\u{014D}in");
    push_str_list(&mut pats, "nihon");
    push_str_list(&mut pats, "kinzoku");
    push_str_list(&mut pats, "kenky\u{016B}");
    push_str_list(&mut pats, "kokudo");
    push_str_list(&mut pats, "jitsugyo");
    push_str_list(&mut pats, "fukusei");
    push_str_list(&mut pats, "shiryokan");
    push_str_list(&mut pats, "gur\u{016B}pu");
    push_str_list(&mut pats, "kenkyuukikou");
    push_str_list(&mut pats, "shiminbyoin");
    assert(pats.deep_view() =~~= japanese_keywords());
    let mut r = key_rules_vec("ja", &pats, &jp);
    let mut rule = base_rule("ja");
    rule.key_prefix = Some(String::from_str("shiritsuchuobyoin"));
    rule.countries = jp;
    assert(rule@ =~= key_prefix_rule_v("ja"@, "shiritsuchuobyoin"@, seq!["JP"@]));
    let ghost p1 = r.deep_view();
    r.push(rule);
    proof {
        assert(r.deep_view() =~~= p1.push(
            key_prefix_rule_v("ja"@, "shiritsuchuobyoin"@, seq!["JP"@]),
        ));
        assert(r.deep_view() =~~= japanese_rules());
    }
    r
}

fn chinese_rules_x() -> (r: Vec<LexRule>)
    ensures
        r.deep_view() == chinese_rules(),
{
    let mut cn: Vec<String> = Vec::new();
    push_str_list(&mut cn, "CN");
    push_str_list(&mut cn, "TW");
    push_str_list(&mut cn, "HK");
    assert(cn.deep_view() =~~= seq!["CN"@, "TW"@, "HK"@]);
    let mut pats: Vec<String> = Vec::new();
    push_str_list(&mut pats, "d\u{00E0}xu\u{00E9}");
    push_str_list(&mut pats, "daxue");
    push_str_list(&mut pats, "d\u{00E0}x\u{00FA}e");
    push_str_list(&mut pats, "zh\u{014D}ngy\u{012B}");
    push_str_list(&mut pats, "xu\u{00E9}yu\u{00E0}n");
    push_str_list(&mut pats, "y\u{012B}yu\u{00E0}n");
    push_str_list(&mut pats, "j\u{012B}g\u{00F2}u");
    push_str_list(&mut pats, "y\u{00E1}nji\u{016B}");
    push_str_list(&mut pats, "m\u{00ED}ngu\u{00F3}");
    push_str_list(&mut pats, "y\u{00ED}nh\u{00E1}ng");
    push_str_list(&mut pats, "y\u{012B}y\u{00FA}n");
    push_str_list(&mut pats, "y\u{00E1}nji\u{00F9}yu\u{00E0}n");
    push_str_list(&mut pats, "yb\u{00F3}w\u{00F9}gu\u{01CE}n");
    push_str_list(&mut pats, "xu\u{00E9}xi\u{00E0}o");
    push_str_list(&mut pats, "sh\u{00E9}nxu\u{00E9}");
    push_str_list(&mut pats, "g\u{014D}ngy\u{00E8}");
    push_str_list(&mut pats, "zh\u{00E8}ngf\u{01D4}");
    push_str_list(&mut pats, "gu\u{00F3}ji\u{0101}");
    push_str_list(&mut pats, "sh\u{012B}f\u{00E0}n");
    assert(pats.deep_view() =~~= chinese_keywords());
    let r = key_rules_vec("zh", &pats, &cn);
    assert(r.deep_view() =~~= chinese_rules());
    r
}

fn french_rules_x() -> (r: Vec<LexRule>)
    ensures
        r.deep_view() == french_rules(),
{
    let mut fr: Vec<String> = Vec::new();
    push_str_list(&mut fr, "FR");
    push_str_list(&mut fr, "PF");
    assert(fr.deep_view() =~~= seq!["FR"@, "PF"@]);
    let mut r: Vec<LexRule> = Vec::new();
    let mut rule = base_rule("fr");
    rule.name_prefix = Some(String::from_str("Inserm "));
    rule.prefix_fold = true;
    rule.countries = clone_str_list(&fr);
    assert(rule@ =~= name_prefix_rule_v("fr"@, "Inserm "@, seq!["FR"@, "PF"@], true));
    let ghost p0 = r.deep_view();
    r.push(rule);
    proof {
        assert(r.deep_view() =~~= p0.push(
            name_prefix_rule_v("fr"@, "Inserm "@, seq!["FR"@, "PF"@], true),
        ));
    }
    let mut pats: Vec<String> = Vec::new();
    push_str_list(&mut pats, "CH ");
    push_str_list(&mut pats, "CHU ");
    push_str_list(&mut pats, "CIC ");
    push_str_list(&mut pats, "EA");
    push_str_list(&mut pats, "ERL ");
    push_str_list(&mut pats, "GDR");
    push_str_list(&mut pats, "U ");
    push_str_list(&mut pats, "UAR");
    push_str_list(&mut pats, "UMR");
    push_str_list(&mut pats, "UMRS ");
    push_str_list(&mut pats, "UMR_S ");
    push_str_list(&mut pats, "UMS ");
    push_str_list(&mut pats, "UR");
    push_str_list(&mut pats, "URP ");
    push_str_list(&mut pats, "US");
    assert(pats.deep_view() =~~= french_prefixes());
    append_rules(&mut r, name_prefix_rules_vec("fr", &pats, &fr, false));
    assert(r.deep_view() =~~= french_rules());
    r
}

fn indian_rules_x() -> (r: Vec<LexRule>)
    ensures
        r.deep_view() == indian_rules(),
{
    let mut ind: Vec<String> = Vec::new();
    push_str_list(&mut ind, "IN");
    assert(ind.deep_view() =~~= seq!["IN"@]);
    let mut pats: Vec<String> = Vec::new();
    push_str_list(&mut pats, "AIIMS");
    push_str_list(&mut pats, "GCE");
    push_str_list(&mut pats, "GMC");
    push_str_list(&mut pats, "IIIT");
    push_str_list(&mut pats, "IIM");
    push_str_list(&mut pats, "IISER");
    push_str_list(&mut pats, "IIT");
    push_str_list(&mut pats, "NIPER");
    push_str_list(&mut pats, "NIT");
    push_str_list(&mut pats, "RDC");
    push_str_list(&mut pats, "REC");
    push_str_list(&mut pats, "SKUAST");
    push_str_list(&mut pats, "JNT");
    assert(pats.deep_view() =~~= indian_prefixes());
    let mut r = name_prefix_rules_vec("en", &pats, &ind, false);

    let mut rule = base_rule("en");
    rule.key_pattern = Some(String::from_str("centre"));
    rule.countries = clone_str_list(&ind);
    assert(rule@ =~= key_rule_v("en"@, "centre"@, seq!["IN"@]));
    let ghost p1 = r.deep_view();
    r.push(rule);
    proof {
        assert(r.deep_view() =~~= p1.push(key_rule_v("en"@, "centre"@, seq!["IN"@])));
    }

    let mut rule = base_rule("hi");
    rule.name_prefix = Some(String::from_str("KVK "));
    rule.countries = clone_str_list(&ind);
    assert(rule@ =~= name_prefix_rule_v("hi"@, "KVK "@, seq!["IN"@], false));
    let ghost p2 = r.deep_view();
    r.push(rule);
    proof {
        assert(r.deep_view() =~~= p2.push(name_prefix_rule_v("hi"@, "KVK "@, seq!["IN"@], false)));
    }

    let mut rule = base_rule("hi");
    rule.key_prefix = Some(String::from_str("GCE"));
    rule.countries = clone_str_list(&ind);
    assert(rule@ =~= key_prefix_rule_v("hi"@, "GCE"@, seq!["IN"@]));
    let ghost p3 = r.deep_view();
    r.push(rule);
    proof {
        assert(r.deep_view() =~~= p3.push(key_prefix_rule_v("hi"@, "GCE"@, seq!["IN"@])));
    }

    let mut hi_pats: Vec<String> = Vec::new();
    push_str_list(&mut hi_pats, " vigyan");
    push_str_list(&mut hi_pats, " vishwavidyalaya");
    push_str_list(&mut hi_pats, " sanstha");
    push_str_list(&mut hi_pats, " sansth\u{0101}");
    push_str_list(&mut hi_pats, " vidy\u{0101}laya");
    push_str_list(&mut hi_pats, "krishi");
    push_str_list(&mut hi_pats, "samsthana");
    assert(hi_pats.deep_view() =~~= hindi_keywords());
    append_rules(&mut r, key_rules_vec("hi", &hi_pats, &ind));
    assert(r.deep_view() =~~= indian_rules());
    r
}

fn iranian_rules_x() -> (r: Vec<LexRule>)
    ensures
        r.deep_view() == iranian_rules(),
{
    let mut ir: Vec<String> = Vec::new();
    push_str_list(&mut ir, "IR");
    assert(ir.deep_view() =~~= seq!["IR"@]);
    let mut pats: Vec<String> = Vec::new();
    push_str_list(&mut pats, "d\u{0101}neshg\u{0101}h");
    assert(pats.deep_view() =~~= seq!["d\u{0101}neshg\u{0101}h"@]);
    let r = key_rules_vec("fa", &pats, &ir);
    assert(r.deep_view() =~~= iranian_rules());
    r
}

fn russian_rules_x() -> (r: Vec<LexRule>)
    ensures
        r.deep_view() == russian_rules(),
{
    let mut ru: Vec<String> = Vec::new();
    push_str_list(&mut ru, "RU");
    assert(ru.deep_view() =~~= seq!["RU"@]);
    let mut pats: Vec<String> = Vec::new();
    push_str_list(&mut pats, "institut ");
    push_str_list(&mut pats, "universitet");
    push_str_list(&mut pats, "akademiya");
    push_str_list(&mut pats, "akad\u{00E9}miya");
    push_str_list(&mut pats, "oblastnoy");
    assert(pats.deep_view() =~~= russian_keywords_a());
    let mut r = key_rules_vec("ru", &pats, &ru);

    let mut rule = base_rule("ru");
    rule.name_prefix = Some(String::from_str("JSC "));
    rule.countries = clone_str_list(&ru);
    assert(rule@ =~= name_prefix_rule_v("ru"@, "JSC "@, seq!["RU"@], false));
    let ghost p1 = r.deep_view();
    r.push(rule);
    proof {
        assert(r.deep_view() =~~= p1.push(name_prefix_rule_v("ru"@, "JSC "@, seq!["RU"@], false)));
    }

    let mut pats2: Vec<String> = Vec::new();
    push_str_list(&mut pats2, "federalnyy");
    push_str_list(&mut pats2, "patologii");
    push_str_list(&mut pats2, "khirurgii");
    push_str_list(&mut pats2, "shkola");
    push_str_list(&mut pats2, "kombinat");
    push_str_list(&mut pats2, "tsentr");
    assert(pats2.deep_view() =~~= russian_keywords_b());
    append_rules(&mut r, key_rules_vec("ru", &pats2, &ru));
    assert(r.deep_view() =~~= russian_rules());
    r
}

fn ukrainian_rules_x() -> (r: Vec<LexRule>)
    ensures
        r.deep_view() == ukrainian_rules(),
{
    let mut ua: Vec<String> = Vec::new();
    push_str_list(&mut ua, "UA");
    assert(ua.deep_view() =~~= seq!["UA"@]);
    let mut pats: Vec<String> = Vec::new();
    push_str_list(&mut pats, "universit\u{00E9}t ");
    push_str_list(&mut pats, "universytet");
    push_str_list(&mut pats, "ukrainsky");
    push_str_list(&mut pats, "ukrayinska");
    push_str_list(&mut pats, "ukrayiny");
    assert(pats.deep_view() =~~= ukrainian_keywords());
    let r = key_rules_vec("uk", &pats, &ua);
    assert(r.deep_view() =~~= ukrainian_rules());
    r
}

fn norwegian_rules_x() -> (r: Vec<LexRule>)
    ensures
        r.deep_view() == norwegian_rules(),
{
    let mut no_c: Vec<String> = Vec::new();
    push_str_list(&mut no_c, "NO");
    assert(no_c.deep_view() =~~= seq!["NO"@]);
    let mut pats: Vec<String> = Vec::new();
    push_str_list(&mut pats, "sykehus");
    push_str_list(&mut pats, "skole");
    push_str_list(&mut pats, "skule");
    push_str_list(&mut pats, "universitet");
    push_str_list(&mut pats, " i ");
    push_str_list(&mut pats, "\u{00F8}");
    push_str_list(&mut pats, "direktoratet");
    push_str_list(&mut pats, "registeret");
    push_str_list(&mut pats, "kommune");
    push_str_list(&mut pats, "instituut");
    assert(pats.deep_view() =~~= norwegian_keywords());
    let r = key_rules_vec("no", &pats, &no_c);
    assert(r.deep_view() =~~= norwegian_rules());
    r
}

fn serbian_rules_x() -> (r: Vec<LexRule>)
    ensures
        r.deep_view() == serbian_rules(),
{
    let mut rs_c: Vec<String> = Vec::new();
    push_str_list(&mut rs_c, "RS");
    assert(rs_c.deep_view() =~~= seq!["RS"@]);
    let mut pats: Vec<String> = Vec::new();
    push_str_list(&mut pats, "institut");
    push_str_list(&mut pats, "univerzitet");
    push_str_list(&mut pats, "zvezdara");
    assert(pats.deep_view() =~~= seq!["institut"@, "univerzitet"@, "zvezdara"@]);
    let r = key_rules_vec("sr", &pats, &rs_c);
    assert(r.deep_view() =~~= serbian_rules());
    r
}

fn bulgarian_rules_x() -> (r: Vec<LexRule>)
    ensures
        r.deep_view() == bulgarian_rules(),
{
    let mut bg_c: Vec<String> = Vec::new();
    push_str_list(&mut bg_c, "BG");
    assert(bg_c.deep_view() =~~= seq!["BG"@]);
    let mut pats: Vec<String> = Vec::new();
    push_str_list(&mut pats, "institut");
    push_str_list(&mut pats, "akademiya");
    push_str_list(&mut pats, "universitet");
    push_str_list(&mut pats, "ministerstvo");
    push_str_list(&mut pats, "obshtina");
    push_str_list(&mut pats, "muzei");
    push_str_list(&mut pats, "medicinska");
    assert(pats.deep_view() =~~= bulgarian_keywords());
    let r = key_rules_vec("bg", &pats, &bg_c);
    assert(r.deep_view() =~~= bulgarian_rules());
    r
}

fn israeli_rules_x() -> (r: Vec<LexRule>)
    ensures
        r.deep_view() == israeli_rules(),
{
    let mut il: Vec<String> = Vec::new();
    push_str_list(&mut il, "IL");
    assert(il.deep_view() =~~= seq!["IL"@]);
    let mut pats: Vec<String> = Vec::new();
    push_str_list(&mut pats, "ha-universita");
    push_str_list(&mut pats, "hauniversita");
    push_str_list(&mut pats, "machon ");
    push_str_list(&mut pats, "merkaz ");
    push_str_list(&mut pats, "misrad ");
    push_str_list(&mut pats, "misgav ");
    push_str_list(&mut pats, "mikhlelet");
    push_str_list(&mut pats, "miklelet");
    assert(pats.deep_view() =~~= israeli_keywords());
    let r = key_rules_vec("he", &pats, &il);
    assert(r.deep_view() =~~= israeli_rules());
    r
}

fn korean_rules_x() -> (r: Vec<LexRule>)
    ensures
        r.deep_view() == korean_rules(),
{
    let mut kr: Vec<String> = Vec::new();
    push_str_list(&mut kr, "KR");
    assert(kr.deep_view() =~~= seq!["KR"@]);
    let mut pats: Vec<String> = Vec::new();
    push_str_list(&mut pats, "daehak");
    push_str_list(&mut pats, "hakkyo");
    push_str_list(&mut pats, "taehak");
    assert(pats.deep_view() =~~= seq!["daehak"@, "hakkyo"@, "taehak"@]);
    let r = key_rules_vec("ko", &pats, &kr);
    assert(r.deep_view() =~~= korean_rules());
    r
}

fn greek_rules_x() -> (r: Vec<LexRule>)
    ensures
        r.deep_view() == greek_rules(),
{
    let mut gr: Vec<String> = Vec::new();
    push_str_list(&mut gr, "GR");
    assert(gr.deep_view() =~~= seq!["GR"@]);
    let mut r: Vec<LexRule> = Vec::new();
    let mut rule = base_rule("en");
    rule.key_prefix = Some(String::from_str("tei "));
    rule.countries = clone_str_list(&gr);
    assert(rule@ =~= key_prefix_rule_v("en"@, "tei "@, seq!["GR"@]));
    let ghost p0 = r.deep_view();
    r.push(rule);
    proof {
        assert(r.deep_view() =~~= p0.push(key_prefix_rule_v("en"@, "tei "@, seq!["GR"@])));
    }
    let mut pats: Vec<String> = Vec::new();
    push_str_list(&mut pats, "panepistimio");
    push_str_list(&mut pats, "panepistimiako");
    push_str_list(&mut pats, "ellinikon");
    push_str_list(&mut pats, "institouto");
    assert(pats.deep_view() =~~= seq![
        "panepistimio"@,
        "panepistimiako"@,
        "ellinikon"@,
        "institouto"@,
    ]);
    append_rules(&mut r, key_rules_vec("el", &pats, &gr));
    assert(r.deep_view() =~~= greek_rules());
    r
}

/// The rule table the program ships with: exactly the rows of
/// [`default_rules_spec`], in order.
pub fn default_lex_rules() -> (r: Vec<LexRule>)
    ensures
        r.deep_view() == default_rules_spec(),
{
    let mut rules = english_rules_x();
    append_rules(&mut rules, japanese_rules_x());
    append_rules(&mut rules, chinese_rules_x());
    append_rules(&mut rules, french_rules_x());
    append_rules(&mut rules, indian_rules_x());
    append_rules(&mut rules, iranian_rules_x());
    append_rules(&mut rules, russian_rules_x());
    append_rules(&mut rules, ukrainian_rules_x());
    append_rules(&mut rules, norwegian_rules_x());
    append_rules(&mut rules, serbian_rules_x());
    append_rules(&mut rules, bulgarian_rules_x());
    append_rules(&mut rules, israeli_rules_x());
    append_rules(&mut rules, korean_rules_x());
    append_rules(&mut rules, greek_rules_x());
    assert(rules.deep_view() =~~= default_rules_spec());
    rules
}

} // verus!
