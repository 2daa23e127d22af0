//! The language classifier: a fixed, ordered cascade of rule tiers over the
//! whole name-record set.
//!
//! The order is: normalization of match keys; provenance tagging of codes
//! that came with the source data; script and country rules; the commercial
//! brand override (the single unconditional override); the per-language
//! keyword rules; mono-lingual-organization propagation; and acronym
//! derivation.  Every tier except the brand override touches only records
//! whose `lang_code` is still unset, so a code, once written, is never
//! rewritten.

use vstd::prelude::*;
use crate::records::{NameRecord, NameRecV, Organization, OrgV, NameType, opt_view,
    ORG_TYPE_COMPANY};
use crate::normalize::{norm_spec, normalize, step_fold, fold_case};
use crate::strutil::{chars_of, string_from_chars, contains_sub, starts_with, contains_chars,
    starts_with_chars, str_eq};
use crate::acronym::{CandV, Candidate, compress, derive_spec, derive_for_acronym};

verus! {

// ---------------------------------------------------------------------------
// Organization lookup
// ---------------------------------------------------------------------------

/// The first organization with the given id.
pub open spec fn org_of(orgs: Seq<OrgV>, id: Seq<char>) -> Option<OrgV>
    decreases orgs.len(),
{
    if orgs.len() == 0 {
        None
    } else if orgs[0].id == id {
        Some(orgs[0])
    } else {
        org_of(orgs.drop_first(), id)
    }
}

/// The country of the organization owning `id`, when it is known.
pub open spec fn country_of(orgs: Seq<OrgV>, id: Seq<char>) -> Option<Seq<char>> {
    match org_of(orgs, id) {
        Some(o) => Some(o.country_code),
        None => None,
    }
}

/// Whether `id` belongs to a commercial company.
pub open spec fn is_commercial(orgs: Seq<OrgV>, id: Seq<char>) -> bool {
    match org_of(orgs, id) {
        Some(o) => o.org_type == ORG_TYPE_COMPANY,
        None => false,
    }
}

fn find_country(orgs: &Vec<Organization>, id: &str) -> (r: Option<String>)
    ensures
        opt_view(r) == country_of(orgs.deep_view(), id@),
{
    let n = orgs.len();
    let mut i: usize = 0;
    proof {
        assert(orgs.deep_view().skip(0) =~= orgs.deep_view());
    }
    while i < n
        invariant
            i <= n,
            n == orgs@.len(),
            orgs.deep_view().len() == n,
            org_of(orgs.deep_view(), id@) == org_of(orgs.deep_view().skip(i as int), id@),
        decreases n - i,
    {
        proof {
            assert(orgs.deep_view().skip(i as int).drop_first() =~= orgs.deep_view().skip(i + 1));
            assert(orgs.deep_view().skip(i as int)[0] == orgs.deep_view()[i as int]);
            assert(orgs.deep_view()[i as int] == orgs@[i as int]@);
        }
        if str_eq(orgs[i].id.as_str(), id) {
            return Some(orgs[i].country_code.clone());
        }
        i = i + 1;
    }
    proof {
        assert(orgs.deep_view().skip(n as int) =~= Seq::<OrgV>::empty());
    }
    None
}

fn find_commercial(orgs: &Vec<Organization>, id: &str) -> (r: bool)
    ensures
        r == is_commercial(orgs.deep_view(), id@),
{
    let n = orgs.len();
    let mut i: usize = 0;
    proof {
        assert(orgs.deep_view().skip(0) =~= orgs.deep_view());
    }
    while i < n
        invariant
            i <= n,
            n == orgs@.len(),
            orgs.deep_view().len() == n,
            org_of(orgs.deep_view(), id@) == org_of(orgs.deep_view().skip(i as int), id@),
        decreases n - i,
    {
        proof {
            assert(orgs.deep_view().skip(i as int).drop_first() =~= orgs.deep_view().skip(i + 1));
            assert(orgs.deep_view().skip(i as int)[0] == orgs.deep_view()[i as int]);
            assert(orgs.deep_view()[i as int] == orgs@[i as int]@);
        }
        if str_eq(orgs[i].id.as_str(), id) {
            return orgs[i].org_type == ORG_TYPE_COMPANY;
        }
        i = i + 1;
    }
    proof {
        assert(orgs.deep_view().skip(n as int) =~= Seq::<OrgV>::empty());
    }
    false
}

// ---------------------------------------------------------------------------
// Record helpers
// ---------------------------------------------------------------------------

fn opt_clone(o: &Option<String>) -> (r: Option<String>)
    ensures
        r == *o,
{
    match o {
        Some(s) => Some(s.clone()),
        None => None,
    }
}

fn rec_copy(r: &NameRecord) -> (res: NameRecord)
    ensures
        res@ == r@,
{
    let res = NameRecord {
        id: r.id.clone(),
        name: r.name.clone(),
        name_to_match: opt_clone(&r.name_to_match),
        name_type: r.name_type,
        script_code: r.script_code.clone(),
        lang_code: opt_clone(&r.lang_code),
        lang_source: opt_clone(&r.lang_source),
    };
    assert(res@ =~= r@);
    res
}

// ---------------------------------------------------------------------------
// Pass 1: the normalizer, filling name_to_match once
// ---------------------------------------------------------------------------

/// The match key is written once: a record that already has one keeps it.
pub open spec fn norm_rec(r: NameRecV) -> NameRecV {
    if r.name_to_match is None {
        NameRecV { name_to_match: Some(norm_spec(r.name)), ..r }
    } else {
        r
    }
}

/// The normalization tier over the whole record set.
pub open spec fn norm_pass(rs: Seq<NameRecV>) -> Seq<NameRecV> {
    Seq::new(rs.len(), |i: int| norm_rec(rs[i]))
}

// ---------------------------------------------------------------------------
// Provenance tagging
// ---------------------------------------------------------------------------

/// A record whose code has no provenance yet is tagged with `src`.
pub open spec fn tag_rec(r: NameRecV, src: Seq<char>) -> NameRecV {
    if r.lang_code is Some && r.lang_source is None {
        NameRecV { lang_source: Some(src), ..r }
    } else {
        r
    }
}

/// The provenance-tagging tier over the whole record set.
pub open spec fn tag_pass(rs: Seq<NameRecV>, src: Seq<char>) -> Seq<NameRecV> {
    Seq::new(rs.len(), |i: int| tag_rec(rs[i], src))
}

// ---------------------------------------------------------------------------
// Script and country rules
// ---------------------------------------------------------------------------

/// The language expected for a non-Latin-script name, by the owning
/// organization's country.
pub open spec fn country_script_lang(country: Seq<char>) -> Option<Seq<char>> {
    if country == "RU"@ {
        Some("ru"@)
    } else if country == "UA"@ {
        Some("uk"@)
    } else if country == "GR"@ || country == "CY"@ {
        Some("el"@)
    } else if country == "JP"@ {
        Some("ja"@)
    } else if country == "CN"@ || country == "TW"@ {
        Some("zh"@)
    } else if country == "KR"@ {
        Some("ko"@)
    } else if country == "BG"@ {
        Some("bg"@)
    } else if country == "BY"@ {
        Some("be"@)
    } else if country == "KG"@ {
        Some("ky"@)
    } else if country == "KZ"@ {
        Some("kk"@)
    } else if country == "MN"@ {
        Some("mn"@)
    } else if country == "UZ"@ {
        Some("uz"@)
    } else if country == "AM"@ {
        Some("hy"@)
    } else if country == "TJ"@ {
        Some("tg"@)
    } else if country == "MK"@ {
        Some("mk"@)
    } else if country == "AZ"@ {
        Some("az"@)
    } else if country == "BA"@ {
        Some("bs"@)
    } else if country == "RS"@ {
        Some("sr"@)
    } else if country == "LT"@ {
        Some("lt"@)
    } else {
        None
    }
}

/// The language a script alone determines, regardless of country.
pub open spec fn script_only_lang(script: Seq<char>) -> Option<Seq<char>> {
    if script == "Hebr"@ {
        Some("he"@)
    } else if script == "Tibt"@ {
        Some("bo"@)
    } else if script == "Knda"@ {
        Some("kn"@)
    } else if script == "Deva"@ {
        Some("hi"@)
    } else if script == "Thai"@ {
        Some("th"@)
    } else {
        None
    }
}

/// What the script tiers assign to a record, if anything: the
/// country-by-script rule for non-Latin scripts first, then the script-only
/// rule, then the Greek-script/US special case.
pub open spec fn script_assign(r: NameRecV, country: Option<Seq<char>>) -> Option<Seq<char>> {
    if r.script_code != "Latn"@ && country is Some && country_script_lang(country->0) is Some {
        country_script_lang(country->0)
    } else if script_only_lang(r.script_code) is Some {
        script_only_lang(r.script_code)
    } else if r.script_code == "Grek"@ && country == Some("US"@) {
        Some("en"@)
    } else {
        None
    }
}

/// A still-null record takes what the script tiers assign, if anything.
pub open spec fn script_rec(r: NameRecV, country: Option<Seq<char>>) -> NameRecV {
    if r.lang_code is None && script_assign(r, country) is Some {
        NameRecV { lang_code: script_assign(r, country), ..r }
    } else {
        r
    }
}

/// The script tiers over the whole record set.
pub open spec fn script_pass(rs: Seq<NameRecV>, orgs: Seq<OrgV>) -> Seq<NameRecV> {
    Seq::new(rs.len(), |i: int| script_rec(rs[i], country_of(orgs, rs[i].id)))
}

// ---------------------------------------------------------------------------
// The commercial brand override
// ---------------------------------------------------------------------------

/// Every name of a commercial company is forced to the brand code,
/// overwriting anything set before.
pub open spec fn brand_rec(r: NameRecV, commercial: bool) -> NameRecV {
    if commercial {
        NameRecV { lang_code: Some("cm"@), lang_source: Some("cm_brand"@), ..r }
    } else {
        r
    }
}

/// The brand-override tier over the whole record set.
pub open spec fn brand_pass(rs: Seq<NameRecV>, orgs: Seq<OrgV>) -> Seq<NameRecV> {
    Seq::new(rs.len(), |i: int| brand_rec(rs[i], is_commercial(orgs, rs[i].id)))
}

// ---------------------------------------------------------------------------
// Keyword rules
// ---------------------------------------------------------------------------

/// One keyword rule: assigns `lang` to a still-null non-acronym record when
/// its patterns hold.
pub struct LexRule {
    /// The language code the rule assigns.
    pub lang: String,
    /// A substring the match key must hold.
    pub key_pattern: Option<String>,
    /// A prefix the match key must have.
    pub key_prefix: Option<String>,
    /// A prefix the raw name must have.
    pub name_prefix: Option<String>,
    /// Compare the raw-name prefix case-insensitively.
    pub prefix_fold: bool,
    /// Countries the organization must be in (empty: no filter).
    pub countries: Vec<String>,
    /// Countries the organization must not be in (empty: no filter).
    pub exclude_countries: Vec<String>,
    /// A substring the match key must not hold.
    pub exclude_key: Option<String>,
    /// A substring the raw name must not hold.
    pub exclude_name: Option<String>,
}

/// The mathematical value of a keyword rule.
#[verifier::ext_equal]
pub struct LexRuleV {
    pub lang: Seq<char>,
    pub key_pattern: Option<Seq<char>>,
    pub key_prefix: Option<Seq<char>>,
    pub name_prefix: Option<Seq<char>>,
    pub prefix_fold: bool,
    pub countries: Seq<Seq<char>>,
    pub exclude_countries: Seq<Seq<char>>,
    pub exclude_key: Option<Seq<char>>,
    pub exclude_name: Option<Seq<char>>,
}

impl View for LexRule {
    type V = LexRuleV;

    open spec fn view(&self) -> LexRuleV {
        LexRuleV {
            lang: self.lang@,
            key_pattern: opt_view(self.key_pattern),
            key_prefix: opt_view(self.key_prefix),
            name_prefix: opt_view(self.name_prefix),
            prefix_fold: self.prefix_fold,
            countries: self.countries.deep_view(),
            exclude_countries: self.exclude_countries.deep_view(),
            exclude_key: opt_view(self.exclude_key),
            exclude_name: opt_view(self.exclude_name),
        }
    }
}

impl DeepView for LexRule {
    type V = LexRuleV;

    open spec fn deep_view(&self) -> LexRuleV {
        self.view()
    }
}

/// Whether a rule's conditions hold of a record.
pub open spec fn rule_matches(rule: LexRuleV, r: NameRecV, country: Option<Seq<char>>) -> bool {
    &&& r.name_type != NameType::Acronym
    &&& (rule.countries.len() == 0 || (country is Some && rule.countries.contains(country->0)))
    &&& (rule.exclude_countries.len() == 0 || (country is Some && !rule.exclude_countries.contains(
        country->0,
    )))
    &&& (match rule.key_pattern {
        Some(p) => r.name_to_match is Some && contains_sub(r.name_to_match->0, p),
        None => true,
    })
    &&& (match rule.key_prefix {
        Some(p) => r.name_to_match is Some && starts_with(r.name_to_match->0, p),
        None => true,
    })
    &&& (match rule.name_prefix {
        Some(p) => if rule.prefix_fold {
            starts_with(step_fold(r.name), step_fold(p))
        } else {
            starts_with(r.name, p)
        },
        None => true,
    })
    &&& (match rule.exclude_key {
        Some(p) => !(r.name_to_match is Some && contains_sub(r.name_to_match->0, p)),
        None => true,
    })
    &&& (match rule.exclude_name {
        Some(p) => !contains_sub(r.name, p),
        None => true,
    })
}

/// The language of the first rule that matches, in rule order.
pub open spec fn first_rule_lang(
    rules: Seq<LexRuleV>,
    r: NameRecV,
    country: Option<Seq<char>>,
) -> Option<Seq<char>>
    decreases rules.len(),
{
    if rules.len() == 0 {
        None
    } else if rule_matches(rules[0], r, country) {
        Some(rules[0].lang)
    } else {
        first_rule_lang(rules.drop_first(), r, country)
    }
}

/// A still-null non-acronym record takes the first matching rule's language.
pub open spec fn lex_rec(
    r: NameRecV,
    rules: Seq<LexRuleV>,
    country: Option<Seq<char>>,
) -> NameRecV {
    if r.lang_code is None && first_rule_lang(rules, r, country) is Some {
        NameRecV { lang_code: first_rule_lang(rules, r, country), ..r }
    } else {
        r
    }
}

/// The keyword tier over the whole record set.
pub open spec fn lex_pass(rs: Seq<NameRecV>, orgs: Seq<OrgV>, rules: Seq<LexRuleV>) -> Seq<
    NameRecV,
> {
    Seq::new(rs.len(), |i: int| lex_rec(rs[i], rules, country_of(orgs, rs[i].id)))
}

// ---------------------------------------------------------------------------
// Mono-lingual-organization propagation
// ---------------------------------------------------------------------------

/// Record `j` contributes language `l` to its organization's language set:
/// it is a coded, non-acronym record of that organization, and its code is
/// not the brand code.
pub open spec fn contributes(rs: Seq<NameRecV>, id: Seq<char>, j: int, l: Seq<char>) -> bool {
    0 <= j < rs.len() && rs[j].id == id && rs[j].name_type != NameType::Acronym
        && rs[j].lang_code == Some(l) && l != "cm"@
}

/// The distinct language codes of an organization's coded non-acronym,
/// non-brand records.
pub open spec fn org_langs(rs: Seq<NameRecV>, id: Seq<char>) -> Set<Seq<char>> {
    Set::new(|l: Seq<char>| exists|j: int| contributes(rs, id, j, l))
}

/// The single language of a mono-lingual organization, if there is one.
pub open spec fn mono_lang(rs: Seq<NameRecV>, id: Seq<char>) -> Option<Seq<char>> {
    if exists|c: Seq<char>| org_langs(rs, id) == set![c] {
        Some(choose|c: Seq<char>| org_langs(rs, id) == set![c])
    } else {
        None
    }
}

/// A still-null acronym record of a mono-lingual organization receives that
/// organization's single language.
pub open spec fn prop_rec(r: NameRecV, rs: Seq<NameRecV>) -> NameRecV {
    if r.name_type == NameType::Acronym && r.lang_code is None && mono_lang(rs, r.id) is Some {
        NameRecV {
            lang_code: mono_lang(rs, r.id),
            lang_source: Some("mono lang org"@),
            ..r
        }
    } else {
        r
    }
}

/// The propagation tier over the whole record set, against a snapshot of it.
pub open spec fn prop_pass(rs: Seq<NameRecV>) -> Seq<NameRecV> {
    Seq::new(rs.len(), |i: int| prop_rec(rs[i], rs))
}

// ---------------------------------------------------------------------------
// Acronym derivation
// ---------------------------------------------------------------------------

/// The candidate source names for an organization's acronyms: its
/// Latin-script non-acronym records with a match key, in record order.
pub open spec fn cands_of(rs: Seq<NameRecV>, id: Seq<char>) -> Seq<CandV>
    decreases rs.len(),
{
    if rs.len() == 0 {
        Seq::empty()
    } else if rs[0].id == id && rs[0].name_type != NameType::Acronym && rs[0].script_code
        == "Latn"@ && rs[0].name_to_match is Some {
        seq![CandV { key: rs[0].name_to_match->0, lang: rs[0].lang_code }] + cands_of(
            rs.drop_first(),
            id,
        )
    } else {
        cands_of(rs.drop_first(), id)
    }
}

/// A still-null acronym record receives the joined language codes of its
/// derived-acronym evidence, when a tier matched.
pub open spec fn derive_rec(r: NameRecV, rs: Seq<NameRecV>) -> NameRecV {
    if r.name_type == NameType::Acronym && r.lang_code is None && r.name_to_match is Some
        && derive_spec(cands_of(rs, r.id), compress(r.name_to_match->0)) is Some {
        let m = derive_spec(cands_of(rs, r.id), compress(r.name_to_match->0))->0;
        NameRecV { lang_code: Some(m.0), lang_source: Some("derived acro"@), ..r }
    } else {
        r
    }
}

/// The derivation tier over the whole record set, against a snapshot of it.
pub open spec fn derive_pass(rs: Seq<NameRecV>) -> Seq<NameRecV> {
    Seq::new(rs.len(), |i: int| derive_rec(rs[i], rs))
}

// ---------------------------------------------------------------------------
// The whole cascade
// ---------------------------------------------------------------------------

/// The pipeline: every tier, in the documented order.
pub open spec fn pipeline_spec(
    rs: Seq<NameRecV>,
    orgs: Seq<OrgV>,
    rules: Seq<LexRuleV>,
) -> Seq<NameRecV> {
    let s1 = norm_pass(rs);
    let s2 = tag_pass(s1, "ror"@);
    let s3 = script_pass(s2, orgs);
    let s4 = tag_pass(s3, "script_auto"@);
    let s5 = brand_pass(s4, orgs);
    let s6 = lex_pass(s5, orgs, rules);
    let s7 = tag_pass(s6, "lex_auto"@);
    let s8 = prop_pass(s7);
    derive_pass(s8)
}

// ---------------------------------------------------------------------------
// Executable passes
// ---------------------------------------------------------------------------

/// Derives and stores the match key of every record that has none yet.
///
/// Total: every record set is accepted, and the result is exactly the
/// normalization pass over the input.
pub fn prep_names(records: &mut Vec<NameRecord>)
    ensures
        final(records).deep_view() == norm_pass(old(records).deep_view()),
{
    let n = records.len();
    let mut out: Vec<NameRecord> = Vec::new();
    let mut i: usize = 0;
    while i < n
        invariant
            i <= n,
            n == records@.len(),
            records@ == old(records)@,
            out.deep_view().len() == i as nat,
            forall|k: int|
                0 <= k < i ==> out.deep_view()[k] == norm_rec(
                    #[trigger] records.deep_view()[k],
                ),
        decreases n - i,
    {
        proof {
            assert(records.deep_view()[i as int] == records@[i as int]@);
        }
        let r = &records[i];
        let nr = match &r.name_to_match {
            None => {
                let key = normalize(r.name.as_str());
                NameRecord {
                    id: r.id.clone(),
                    name: r.name.clone(),
                    name_to_match: Some(key),
                    name_type: r.name_type,
                    script_code: r.script_code.clone(),
                    lang_code: opt_clone(&r.lang_code),
                    lang_source: opt_clone(&r.lang_source),
                }
            },
            Some(_) => rec_copy(r),
        };
        proof {
            assert(nr@ =~= norm_rec(records.deep_view()[i as int]));
        }
        out.push(nr);
        i = i + 1;
    }
    *records = out;
    assert(records.deep_view() =~= norm_pass(old(records).deep_view()));
}

/// Tags every record whose code still lacks a provenance with `src`.
fn tag_records(records: &mut Vec<NameRecord>, src: &str)
    ensures
        final(records).deep_view() == tag_pass(old(records).deep_view(), src@),
{
    let n = records.len();
    let mut out: Vec<NameRecord> = Vec::new();
    let mut i: usize = 0;
    while i < n
        invariant
            i <= n,
            n == records@.len(),
            records@ == old(records)@,
            out.deep_view().len() == i as nat,
            forall|k: int|
                0 <= k < i ==> out.deep_view()[k] == tag_rec(
                    #[trigger] records.deep_view()[k],
                    src@,
                ),
        decreases n - i,
    {
        proof {
            assert(records.deep_view()[i as int] == records@[i as int]@);
        }
        let r = &records[i];
        let set_src = match (&r.lang_code, &r.lang_source) {
            (Some(_), None) => true,
            _ => false,
        };
        let nr = if set_src {
            NameRecord {
                id: r.id.clone(),
                name: r.name.clone(),
                name_to_match: opt_clone(&r.name_to_match),
                name_type: r.name_type,
                script_code: r.script_code.clone(),
                lang_code: opt_clone(&r.lang_code),
                lang_source: Some(String::from_str(src)),
            }
        } else {
            rec_copy(r)
        };
        proof {
            assert(nr@ =~= tag_rec(records.deep_view()[i as int], src@));
        }
        out.push(nr);
        i = i + 1;
    }
    *records = out;
    assert(records.deep_view() =~= tag_pass(old(records).deep_view(), src@));
}

fn country_script_lang_x(country: &str) -> (r: Option<String>)
    ensures
        opt_view(r) == country_script_lang(country@),
{
    if str_eq(country, "RU") {
        Some(String::from_str("ru"))
    } else if str_eq(country, "UA") {
        Some(String::from_str("uk"))
    } else if str_eq(country, "GR") || str_eq(country, "CY") {
        Some(String::from_str("el"))
    } else if str_eq(country, "JP") {
        Some(String::from_str("ja"))
    } else if str_eq(country, "CN") || str_eq(country, "TW") {
        Some(String::from_str("zh"))
    } else if str_eq(country, "KR") {
        Some(String::from_str("ko"))
    } else if str_eq(country, "BG") {
        Some(String::from_str("bg"))
    } else if str_eq(country, "BY") {
        Some(String::from_str("be"))
    } else if str_eq(country, "KG") {
        Some(String::from_str("ky"))
    } else if str_eq(country, "KZ") {
        Some(String::from_str("kk"))
    } else if str_eq(country, "MN") {
        Some(String::from_str("mn"))
    } else if str_eq(country, "UZ") {
        Some(String::from_str("uz"))
    } else if str_eq(country, "AM") {
        Some(String::from_str("hy"))
    } else if str_eq(country, "TJ") {
        Some(String::from_str("tg"))
    } else if str_eq(country, "MK") {
        Some(String::from_str("mk"))
    } else if str_eq(country, "AZ") {
        Some(String::from_str("az"))
    } else if str_eq(country, "BA") {
        Some(String::from_str("bs"))
    } else if str_eq(country, "RS") {
        Some(String::from_str("sr"))
    } else if str_eq(country, "LT") {
        Some(String::from_str("lt"))
    } else {
        None
    }
}

fn script_only_lang_x(script: &str) -> (r: Option<String>)
    ensures
        opt_view(r) == script_only_lang(script@),
{
    if str_eq(script, "Hebr") {
        Some(String::from_str("he"))
    } else if str_eq(script, "Tibt") {
        Some(String::from_str("bo"))
    } else if str_eq(script, "Knda") {
        Some(String::from_str("kn"))
    } else if str_eq(script, "Deva") {
        Some(String::from_str("hi"))
    } else if str_eq(script, "Thai") {
        Some(String::from_str("th"))
    } else {
        None
    }
}

fn script_assign_x(r: &NameRecord, country: &Option<String>) -> (res: Option<String>)
    ensures
        opt_view(res) == script_assign(r@, opt_view(*country)),
{
    let not_latin = !str_eq(r.script_code.as_str(), "Latn");
    if not_latin {
        match country {
            Some(c) => {
                let by_country = country_script_lang_x(c.as_str());
                match by_country {
                    Some(l) => {
                        return Some(l);
                    },
                    None => {},
                }
            },
            None => {},
        }
    }
    let by_script = script_only_lang_x(r.script_code.as_str());
    match by_script {
        Some(l) => {
            return Some(l);
        },
        None => {},
    }
    if str_eq(r.script_code.as_str(), "Grek") {
        match country {
            Some(c) => {
                if str_eq(c.as_str(), "US") {
                    return Some(String::from_str("en"));
                }
            },
            None => {},
        }
    }
    None
}

/// Applies the script and country tiers to every still-null record.
fn script_records(records: &mut Vec<NameRecord>, orgs: &Vec<Organization>)
    ensures
        final(records).deep_view() == script_pass(old(records).deep_view(), orgs.deep_view()),
{
    let n = records.len();
    let mut out: Vec<NameRecord> = Vec::new();
    let mut i: usize = 0;
    while i < n
        invariant
            i <= n,
            n == records@.len(),
            records@ == old(records)@,
            out.deep_view().len() == i as nat,
            forall|k: int|
                0 <= k < i ==> out.deep_view()[k] == script_rec(
                    #[trigger] records.deep_view()[k],
                    country_of(orgs.deep_view(), records.deep_view()[k].id),
                ),
        decreases n - i,
    {
        proof {
            assert(records.deep_view()[i as int] == records@[i as int]@);
        }
        let r = &records[i];
        let is_null = match &r.lang_code {
            None => true,
            Some(_) => false,
        };
        let nr = if is_null {
            let country = find_country(orgs, r.id.as_str());
            let assigned = script_assign_x(r, &country);
            match assigned {
                Some(l) => NameRecord {
                    id: r.id.clone(),
                    name: r.name.clone(),
                    name_to_match: opt_clone(&r.name_to_match),
                    name_type: r.name_type,
                    script_code: r.script_code.clone(),
                    lang_code: Some(l),
                    lang_source: opt_clone(&r.lang_source),
                },
                None => rec_copy(r),
            }
        } else {
            rec_copy(r)
        };
        proof {
            assert(nr@ =~= script_rec(
                records.deep_view()[i as int],
                country_of(orgs.deep_view(), records.deep_view()[i as int].id),
            ));
        }
        out.push(nr);
        i = i + 1;
    }
    *records = out;
    assert(records.deep_view() =~= script_pass(old(records).deep_view(), orgs.deep_view()));
}

/// Applies the commercial brand override.
fn brand_records(records: &mut Vec<NameRecord>, orgs: &Vec<Organization>)
    ensures
        final(records).deep_view() == brand_pass(old(records).deep_view(), orgs.deep_view()),
{
    let n = records.len();
    let mut out: Vec<NameRecord> = Vec::new();
    let mut i: usize = 0;
    while i < n
        invariant
            i <= n,
            n == records@.len(),
            records@ == old(records)@,
            out.deep_view().len() == i as nat,
            forall|k: int|
                0 <= k < i ==> out.deep_view()[k] == brand_rec(
                    #[trigger] records.deep_view()[k],
                    is_commercial(orgs.deep_view(), records.deep_view()[k].id),
                ),
        decreases n - i,
    {
        proof {
            assert(records.deep_view()[i as int] == records@[i as int]@);
        }
        let r = &records[i];
        let nr = if find_commercial(orgs, r.id.as_str()) {
            NameRecord {
                id: r.id.clone(),
                name: r.name.clone(),
                name_to_match: opt_clone(&r.name_to_match),
                name_type: r.name_type,
                script_code: r.script_code.clone(),
                lang_code: Some(String::from_str("cm")),
                lang_source: Some(String::from_str("cm_brand")),
            }
        } else {
            rec_copy(r)
        };
        proof {
            assert(nr@ =~= brand_rec(
                records.deep_view()[i as int],
                is_commercial(orgs.deep_view(), records.deep_view()[i as int].id),
            ));
        }
        out.push(nr);
        i = i + 1;
    }
    *records = out;
    assert(records.deep_view() =~= brand_pass(old(records).deep_view(), orgs.deep_view()));
}

fn list_contains(list: &Vec<String>, x: &str) -> (r: bool)
    ensures
        r == list.deep_view().contains(x@),
{
    let n = list.len();
    let mut i: usize = 0;
    while i < n
        invariant
            i <= n,
            n == list@.len(),
            list.deep_view().len() == n,
            forall|k: int| 0 <= k < i ==> list.deep_view()[k] != x@,
        decreases n - i,
    {
        proof {
            assert(list.deep_view()[i as int] == list@[i as int]@);
        }
        if str_eq(list[i].as_str(), x) {
            assert(list.deep_view()[i as int] == x@);
            return true;
        }
        i = i + 1;
    }
    false
}

fn contains_str(hay: &str, pat: &str) -> (r: bool)
    ensures
        r == contains_sub(hay@, pat@),
{
    let hv = chars_of(hay);
    let pv = chars_of(pat);
    contains_chars(&hv, &pv)
}

fn starts_str(hay: &str, pat: &str) -> (r: bool)
    ensures
        r == starts_with(hay@, pat@),
{
    let hv = chars_of(hay);
    let pv = chars_of(pat);
    starts_with_chars(&hv, &pv)
}

fn starts_folded(hay: &str, pat: &str) -> (r: bool)
    ensures
        r == starts_with(step_fold(hay@), step_fold(pat@)),
{
    let hv = chars_of(hay);
    let pv = chars_of(pat);
    let hf = fold_case(&hv);
    let pf = fold_case(&pv);
    starts_with_chars(&hf, &pf)
}

fn rule_matches_x(rule: &LexRule, r: &NameRecord, country: &Option<String>) -> (res: bool)
    ensures
        res == rule_matches(rule@, r@, opt_view(*country)),
{
    if r.name_type == NameType::Acronym {
        return false;
    }
    if rule.countries.len() > 0 {
        match country {
            Some(c) => {
                if !list_contains(&rule.countries, c.as_str()) {
                    return false;
                }
            },
            None => {
                return false;
            },
        }
    }
    if rule.exclude_countries.len() > 0 {
        match country {
            Some(c) => {
                if list_contains(&rule.exclude_countries, c.as_str()) {
                    return false;
                }
            },
            None => {
                return false;
            },
        }
    }
    match &rule.key_pattern {
        Some(p) => {
            match &r.name_to_match {
                Some(k) => {
                    if !contains_str(k.as_str(), p.as_str()) {
                        return false;
                    }
                },
                None => {
                    return false;
                },
            }
        },
        None => {},
    }
    match &rule.key_prefix {
        Some(p) => {
            match &r.name_to_match {
                Some(k) => {
                    if !starts_str(k.as_str(), p.as_str()) {
                        return false;
                    }
                },
                None => {
                    return false;
                },
            }
        },
        None => {},
    }
    match &rule.name_prefix {
        Some(p) => {
            if rule.prefix_fold {
                if !starts_folded(r.name.as_str(), p.as_str()) {
                    return false;
                }
            } else {
                if !starts_str(r.name.as_str(), p.as_str()) {
                    return false;
                }
            }
        },
        None => {},
    }
    match &rule.exclude_key {
        Some(p) => {
            match &r.name_to_match {
                Some(k) => {
                    if contains_str(k.as_str(), p.as_str()) {
                        return false;
                    }
                },
                None => {},
            }
        },
        None => {},
    }
    match &rule.exclude_name {
        Some(p) => {
            if contains_str(r.name.as_str(), p.as_str()) {
                return false;
            }
        },
        None => {},
    }
    true
}

fn first_rule_lang_x(rules: &Vec<LexRule>, r: &NameRecord, country: &Option<String>) -> (res:
    Option<String>)
    ensures
        opt_view(res) == first_rule_lang(rules.deep_view(), r@, opt_view(*country)),
{
    let n = rules.len();
    let mut i: usize = 0;
    proof {
        assert(rules.deep_view().skip(0) =~= rules.deep_view());
    }
    while i < n
        invariant
            i <= n,
            n == rules@.len(),
            rules.deep_view().len() == n,
            first_rule_lang(rules.deep_view(), r@, opt_view(*country)) == first_rule_lang(
                rules.deep_view().skip(i as int),
                r@,
                opt_view(*country),
            ),
        decreases n - i,
    {
        proof {
            assert(rules.deep_view().skip(i as int).drop_first() =~= rules.deep_view().skip(
                i + 1,
            ));
            assert(rules.deep_view().skip(i as int)[0] == rules.deep_view()[i as int]);
            assert(rules.deep_view()[i as int] == rules@[i as int]@);
        }
        if rule_matches_x(&rules[i], r, country) {
            return Some(rules[i].lang.clone());
        }
        i = i + 1;
    }
    proof {
        assert(rules.deep_view().skip(n as int) =~= Seq::<LexRuleV>::empty());
    }
    None
}

/// Applies the keyword rules to every still-null non-acronym record.
fn lex_records(records: &mut Vec<NameRecord>, orgs: &Vec<Organization>, rules: &Vec<LexRule>)
    ensures
        final(records).deep_view() == lex_pass(
            old(records).deep_view(),
            orgs.deep_view(),
            rules.deep_view(),
        ),
{
    let n = records.len();
    let mut out: Vec<NameRecord> = Vec::new();
    let mut i: usize = 0;
    while i < n
        invariant
            i <= n,
            n == records@.len(),
            records@ == old(records)@,
            out.deep_view().len() == i as nat,
            forall|k: int|
                0 <= k < i ==> out.deep_view()[k] == lex_rec(
                    #[trigger] records.deep_view()[k],
                    rules.deep_view(),
                    country_of(orgs.deep_view(), records.deep_view()[k].id),
                ),
        decreases n - i,
    {
        proof {
            assert(records.deep_view()[i as int] == records@[i as int]@);
        }
        let r = &records[i];
        let is_null = match &r.lang_code {
            None => true,
            Some(_) => false,
        };
        let nr = if is_null {
            let country = find_country(orgs, r.id.as_str());
            let assigned = first_rule_lang_x(rules, r, &country);
            match assigned {
                Some(l) => NameRecord {
                    id: r.id.clone(),
                    name: r.name.clone(),
                    name_to_match: opt_clone(&r.name_to_match),
                    name_type: r.name_type,
                    script_code: r.script_code.clone(),
                    lang_code: Some(l),
                    lang_source: opt_clone(&r.lang_source),
                },
                None => rec_copy(r),
            }
        } else {
            rec_copy(r)
        };
        proof {
            assert(nr@ =~= lex_rec(
                records.deep_view()[i as int],
                rules.deep_view(),
                country_of(orgs.deep_view(), records.deep_view()[i as int].id),
            ));
        }
        out.push(nr);
        i = i + 1;
    }
    *records = out;
    assert(records.deep_view() =~= lex_pass(
        old(records).deep_view(),
        orgs.deep_view(),
        rules.deep_view(),
    ));
}

/// The single language of `id`'s coded non-acronym, non-brand records, when
/// exactly one distinct code occurs among them.
fn mono_lang_x(records: &Vec<NameRecord>, id: &str) -> (res: Option<String>)
    ensures
        opt_view(res) == mono_lang(records.deep_view(), id@),
{
    let n = records.len();
    let mut distinct: Vec<String> = Vec::new();
    let mut j: usize = 0;
    while j < n
        invariant
            j <= n,
            n == records@.len(),
            records.deep_view().len() == n,
            forall|k: int|
                0 <= k < distinct.deep_view().len() ==> org_langs(records.deep_view(), id@)
                    .contains(#[trigger] distinct.deep_view()[k]),
            forall|j2: int, l: Seq<char>|
                0 <= j2 < j && contributes(records.deep_view(), id@, j2, l)
                    ==> distinct.deep_view().contains(l),
            forall|k1: int, k2: int|
                0 <= k1 < k2 < distinct.deep_view().len() ==> #[trigger] distinct.deep_view()[k1]
                    != #[trigger] distinct.deep_view()[k2],
        decreases n - j,
    {
        proof {
            assert(records.deep_view()[j as int] == records@[j as int]@);
        }
        let r = &records[j];
        let same_org = str_eq(r.id.as_str(), id);
        if same_org && !(r.name_type == NameType::Acronym) {
            match &r.lang_code {
                Some(l) => {
                    if !str_eq(l.as_str(), "cm") {
                        assert(contributes(records.deep_view(), id@, j as int, l@));
                        if !list_contains(&distinct, l.as_str()) {
                            let ghost pre = distinct.deep_view();
                            distinct.push(l.clone());
                            proof {
                                assert(distinct.deep_view() =~~= pre.push(l@));
                                push_keeps_contains(pre, l@);
                                assert(org_langs(records.deep_view(), id@).contains(l@));
                                assert forall|k: int|
                                    0 <= k < distinct.deep_view().len() implies org_langs(
                                    records.deep_view(),
                                    id@,
                                ).contains(#[trigger] distinct.deep_view()[k]) by {
                                    if k < pre.len() {
                                        assert(distinct.deep_view()[k] == pre[k]);
                                    } else {
                                        assert(distinct.deep_view()[k] == l@);
                                    }
                                }
                            }
                        }
                    }
                },
                None => {},
            }
        }
        proof {
            i_contrib_bound(records.deep_view(), id@, j as int);
        }
        j = j + 1;
    }
    let ghost dv = records.deep_view();
    proof {
        assert forall|l: Seq<char>|
            #[trigger] org_langs(dv, id@).contains(l) implies distinct.deep_view().contains(l) by {
            let j2 = choose|j2: int| contributes(dv, id@, j2, l);
            assert(0 <= j2 < n);
        }
        assert forall|l: Seq<char>|
            distinct.deep_view().contains(l) implies org_langs(dv, id@).contains(l) by {
            let k = choose|k: int| 0 <= k < distinct.deep_view().len() && distinct.deep_view()[k]
                == l;
            assert(org_langs(dv, id@).contains(distinct.deep_view()[k]));
        }
    }
    if distinct.len() == 1 {
        let ghost d0 = distinct.deep_view()[0];
        proof {
            assert(distinct.deep_view().contains(d0));
            assert(org_langs(dv, id@) =~= set![d0]) by {
                assert(forall|l: Seq<char>|
                    distinct.deep_view().contains(l) ==> l == d0);
                assert(set![d0].contains(d0));
            }
            assert(exists|c: Seq<char>| org_langs(dv, id@) == set![c]);
            let c = choose|c: Seq<char>| org_langs(dv, id@) == set![c];
            assert(set![c].contains(c));
            assert(set![d0].contains(c));
            assert(c == d0);
        }
        let out = distinct[0].clone();
        Some(out)
    } else if distinct.len() == 0 {
        proof {
            if exists|c: Seq<char>| org_langs(dv, id@) == set![c] {
                let c = choose|c: Seq<char>| org_langs(dv, id@) == set![c];
                assert(set![c].contains(c));
                assert(org_langs(dv, id@).contains(c));
                assert(distinct.deep_view().contains(c));
            }
        }
        None
    } else {
        let ghost d0 = distinct.deep_view()[0];
        let ghost d1 = distinct.deep_view()[1];
        proof {
            assert(distinct.deep_view().contains(d0));
            assert(distinct.deep_view().contains(d1));
            assert(d0 != d1);
            if exists|c: Seq<char>| org_langs(dv, id@) == set![c] {
                let c = choose|c: Seq<char>| org_langs(dv, id@) == set![c];
                assert(org_langs(dv, id@).contains(d0));
                assert(org_langs(dv, id@).contains(d1));
                assert(set![c].contains(d0));
                assert(set![c].contains(d1));
            }
        }
        None
    }
}

/// Pushing keeps every element found, and makes the new one found.
proof fn push_keeps_contains(s: Seq<Seq<char>>, x: Seq<char>)
    ensures
        forall|y: Seq<char>| s.contains(y) ==> #[trigger] s.push(x).contains(y),
        s.push(x).contains(x),
{
    assert forall|y: Seq<char>| s.contains(y) implies s.push(x).contains(y) by {
        let i = choose|i: int| 0 <= i < s.len() && s[i] == y;
        assert(s.push(x)[i] == y);
    }
    assert(s.push(x)[s.len() as int] == x);
}

/// A contribution index always lies inside the record list.
proof fn i_contrib_bound(rs: Seq<NameRecV>, id: Seq<char>, j: int)
    ensures
        forall|l: Seq<char>| contributes(rs, id, j, l) ==> 0 <= j < rs.len(),
{
}

/// Propagates the single language of mono-lingual organizations to their
/// still-null acronym records.
fn prop_records(records: &mut Vec<NameRecord>)
    ensures
        final(records).deep_view() == prop_pass(old(records).deep_view()),
{
    let n = records.len();
    let mut out: Vec<NameRecord> = Vec::new();
    let mut i: usize = 0;
    while i < n
        invariant
            i <= n,
            n == records@.len(),
            records@ == old(records)@,
            out.deep_view().len() == i as nat,
            forall|k: int|
                0 <= k < i ==> out.deep_view()[k] == prop_rec(
                    #[trigger] records.deep_view()[k],
                    records.deep_view(),
                ),
        decreases n - i,
    {
        proof {
            assert(records.deep_view()[i as int] == records@[i as int]@);
        }
        let r = &records[i];
        let is_null = match &r.lang_code {
            None => true,
            Some(_) => false,
        };
        let nr = if r.name_type == NameType::Acronym && is_null {
            let m = mono_lang_x(records, r.id.as_str());
            match m {
                Some(l) => NameRecord {
                    id: r.id.clone(),
                    name: r.name.clone(),
                    name_to_match: opt_clone(&r.name_to_match),
                    name_type: r.name_type,
                    script_code: r.script_code.clone(),
                    lang_code: Some(l),
                    lang_source: Some(String::from_str("mono lang org")),
                },
                None => rec_copy(r),
            }
        } else {
            rec_copy(r)
        };
        proof {
            assert(nr@ =~= prop_rec(records.deep_view()[i as int], records.deep_view()));
        }
        out.push(nr);
        i = i + 1;
    }
    *records = out;
    assert(records.deep_view() =~= prop_pass(old(records).deep_view()));
}

/// The candidate source names for `id`'s acronyms.
fn collect_cands(records: &Vec<NameRecord>, id: &str) -> (r: Vec<Candidate>)
    ensures
        r.deep_view() == cands_of(records.deep_view(), id@),
{
    let n = records.len();
    let mut out: Vec<Candidate> = Vec::new();
    let mut j: usize = 0;
    proof {
        assert(records.deep_view().skip(0) =~= records.deep_view());
    }
    while j < n
        invariant
            j <= n,
            n == records@.len(),
            records.deep_view().len() == n,
            cands_of(records.deep_view(), id@) == out.deep_view() + cands_of(
                records.deep_view().skip(j as int),
                id@,
            ),
        decreases n - j,
    {
        proof {
            assert(records.deep_view().skip(j as int).drop_first() =~= records.deep_view().skip(
                j + 1,
            ));
            assert(records.deep_view().skip(j as int)[0] == records.deep_view()[j as int]);
            assert(records.deep_view()[j as int] == records@[j as int]@);
        }
        let r = &records[j];
        let qualifies = str_eq(r.id.as_str(), id) && !(r.name_type == NameType::Acronym)
            && str_eq(r.script_code.as_str(), "Latn");
        if qualifies {
            match &r.name_to_match {
                Some(k) => {
                    let c = Candidate { key: k.clone(), lang: opt_clone(&r.lang_code) };
                    let ghost dv = records.deep_view()[j as int];
                    proof {
                        assert(c@ =~= (CandV { key: dv.name_to_match->0, lang: dv.lang_code }));
                    }
                    let ghost pre = out.deep_view();
                    out.push(c);
                    proof {
                        assert(out.deep_view() =~= pre.push(c@));
                        assert(pre.push(c@) + cands_of(records.deep_view().skip(j + 1), id@)
                            =~= pre + (seq![c@] + cands_of(
                            records.deep_view().skip(j + 1),
                            id@,
                        )));
                    }
                },
                None => {},
            }
        }
        j = j + 1;
    }
    proof {
        assert(records.deep_view().skip(n as int) =~= Seq::<NameRecV>::empty());
        assert(out.deep_view() + cands_of(records.deep_view().skip(n as int), id@)
            =~= out.deep_view());
    }
    out
}

/// Fills still-null acronym records from derived-acronym evidence.
fn derive_records(records: &mut Vec<NameRecord>)
    ensures
        final(records).deep_view() == derive_pass(old(records).deep_view()),
{
    let n = records.len();
    let mut out: Vec<NameRecord> = Vec::new();
    let mut i: usize = 0;
    while i < n
        invariant
            i <= n,
            n == records@.len(),
            records@ == old(records)@,
            out.deep_view().len() == i as nat,
            forall|k: int|
                0 <= k < i ==> out.deep_view()[k] == derive_rec(
                    #[trigger] records.deep_view()[k],
                    records.deep_view(),
                ),
        decreases n - i,
    {
        proof {
            assert(records.deep_view()[i as int] == records@[i as int]@);
        }
        let r = &records[i];
        let is_null = match &r.lang_code {
            None => true,
            Some(_) => false,
        };
        let mut nr: Option<NameRecord> = None;
        if r.name_type == NameType::Acronym && is_null {
            match &r.name_to_match {
                Some(key) => {
                    let cands = collect_cands(records, r.id.as_str());
                    let m = derive_for_acronym(&cands, key.as_str());
                    match m {
                        Some(am) => {
                            nr = Some(
                                NameRecord {
                                    id: r.id.clone(),
                                    name: r.name.clone(),
                                    name_to_match: opt_clone(&r.name_to_match),
                                    name_type: r.name_type,
                                    script_code: r.script_code.clone(),
                                    lang_code: Some(am.lang_codes),
                                    lang_source: Some(String::from_str("derived acro")),
                                },
                            );
                        },
                        None => {},
                    }
                },
                None => {},
            }
        }
        let nrec = match nr {
            Some(x) => x,
            None => rec_copy(r),
        };
        proof {
            assert(nrec@ =~= derive_rec(records.deep_view()[i as int], records.deep_view()));
        }
        out.push(nrec);
        i = i + 1;
    }
    *records = out;
    assert(records.deep_view() =~= derive_pass(old(records).deep_view()));
}

// ---------------------------------------------------------------------------
// The public cascade
// ---------------------------------------------------------------------------

/// Runs the code-assigning tiers in their fixed order: provenance for codes
/// from the source data, script and country rules, the commercial brand
/// override, and the keyword rules, each tagged with its provenance.
pub fn apply_name_codes(
    records: &mut Vec<NameRecord>,
    orgs: &Vec<Organization>,
    rules: &Vec<LexRule>,
)
    ensures
        final(records).deep_view() == tag_pass(
            lex_pass(
                brand_pass(
                    tag_pass(
                        script_pass(
                            tag_pass(old(records).deep_view(), "ror"@),
                            orgs.deep_view(),
                        ),
                        "script_auto"@,
                    ),
                    orgs.deep_view(),
                ),
                orgs.deep_view(),
                rules.deep_view(),
            ),
            "lex_auto"@,
        ),
{
    tag_records(records, "ror");
    script_records(records, orgs);
    tag_records(records, "script_auto");
    brand_records(records, orgs);
    lex_records(records, orgs, rules);
    tag_records(records, "lex_auto");
}

/// Runs the acronym tiers: mono-lingual propagation, then acronym
/// derivation, each filling only still-null acronym records.
pub fn apply_acro_codes(records: &mut Vec<NameRecord>)
    ensures
        final(records).deep_view() == derive_pass(prop_pass(old(records).deep_view())),
{
    prop_records(records);
    derive_records(records);
}

/// Runs the whole pipeline: normalization, then every classification tier in
/// the documented order.
pub fn run_pipeline(
    records: &mut Vec<NameRecord>,
    orgs: &Vec<Organization>,
    rules: &Vec<LexRule>,
)
    ensures
        final(records).deep_view() == pipeline_spec(
            old(records).deep_view(),
            orgs.deep_view(),
            rules.deep_view(),
        ),
{
    prep_names(records);
    apply_name_codes(records, orgs, rules);
    apply_acro_codes(records);
}

// ---------------------------------------------------------------------------
// Laws
// ---------------------------------------------------------------------------

/// Two records agree on every field the classifier reads but never writes.
pub open spec fn same_frame(a: NameRecV, b: NameRecV) -> bool {
    a.id == b.id && a.name == b.name && a.name_type == b.name_type && a.script_code
        == b.script_code
}

/// Whether a rule matches depends only on the frame fields and the match
/// key, so two records agreeing there match the same rules.
proof fn first_rule_congruence(
    rules: Seq<LexRuleV>,
    a: NameRecV,
    b: NameRecV,
    c: Option<Seq<char>>,
)
    requires
        a.name == b.name,
        a.name_type == b.name_type,
        a.name_to_match == b.name_to_match,
    ensures
        first_rule_lang(rules, a, c) == first_rule_lang(rules, b, c),
    decreases rules.len(),
{
    if rules.len() > 0 {
        assert(rule_matches(rules[0], a, c) == rule_matches(rules[0], b, c));
        first_rule_congruence(rules.drop_first(), a, b, c);
    }
}

/// The language set of an organization depends only on the non-acronym
/// records' identity, type and code.
proof fn org_langs_congruence(rs1: Seq<NameRecV>, rs2: Seq<NameRecV>, id: Seq<char>)
    requires
        rs1.len() == rs2.len(),
        forall|j: int|
            0 <= j < rs1.len() ==> (#[trigger] rs1[j]).id == rs2[j].id && rs1[j].name_type
                == rs2[j].name_type && (rs1[j].name_type != NameType::Acronym ==> rs1[j].lang_code
                == rs2[j].lang_code),
    ensures
        org_langs(rs1, id) == org_langs(rs2, id),
        mono_lang(rs1, id) == mono_lang(rs2, id),
{
    assert forall|l: Seq<char>|
        org_langs(rs1, id).contains(l) implies #[trigger] org_langs(rs2, id).contains(l) by {
        let j = choose|j: int| contributes(rs1, id, j, l);
        assert(contributes(rs2, id, j, l));
    }
    assert forall|l: Seq<char>|
        org_langs(rs2, id).contains(l) implies #[trigger] org_langs(rs1, id).contains(l) by {
        let j = choose|j: int| contributes(rs2, id, j, l);
        assert(contributes(rs1, id, j, l));
    }
    assert(org_langs(rs1, id) =~= org_langs(rs2, id));
}

/// The candidate list of an organization depends only on the non-acronym
/// records' identity, type, script, key and code.
proof fn cands_congruence(rs1: Seq<NameRecV>, rs2: Seq<NameRecV>, id: Seq<char>)
    requires
        rs1.len() == rs2.len(),
        forall|j: int|
            0 <= j < rs1.len() ==> (#[trigger] rs1[j]).id == rs2[j].id && rs1[j].name_type
                == rs2[j].name_type && rs1[j].script_code == rs2[j].script_code
                && rs1[j].name_to_match == rs2[j].name_to_match && (rs1[j].name_type
                != NameType::Acronym ==> rs1[j].lang_code == rs2[j].lang_code),
    ensures
        cands_of(rs1, id) == cands_of(rs2, id),
    decreases rs1.len(),
{
    if rs1.len() > 0 {
        assert(forall|j: int|
            0 <= j < rs1.drop_first().len() ==> #[trigger] rs1.drop_first()[j] == rs1[j + 1]
                && rs2.drop_first()[j] == rs2[j + 1]);
        cands_congruence(rs1.drop_first(), rs2.drop_first(), id);
        assert(cands_of(rs1, id) =~= cands_of(rs2, id));
    }
}

/// Brand-override dominance: after the pipeline, every name record of a
/// commercial company carries the brand code `cm` with provenance
/// `cm_brand`, whatever any earlier tier assigned.
pub proof fn lemma_brand_override(
    rs: Seq<NameRecV>,
    orgs: Seq<OrgV>,
    rules: Seq<LexRuleV>,
    i: int,
)
    requires
        0 <= i < rs.len(),
        is_commercial(orgs, rs[i].id),
    ensures
        pipeline_spec(rs, orgs, rules)[i].lang_code == Some("cm"@),
        pipeline_spec(rs, orgs, rules)[i].lang_source == Some("cm_brand"@),
{
    let s1 = norm_pass(rs);
    let s2 = tag_pass(s1, "ror"@);
    let s3 = script_pass(s2, orgs);
    let s4 = tag_pass(s3, "script_auto"@);
    let s5 = brand_pass(s4, orgs);
    let s6 = lex_pass(s5, orgs, rules);
    let s7 = tag_pass(s6, "lex_auto"@);
    let s8 = prop_pass(s7);
    assert(s4[i].id == rs[i].id);
    assert(s5[i].lang_code == Some("cm"@) && s5[i].lang_source == Some("cm_brand"@));
    assert(s6[i] == s5[i]);
    assert(s7[i] == s6[i]);
    assert(s8[i] == s7[i]);
    assert(derive_pass(s8)[i] == s8[i]);
}

/// Mono-lingual propagation: an acronym record still without a code, owned
/// by an organization whose coded non-acronym, non-brand names carry exactly
/// one distinct language, receives that language with provenance
/// `mono lang org`.
pub proof fn lemma_mono_propagation(rs: Seq<NameRecV>, i: int, c: Seq<char>)
    requires
        0 <= i < rs.len(),
        rs[i].name_type == NameType::Acronym,
        rs[i].lang_code is None,
        org_langs(rs, rs[i].id) == set![c],
    ensures
        prop_pass(rs)[i].lang_code == Some(c),
        prop_pass(rs)[i].lang_source == Some("mono lang org"@),
{
    let id = rs[i].id;
    assert(exists|x: Seq<char>| org_langs(rs, id) == set![x]);
    let x = choose|x: Seq<char>| org_langs(rs, id) == set![x];
    assert(set![x].contains(x));
    assert(set![c].contains(x));
    assert(x == c);
    assert(mono_lang(rs, id) == Some(c));
}

/// Write-once: a record that already carries a code, and does not belong to
/// a commercial company, leaves the pipeline with that code untouched.  No
/// tier but the brand override ever rewrites a code.
pub proof fn lemma_write_once(
    rs: Seq<NameRecV>,
    orgs: Seq<OrgV>,
    rules: Seq<LexRuleV>,
    i: int,
)
    requires
        0 <= i < rs.len(),
        rs[i].lang_code is Some,
        !is_commercial(orgs, rs[i].id),
    ensures
        pipeline_spec(rs, orgs, rules)[i].lang_code == rs[i].lang_code,
{
    let s1 = norm_pass(rs);
    let s2 = tag_pass(s1, "ror"@);
    let s3 = script_pass(s2, orgs);
    let s4 = tag_pass(s3, "script_auto"@);
    let s5 = brand_pass(s4, orgs);
    let s6 = lex_pass(s5, orgs, rules);
    let s7 = tag_pass(s6, "lex_auto"@);
    let s8 = prop_pass(s7);
    assert(s1[i].lang_code == rs[i].lang_code && s1[i].id == rs[i].id);
    assert(s2[i].lang_code == rs[i].lang_code && s2[i].id == rs[i].id);
    assert(s3[i].lang_code == rs[i].lang_code && s3[i].id == rs[i].id);
    assert(s4[i].lang_code == rs[i].lang_code && s4[i].id == rs[i].id);
    assert(s5[i].lang_code == rs[i].lang_code);
    assert(s6[i].lang_code == rs[i].lang_code);
    assert(s7[i].lang_code == rs[i].lang_code);
    assert(s8[i].lang_code == rs[i].lang_code);
    assert(derive_pass(s8)[i].lang_code == rs[i].lang_code);
}

/// Provenance tracks the code: starting from a record with no provenance,
/// the pipeline leaves `lang_source` set exactly when it leaves `lang_code`
/// set — a provenance is recorded by the tier that assigns a code, and never
/// for a record whose code is still null.
pub proof fn lemma_source_set_with_code(
    rs: Seq<NameRecV>,
    orgs: Seq<OrgV>,
    rules: Seq<LexRuleV>,
    i: int,
)
    requires
        0 <= i < rs.len(),
        rs[i].lang_source is None,
    ensures
        pipeline_spec(rs, orgs, rules)[i].lang_source is Some <==> pipeline_spec(
            rs,
            orgs,
            rules,
        )[i].lang_code is Some,
{
    let s1 = norm_pass(rs);
    let s2 = tag_pass(s1, "ror"@);
    let s3 = script_pass(s2, orgs);
    let s4 = tag_pass(s3, "script_auto"@);
    let s5 = brand_pass(s4, orgs);
    let s6 = lex_pass(s5, orgs, rules);
    let s7 = tag_pass(s6, "lex_auto"@);
    let s8 = prop_pass(s7);
    assert(s1[i] == norm_rec(rs[i]));
    assert(s2[i] == tag_rec(s1[i], "ror"@));
    assert(s3[i] == script_rec(s2[i], country_of(orgs, s2[i].id)));
    assert(s4[i] == tag_rec(s3[i], "script_auto"@));
    assert(s5[i] == brand_rec(s4[i], is_commercial(orgs, s4[i].id)));
    assert(s6[i] == lex_rec(s5[i], rules, country_of(orgs, s5[i].id)));
    assert(s7[i] == tag_rec(s6[i], "lex_auto"@));
    assert(s8[i] == prop_rec(s7[i], s7));
    assert(derive_pass(s8)[i] == derive_rec(s8[i], s8));
}

/// Every tier but the brand override leaves a record's code exactly as it
/// found it once one is set: no pass ever rewrites a non-null `lang_code`.
pub proof fn lemma_tiers_preserve_codes(
    rs: Seq<NameRecV>,
    orgs: Seq<OrgV>,
    rules: Seq<LexRuleV>,
    src: Seq<char>,
    i: int,
)
    requires
        0 <= i < rs.len(),
        rs[i].lang_code is Some,
    ensures
        norm_pass(rs)[i].lang_code == rs[i].lang_code,
        tag_pass(rs, src)[i].lang_code == rs[i].lang_code,
        script_pass(rs, orgs)[i].lang_code == rs[i].lang_code,
        lex_pass(rs, orgs, rules)[i].lang_code == rs[i].lang_code,
        prop_pass(rs)[i].lang_code == rs[i].lang_code,
        derive_pass(rs)[i].lang_code == rs[i].lang_code,
{
}

/// The cascade is idempotent: running the tiers a second time over the
/// pipeline's output changes nothing.  Every tier fills only still-null
/// fields from facts the first run already settled, and the brand override
/// re-writes the same values.
pub proof fn lemma_pipeline_idempotent(rs: Seq<NameRecV>, orgs: Seq<OrgV>, rules: Seq<LexRuleV>)
    ensures
        pipeline_spec(pipeline_spec(rs, orgs, rules), orgs, rules) == pipeline_spec(
            rs,
            orgs,
            rules,
        ),
{
    let s1 = norm_pass(rs);
    let s2 = tag_pass(s1, "ror"@);
    let s3 = script_pass(s2, orgs);
    let s4 = tag_pass(s3, "script_auto"@);
    let s5 = brand_pass(s4, orgs);
    let s6 = lex_pass(s5, orgs, rules);
    let s7 = tag_pass(s6, "lex_auto"@);
    let s8 = prop_pass(s7);
    let so = derive_pass(s8);
    assert(so == pipeline_spec(rs, orgs, rules));
    let n = rs.len();

    // shared per-record facts about the first run
    assert forall|i: int| 0 <= i < n implies {
        &&& same_frame(rs[i], so[i])
        &&& so[i].name_to_match is Some
        &&& so[i].name_to_match == s1[i].name_to_match
        &&& (so[i].lang_code is Some ==> so[i].lang_source is Some)
        &&& (so[i].lang_code is None ==> s2[i].lang_code is None && s5[i].lang_code is None
            && s7[i].lang_code is None && s8[i].lang_code is None && script_assign(
            s2[i],
            country_of(orgs, s2[i].id),
        ) is None && first_rule_lang(rules, s5[i], country_of(orgs, s5[i].id)) is None)
        &&& (so[i].name_type == NameType::Acronym && so[i].lang_code is None ==> mono_lang(
            s7,
            s7[i].id,
        ) is None && derive_spec(
            cands_of(s8, s8[i].id),
            compress(s8[i].name_to_match->0),
        ) is None)
    } by {
        assert(s1[i] == norm_rec(rs[i]));
        assert(s2[i] == tag_rec(s1[i], "ror"@));
        assert(s3[i] == script_rec(s2[i], country_of(orgs, s2[i].id)));
        assert(s4[i] == tag_rec(s3[i], "script_auto"@));
        assert(s5[i] == brand_rec(s4[i], is_commercial(orgs, s4[i].id)));
        assert(s6[i] == lex_rec(s5[i], rules, country_of(orgs, s5[i].id)));
        assert(s7[i] == tag_rec(s6[i], "lex_auto"@));
        assert(s8[i] == prop_rec(s7[i], s7));
        assert(so[i] == derive_rec(s8[i], s8));
    }

    // pass 1 of the second run: every match key is already present
    let t1 = norm_pass(so);
    assert forall|i: int| 0 <= i < n implies t1[i] == so[i] by {
        assert(t1[i] == norm_rec(so[i]));
    }
    assert(t1 =~= so);

    // provenance tagging: every coded record already carries a provenance
    let t2 = tag_pass(so, "ror"@);
    assert forall|i: int| 0 <= i < n implies t2[i] == so[i] by {
        assert(t2[i] == tag_rec(so[i], "ror"@));
    }
    assert(t2 =~= so);

    // script tiers: a record they did not code the first time they do not
    // code now, because script and country have not changed
    let t3 = script_pass(so, orgs);
    assert forall|i: int| 0 <= i < n implies t3[i] == so[i] by {
        assert(t3[i] == script_rec(so[i], country_of(orgs, so[i].id)));
        if so[i].lang_code is None {
            assert(so[i].id == s2[i].id && so[i].script_code == s2[i].script_code);
            assert(script_assign(so[i], country_of(orgs, so[i].id)) == script_assign(
                s2[i],
                country_of(orgs, s2[i].id),
            ));
        }
    }
    assert(t3 =~= so);

    let t4 = tag_pass(so, "script_auto"@);
    assert forall|i: int| 0 <= i < n implies t4[i] == so[i] by {
        assert(t4[i] == tag_rec(so[i], "script_auto"@));
    }
    assert(t4 =~= so);

    // the brand override writes the same values again
    let t5 = brand_pass(so, orgs);
    assert forall|i: int| 0 <= i < n implies t5[i] == so[i] by {
        assert(t5[i] == brand_rec(so[i], is_commercial(orgs, so[i].id)));
        if is_commercial(orgs, so[i].id) {
            assert(is_commercial(orgs, rs[i].id));
            lemma_brand_override(rs, orgs, rules, i);
            assert(brand_rec(so[i], true) =~= so[i]);
        }
    }
    assert(t5 =~= so);

    // keyword tiers: no rule that failed the first time matches now, since
    // name, type and match key have not changed
    let t6 = lex_pass(so, orgs, rules);
    assert forall|i: int| 0 <= i < n implies t6[i] == so[i] by {
        assert(t6[i] == lex_rec(so[i], rules, country_of(orgs, so[i].id)));
        if so[i].lang_code is None {
            assert(so[i].name == s5[i].name && so[i].name_type == s5[i].name_type);
            assert(so[i].name_to_match == s5[i].name_to_match) by {
                assert(same_frame(rs[i], so[i]));
            }
            first_rule_congruence(rules, s5[i], so[i], country_of(orgs, s5[i].id));
            assert(so[i].id == s5[i].id);
        }
    }
    assert(t6 =~= so);

    let t7 = tag_pass(so, "lex_auto"@);
    assert forall|i: int| 0 <= i < n implies t7[i] == so[i] by {
        assert(t7[i] == tag_rec(so[i], "lex_auto"@));
    }
    assert(t7 =~= so);

    // propagation: the organizations' language sets are those the first
    // run's propagation already consulted
    assert(s7.len() == n && s8.len() == n);
    assert forall|j: int| 0 <= j < n implies (#[trigger] s7[j]).id == so[j].id && s7[j].name_type
        == so[j].name_type && (s7[j].name_type != NameType::Acronym ==> s7[j].lang_code
        == so[j].lang_code) by {
        assert(s8[j] == prop_rec(s7[j], s7));
        assert(so[j] == derive_rec(s8[j], s8));
    }
    let t8 = prop_pass(so);
    assert forall|i: int| 0 <= i < n implies t8[i] == so[i] by {
        assert(t8[i] == prop_rec(so[i], so));
        if so[i].name_type == NameType::Acronym && so[i].lang_code is None {
            org_langs_congruence(s7, so, so[i].id);
            assert(so[i].id == s7[i].id);
        }
    }
    assert(t8 =~= so);

    // derivation: the candidate lists are those the first run consulted
    assert forall|j: int| 0 <= j < n implies (#[trigger] s8[j]).id == so[j].id && s8[j].name_type
        == so[j].name_type && s8[j].script_code == so[j].script_code && s8[j].name_to_match
        == so[j].name_to_match && (s8[j].name_type != NameType::Acronym ==> s8[j].lang_code
        == so[j].lang_code) by {
        assert(so[j] == derive_rec(s8[j], s8));
    }
    let t9 = derive_pass(so);
    assert forall|i: int| 0 <= i < n implies t9[i] == so[i] by {
        assert(t9[i] == derive_rec(so[i], so));
        if so[i].name_type == NameType::Acronym && so[i].lang_code is None {
            cands_congruence(s8, so, so[i].id);
            assert(so[i].id == s8[i].id);
            assert(so[i].name_to_match == s8[i].name_to_match);
        }
    }
    assert(t9 =~= so);

    assert(pipeline_spec(so, orgs, rules) == t9);
}

} // verus!
