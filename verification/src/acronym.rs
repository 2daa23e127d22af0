//! The acronym deriver: matches an organization's recorded acronym against
//! acronyms mechanically rebuilt from its other names.
//!
//! For every candidate source name the deriver builds four derived acronyms,
//! one per stopword tier, by taking the first character of every token.  The
//! recorded acronym's match key is first compressed (hyphens and spaces
//! removed).  Tiers are tried most-aggressively-filtered first; within the
//! winning tier every matching source contributes evidence, deduplicated by
//! match key, and the evidence language codes and source keys are joined into
//! comma-separated lists.  A derived acronym of a single character is never a
//! match candidate.

use vstd::prelude::*;
use crate::strutil::{chars_of, string_from_chars, chars_eq, push_all};
use crate::tokenize::{tier0, tier1, tier2, tier3, token_tiers, TokenTiers};
use crate::normalize::filt;

verus! {

// ---------------------------------------------------------------------------
// Specification
// ---------------------------------------------------------------------------

/// The derived acronym of a token list: the first character of every
/// non-empty token, in order.
pub open spec fn acro_of(ws: Seq<Seq<char>>) -> Seq<char>
    decreases ws.len(),
{
    if ws.len() == 0 {
        Seq::empty()
    } else if ws[0].len() > 0 {
        seq![ws[0][0]] + acro_of(ws.drop_first())
    } else {
        acro_of(ws.drop_first())
    }
}

/// The derived acronym of `key` at stopword tier `t` (0 to 3).
pub open spec fn derived_at(key: Seq<char>, t: int) -> Seq<char> {
    if t == 3 {
        acro_of(tier3(key))
    } else if t == 2 {
        acro_of(tier2(key))
    } else if t == 1 {
        acro_of(tier1(key))
    } else {
        acro_of(tier0(key))
    }
}

/// A recorded acronym's key with internal hyphens and spaces removed, so a
/// spelled-out acronym still matches a plain letter concatenation.
pub open spec fn compress(s: Seq<char>) -> Seq<char> {
    filt(s, |c: char| c != '-' && c != ' ')
}

/// One candidate source name: its match key and its language code.
pub struct Candidate {
    pub key: String,
    pub lang: Option<String>,
}

/// The mathematical value of a candidate.
#[verifier::ext_equal]
pub struct CandV {
    pub key: Seq<char>,
    pub lang: Option<Seq<char>>,
}

impl View for Candidate {
    type V = CandV;

    open spec fn view(&self) -> CandV {
        CandV { key: self.key@, lang: crate::records::opt_view(self.lang) }
    }
}

impl DeepView for Candidate {
    type V = CandV;

    open spec fn deep_view(&self) -> CandV {
        self.view()
    }
}

/// Candidate `c` matches compressed acronym `a` at tier `t`: the derived
/// acronym equals `a` and holds at least two characters.
pub open spec fn cand_matches(c: CandV, a: Seq<char>, t: int) -> bool {
    derived_at(c.key, t) == a && derived_at(c.key, t).len() >= 2
}

/// The evidence gathered at tier `t`: matching candidates in order, skipping
/// any whose key was already gathered (`seen`).
pub open spec fn ev_rec(cands: Seq<CandV>, a: Seq<char>, t: int, seen: Seq<Seq<char>>) -> Seq<
    CandV,
>
    decreases cands.len(),
{
    if cands.len() == 0 {
        Seq::empty()
    } else if cand_matches(cands[0], a, t) && !seen.contains(cands[0].key) {
        seq![cands[0]] + ev_rec(cands.drop_first(), a, t, seen.push(cands[0].key))
    } else {
        ev_rec(cands.drop_first(), a, t, seen)
    }
}

/// The evidence at tier `t`.
pub open spec fn evidence(cands: Seq<CandV>, a: Seq<char>, t: int) -> Seq<CandV> {
    ev_rec(cands, a, t, Seq::empty())
}

/// The keys of a list of candidates, in order.
pub open spec fn keys_of(cs: Seq<CandV>) -> Seq<Seq<char>>
    decreases cs.len(),
{
    if cs.len() == 0 {
        Seq::empty()
    } else {
        seq![cs[0].key] + keys_of(cs.drop_first())
    }
}

/// The language codes carried by a list of candidates, nulls skipped.
pub open spec fn langs_of(cs: Seq<CandV>) -> Seq<Seq<char>>
    decreases cs.len(),
{
    if cs.len() == 0 {
        Seq::empty()
    } else if cs[0].lang is Some {
        seq![cs[0].lang->0] + langs_of(cs.drop_first())
    } else {
        langs_of(cs.drop_first())
    }
}

/// The tail of a comma-separated join.
pub open spec fn join_tail(xs: Seq<Seq<char>>) -> Seq<char>
    decreases xs.len(),
{
    if xs.len() == 0 {
        Seq::empty()
    } else {
        seq![',', ' '] + xs[0] + join_tail(xs.drop_first())
    }
}

/// A comma-separated join of the given strings.
pub open spec fn join_comma(xs: Seq<Seq<char>>) -> Seq<char> {
    if xs.len() == 0 {
        Seq::empty()
    } else {
        xs[0] + join_tail(xs.drop_first())
    }
}

/// A tier succeeds when its evidence carries at least one language code.
pub open spec fn tier_success(cands: Seq<CandV>, a: Seq<char>, t: int) -> bool {
    langs_of(evidence(cands, a, t)).len() > 0
}

/// The winning tier, most-aggressively-filtered first.
pub open spec fn pick_tier(cands: Seq<CandV>, a: Seq<char>) -> Option<int> {
    if tier_success(cands, a, 3) {
        Some(3)
    } else if tier_success(cands, a, 2) {
        Some(2)
    } else if tier_success(cands, a, 1) {
        Some(1)
    } else if tier_success(cands, a, 0) {
        Some(0)
    } else {
        None
    }
}

/// What the deriver reports for one acronym: the joined language codes of the
/// winning tier's evidence, and the joined source match keys.
pub open spec fn derive_spec(cands: Seq<CandV>, a: Seq<char>) -> Option<(Seq<char>, Seq<char>)> {
    match pick_tier(cands, a) {
        Some(t) => Some(
            (
                join_comma(langs_of(evidence(cands, a, t))),
                join_comma(keys_of(evidence(cands, a, t))),
            ),
        ),
        None => None,
    }
}

// ---------------------------------------------------------------------------
// Executable deriver
// ---------------------------------------------------------------------------

/// The evidence the deriver found for one acronym record.
pub struct AcroMatch {
    /// The language codes of the matched source names, comma-separated.
    pub lang_codes: String,
    /// The match keys of the matched source names, comma-separated.
    pub source_keys: String,
}

fn acro_x(ws: &Vec<Vec<char>>) -> (r: Vec<char>)
    ensures
        r@ == acro_of(ws.deep_view()),
{
    let n = ws.len();
    let mut r: Vec<char> = Vec::new();
    let mut i: usize = 0;
    proof {
        assert(ws.deep_view().skip(0) =~~= ws.deep_view());
    }
    while i < n
        invariant
            i <= n,
            n == ws@.len(),
            ws.deep_view().len() == n,
            acro_of(ws.deep_view()) == r@ + acro_of(ws.deep_view().skip(i as int)),
        decreases n - i,
    {
        proof {
            assert(ws.deep_view().skip(i as int).drop_first() =~~= ws.deep_view().skip(i + 1));
            assert(ws.deep_view().skip(i as int)[0] == ws.deep_view()[i as int]);
            assert(ws.deep_view()[i as int] =~= ws@[i as int]@);
        }
        let w = &ws[i];
        if w.len() > 0 {
            r.push(w[0]);
        }
        i = i + 1;
    }
    proof {
        assert(ws.deep_view().skip(n as int) =~~= Seq::<Seq<char>>::empty());
    }
    r
}

/// The derived acronym of a match key at tier `t`.
fn derived_x(key: &Vec<char>, t: u32) -> (r: Vec<char>)
    requires
        t <= 3,
    ensures
        r@ == derived_at(key@, t as int),
{
    let tiers: TokenTiers = token_tiers(key);
    if t == 3 {
        acro_x(&tiers.t3)
    } else if t == 2 {
        acro_x(&tiers.t2)
    } else if t == 1 {
        acro_x(&tiers.t1)
    } else {
        acro_x(&tiers.t0)
    }
}

/// Removes hyphens and spaces from a recorded acronym's key.
fn compress_x(v: &Vec<char>) -> (r: Vec<char>)
    ensures
        r@ == compress(v@),
{
    let n = v.len();
    let mut r: Vec<char> = Vec::new();
    let mut i: usize = 0;
    assert(v@.skip(0) =~= v@);
    while i < n
        invariant
            i <= n,
            n == v@.len(),
            compress(v@) == r@ + filt(v@.skip(i as int), |c: char| c != '-' && c != ' '),
        decreases n - i,
    {
        let c = v[i];
        proof {
            assert(v@.skip(i as int).drop_first() =~= v@.skip(i + 1));
            assert(v@.skip(i as int)[0] == c);
        }
        if c != '-' && c != ' ' {
            r.push(c);
        }
        i = i + 1;
    }
    proof {
        assert(v@.skip(n as int) =~= Seq::<char>::empty());
    }
    r
}

/// Whether `key` is already among `seen`.
fn key_seen(seen: &Vec<Vec<char>>, key: &Vec<char>) -> (r: bool)
    ensures
        r == seen.deep_view().contains(key@),
{
    let n = seen.len();
    let mut i: usize = 0;
    while i < n
        invariant
            i <= n,
            n == seen@.len(),
            seen.deep_view().len() == n,
            forall|k: int| 0 <= k < i ==> seen.deep_view()[k] != key@,
        decreases n - i,
    {
        proof {
            assert(seen.deep_view()[i as int] =~= seen@[i as int]@);
        }
        if chars_eq(&seen[i], key) {
            assert(seen.deep_view()[i as int] == key@);
            return true;
        }
        i = i + 1;
    }
    false
}

/// Gathers one tier's evidence: the joined-up language codes (nulls skipped)
/// and the matched source keys, deduplicated by key, in candidate order.
fn gather_x(cands: &Vec<Candidate>, a: &Vec<char>, t: u32) -> (r: (Vec<Vec<char>>, Vec<
    Vec<char>,
>))
    requires
        t <= 3,
    ensures
        r.0.deep_view() == langs_of(evidence(cands.deep_view(), a@, t as int)),
        r.1.deep_view() == keys_of(evidence(cands.deep_view(), a@, t as int)),
{
    let n = cands.len();
    let mut langs: Vec<Vec<char>> = Vec::new();
    let mut keys: Vec<Vec<char>> = Vec::new();
    let ghost mut collected: Seq<CandV> = Seq::empty();
    let mut i: usize = 0;
    proof {
        assert(cands.deep_view().skip(0) =~~= cands.deep_view());
        assert(keys.deep_view() =~~= keys_of(collected));
        assert(langs.deep_view() =~~= langs_of(collected));
    }
    while i < n
        invariant
            i <= n,
            n == cands@.len(),
            cands.deep_view().len() == n,
            t <= 3,
            evidence(cands.deep_view(), a@, t as int) == collected + ev_rec(
                cands.deep_view().skip(i as int),
                a@,
                t as int,
                keys.deep_view(),
            ),
            keys.deep_view() == keys_of(collected),
            langs.deep_view() == langs_of(collected),
        decreases n - i,
    {
        proof {
            assert(cands.deep_view().skip(i as int).drop_first() =~~= cands.deep_view().skip(
                i + 1,
            ));
            assert(cands.deep_view().skip(i as int)[0] == cands.deep_view()[i as int]);
            assert(cands.deep_view()[i as int] == cands@[i as int]@);
        }
        let c = &cands[i];
        let ckey = chars_of(c.key.as_str());
        let d = derived_x(&ckey, t);
        let hit = d.len() >= 2 && chars_eq(&d, a) && !key_seen(&keys, &ckey);
        if hit {
            let ghost cv = cands.deep_view()[i as int];
            let ghost pre_keys = keys.deep_view();
            let ghost pre_langs = langs.deep_view();
            keys.push(ckey);
            proof {
                assert(keys.deep_view() =~~= pre_keys.push(cv.key));
            }
            match &c.lang {
                Some(l) => {
                    let lc = chars_of(l.as_str());
                    langs.push(lc);
                    proof {
                        assert(langs.deep_view() =~~= pre_langs.push(cv.lang->0));
                    }
                },
                None => {},
            }
            proof {
                let old_collected = collected;
                collected = collected.push(cv);
                assert(collected.drop_last() == old_collected);
                keys_langs_push(old_collected, cv);
                assert(keys_of(collected) =~~= keys_of(old_collected).push(cv.key));
                assert(langs_of(collected) =~~= if cv.lang is Some {
                    langs_of(old_collected).push(cv.lang->0)
                } else {
                    langs_of(old_collected)
                });
                assert((collected + ev_rec(
                    cands.deep_view().skip(i + 1),
                    a@,
                    t as int,
                    pre_keys.push(cv.key),
                )) =~~= (old_collected + (seq![cv] + ev_rec(
                    cands.deep_view().skip(i + 1),
                    a@,
                    t as int,
                    pre_keys.push(cv.key),
                ))));
            }
        }
        i = i + 1;
    }
    proof {
        assert(cands.deep_view().skip(n as int) =~~= Seq::<CandV>::empty());
        assert(collected + ev_rec(
            cands.deep_view().skip(n as int),
            a@,
            t as int,
            keys.deep_view(),
        ) =~~= collected);
    }
    (langs, keys)
}

/// Appending one candidate extends the key and language lists at the end.
proof fn keys_langs_push(cs: Seq<CandV>, c: CandV)
    ensures
        keys_of(cs.push(c)) == keys_of(cs).push(c.key),
        langs_of(cs.push(c)) == if c.lang is Some {
            langs_of(cs).push(c.lang->0)
        } else {
            langs_of(cs)
        },
    decreases cs.len(),
{
    let s1 = cs.push(c);
    assert(s1.len() == cs.len() + 1);
    if cs.len() == 0 {
        assert(s1[0] == c);
        assert(s1.drop_first() =~= Seq::<CandV>::empty());
        assert(keys_of(s1) == seq![c.key] + keys_of(Seq::<CandV>::empty()));
        assert(keys_of(s1) =~~= keys_of(cs).push(c.key));
        if c.lang is Some {
            assert(langs_of(s1) == seq![c.lang->0] + langs_of(Seq::<CandV>::empty()));
            assert(langs_of(s1) =~~= langs_of(cs).push(c.lang->0));
        } else {
            assert(langs_of(s1) == langs_of(s1.drop_first()));
            assert(langs_of(s1.drop_first()) =~~= Seq::<Seq<char>>::empty());
            assert(langs_of(s1) =~~= langs_of(cs));
        }
    } else {
        assert(s1[0] == cs[0]);
        assert(s1.drop_first() =~= cs.drop_first().push(c));
        keys_langs_push(cs.drop_first(), c);
        assert(keys_of(s1) == seq![cs[0].key] + keys_of(cs.drop_first().push(c)));
        assert(keys_of(cs) == seq![cs[0].key] + keys_of(cs.drop_first()));
        assert(keys_of(s1) =~~= keys_of(cs).push(c.key));
        if cs[0].lang is Some {
            assert(langs_of(s1) == seq![cs[0].lang->0] + langs_of(cs.drop_first().push(c)));
            assert(langs_of(cs) == seq![cs[0].lang->0] + langs_of(cs.drop_first()));
        } else {
            assert(langs_of(s1) == langs_of(cs.drop_first().push(c)));
            assert(langs_of(cs) == langs_of(cs.drop_first()));
        }
        if c.lang is Some {
            assert(langs_of(s1) =~~= langs_of(cs).push(c.lang->0));
        } else {
            assert(langs_of(s1) =~~= langs_of(cs));
        }
    }
}

/// Joins strings with a comma and a space.
fn join_x(xs: &Vec<Vec<char>>) -> (r: Vec<char>)
    ensures
        r@ == join_comma(xs.deep_view()),
{
    let n = xs.len();
    let mut r: Vec<char> = Vec::new();
    if n == 0 {
        return r;
    }
    push_all(&mut r, &xs[0]);
    proof {
        assert(xs.deep_view()[0] =~= xs@[0]@);
        assert(xs.deep_view().drop_first().skip(0) =~~= xs.deep_view().drop_first());
    }
    let mut i: usize = 1;
    while i < n
        invariant
            1 <= i <= n,
            n == xs@.len(),
            xs.deep_view().len() == n,
            join_comma(xs.deep_view()) == r@ + join_tail(
                xs.deep_view().drop_first().skip(i - 1),
            ),
        decreases n - i,
    {
        proof {
            assert(xs.deep_view().drop_first().skip(i - 1).drop_first()
                =~~= xs.deep_view().drop_first().skip(i as int));
            assert(xs.deep_view().drop_first().skip(i - 1)[0] == xs.deep_view()[i as int]);
            assert(xs.deep_view()[i as int] =~= xs@[i as int]@);
        }
        r.push(',');
        r.push(' ');
        push_all(&mut r, &xs[i]);
        i = i + 1;
    }
    proof {
        assert(xs.deep_view().drop_first().skip(n - 1) =~~= Seq::<Seq<char>>::empty());
    }
    r
}

/// Runs the tier cascade for one recorded acronym against the candidate
/// source names of its organization.
///
/// Returns the joined evidence of the most-aggressively-filtered tier whose
/// evidence carries a language code, or nothing when no tier does.
pub fn derive_for_acronym(cands: &Vec<Candidate>, acro_key: &str) -> (r: Option<AcroMatch>)
    ensures
        match r {
            Some(m) => derive_spec(cands.deep_view(), compress(acro_key@)) == Some(
                (m.lang_codes@, m.source_keys@),
            ),
            None => derive_spec(cands.deep_view(), compress(acro_key@)) is None,
        },
{
    let kv = chars_of(acro_key);
    let a = compress_x(&kv);
    let (l3, k3) = gather_x(cands, &a, 3);
    if l3.len() > 0 {
        let lj = join_x(&l3);
        let kj = join_x(&k3);
        return Some(
            AcroMatch { lang_codes: string_from_chars(&lj), source_keys: string_from_chars(&kj) },
        );
    }
    let (l2, k2) = gather_x(cands, &a, 2);
    if l2.len() > 0 {
        let lj = join_x(&l2);
        let kj = join_x(&k2);
        return Some(
            AcroMatch { lang_codes: string_from_chars(&lj), source_keys: string_from_chars(&kj) },
        );
    }
    let (l1, k1) = gather_x(cands, &a, 1);
    if l1.len() > 0 {
        let lj = join_x(&l1);
        let kj = join_x(&k1);
        return Some(
            AcroMatch { lang_codes: string_from_chars(&lj), source_keys: string_from_chars(&kj) },
        );
    }
    let (l0, k0) = gather_x(cands, &a, 0);
    if l0.len() > 0 {
        let lj = join_x(&l0);
        let kj = join_x(&k0);
        return Some(
            AcroMatch { lang_codes: string_from_chars(&lj), source_keys: string_from_chars(&kj) },
        );
    }
    None
}

// ---------------------------------------------------------------------------
// Laws
// ---------------------------------------------------------------------------

/// Every piece of gathered evidence is a real match at its tier.
proof fn ev_all_match(cands: Seq<CandV>, a: Seq<char>, t: int, seen: Seq<Seq<char>>)
    ensures
        forall|i: int|
            0 <= i < ev_rec(cands, a, t, seen).len() ==> cand_matches(
                #[trigger] ev_rec(cands, a, t, seen)[i],
                a,
                t,
            ),
    decreases cands.len(),
{
    if cands.len() > 0 {
        let e = ev_rec(cands, a, t, seen);
        if cand_matches(cands[0], a, t) && !seen.contains(cands[0].key) {
            let rest = ev_rec(cands.drop_first(), a, t, seen.push(cands[0].key));
            ev_all_match(cands.drop_first(), a, t, seen.push(cands[0].key));
            assert forall|i: int| 0 <= i < e.len() implies cand_matches(e[i], a, t) by {
                if i == 0 {
                    assert(e[0] == cands[0]);
                } else {
                    assert(e[i] == rest[i - 1]);
                    assert(cand_matches(rest[i - 1], a, t));
                }
            }
        } else {
            let rest = ev_rec(cands.drop_first(), a, t, seen);
            ev_all_match(cands.drop_first(), a, t, seen);
            assert forall|i: int| 0 <= i < e.len() implies cand_matches(e[i], a, t) by {
                assert(e[i] == rest[i]);
                assert(cand_matches(rest[i], a, t));
            }
        }
    }
}

/// A list that yields language codes is not empty.
proof fn langs_need_evidence(cs: Seq<CandV>)
    ensures
        langs_of(cs).len() > 0 ==> cs.len() > 0,
{
}

/// A list holding a coded candidate yields at least one language code.
proof fn langs_nonempty(cs: Seq<CandV>, idx: int)
    requires
        0 <= idx < cs.len(),
        cs[idx].lang is Some,
    ensures
        langs_of(cs).len() > 0,
    decreases idx,
{
    if idx > 0 {
        assert(cs.drop_first()[idx - 1] == cs[idx]);
        langs_nonempty(cs.drop_first(), idx - 1);
    }
}

/// A matching candidate whose key was neither seen nor used by an earlier
/// candidate enters the gathered evidence.
proof fn ev_holds_match(cands: Seq<CandV>, a: Seq<char>, t: int, seen: Seq<Seq<char>>, j: int)
    requires
        0 <= j < cands.len(),
        cand_matches(cands[j], a, t),
        !seen.contains(cands[j].key),
        forall|k: int| 0 <= k < j ==> (#[trigger] cands[k]).key != cands[j].key,
    ensures
        exists|m: int|
            0 <= m < ev_rec(cands, a, t, seen).len() && ev_rec(cands, a, t, seen)[m] == cands[j],
    decreases cands.len(),
{
    let e = ev_rec(cands, a, t, seen);
    let cj = cands[j];
    assert(forall|k: int|
        0 <= k < cands.drop_first().len() ==> #[trigger] cands.drop_first()[k] == cands[k + 1]);
    if cand_matches(cands[0], a, t) && !seen.contains(cands[0].key) {
        let rest = ev_rec(cands.drop_first(), a, t, seen.push(cands[0].key));
        if j == 0 {
            assert(e[0] == cj);
        } else {
            assert(!seen.push(cands[0].key).contains(cj.key)) by {
                assert(cands[0].key != cj.key);
                if seen.push(cands[0].key).contains(cj.key) {
                    let w = choose|w: int|
                        0 <= w < seen.push(cands[0].key).len() && seen.push(cands[0].key)[w]
                            == cj.key;
                    assert(w < seen.len() ==> seen[w] == cj.key);
                }
            }
            ev_holds_match(cands.drop_first(), a, t, seen.push(cands[0].key), j - 1);
            let m = choose|m: int| 0 <= m < rest.len() && rest[m] == cj;
            assert(e[m + 1] == rest[m]);
        }
    } else {
        let rest = ev_rec(cands.drop_first(), a, t, seen);
        ev_holds_match(cands.drop_first(), a, t, seen, j - 1);
        let m = choose|m: int| 0 <= m < rest.len() && rest[m] == cj;
        assert(e[m] == rest[m]);
    }
}

/// The deriver owes an assignment whenever a coded source matches: if some
/// candidate carries a language and its derived acronym at any tier equals
/// the compressed acronym, and no earlier candidate shares its match key,
/// then the deriver reports evidence.
pub proof fn lemma_match_yields_assignment(cands: Seq<CandV>, a: Seq<char>, j: int, t: int)
    requires
        0 <= j < cands.len(),
        0 <= t <= 3,
        cands[j].lang is Some,
        cand_matches(cands[j], a, t),
        forall|k: int| 0 <= k < j ==> (#[trigger] cands[k]).key != cands[j].key,
    ensures
        derive_spec(cands, a) is Some,
{
    ev_holds_match(cands, a, t, Seq::empty(), j);
    let e = evidence(cands, a, t);
    let m = choose|m: int| 0 <= m < e.len() && e[m] == cands[j];
    langs_nonempty(e, m);
    assert(tier_success(cands, a, t));
}

/// A single letter is never matched: whenever the deriver reports evidence
/// for an acronym, the compressed acronym holds at least two characters, so a
/// one-character derived acronym can never be the match that assigned a
/// language.
pub proof fn lemma_no_single_letter_match(cands: Seq<CandV>, a: Seq<char>)
    ensures
        derive_spec(cands, a) is Some ==> a.len() >= 2,
{
    if derive_spec(cands, a) is Some {
        let t = pick_tier(cands, a)->0;
        assert(tier_success(cands, a, t));
        langs_need_evidence(evidence(cands, a, t));
        ev_all_match(cands, a, t, Seq::empty());
        assert(cand_matches(evidence(cands, a, t)[0], a, t));
    }
}

} // verus!
