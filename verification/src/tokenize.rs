//! The stopword tokenizer: splits a match key into word tokens and produces
//! the four progressively filtered token tiers used by acronym derivation.
//!
//! A hyphen is a token boundary here (hyphenated compounds count as several
//! words), so tokens are the maximal runs of characters that are neither a
//! space nor a hyphen.  The tiers are: all tokens; minus the articles and
//! "of"-equivalents, with a leading elided article (`l’`, `d’`) stripped from
//! the remaining tokens; further minus the conjunctions; further minus the
//! prepositions.

use vstd::prelude::*;
use crate::strutil::string_from_chars;

verus! {

/// A token boundary: space, or hyphen (treated as a space here).
pub open spec fn is_boundary(c: char) -> bool {
    c == ' ' || c == '-'
}

/// Length of the token at the start of `s` (0 when `s` starts at a boundary
/// or is empty).
pub open spec fn word_len(s: Seq<char>) -> nat
    decreases s.len(),
{
    if s.len() > 0 && !is_boundary(s[0]) {
        1 + word_len(s.drop_first())
    } else {
        0
    }
}

/// A token never outruns the string it starts in.
pub proof fn word_len_le(s: Seq<char>)
    ensures
        word_len(s) <= s.len(),
    decreases s.len(),
{
    if s.len() > 0 && !is_boundary(s[0]) {
        word_len_le(s.drop_first());
    }
}

/// The word tokens of `s`, in order: maximal runs of non-boundary characters.
pub open spec fn tokens(s: Seq<char>) -> Seq<Seq<char>>
    decreases s.len(),
    via tokens_dec
{
    if s.len() == 0 {
        Seq::empty()
    } else if is_boundary(s[0]) {
        tokens(s.drop_first())
    } else {
        seq![s.take(word_len(s) as int)] + tokens(s.skip(word_len(s) as int))
    }
}

#[via_fn]
proof fn tokens_dec(s: Seq<char>) {
    if s.len() > 0 && !is_boundary(s[0]) {
        word_len_le(s);
    }
}

/// The grammatical "of/the"-equivalent words removed for the first filtered
/// tier.
pub open spec fn is_of_word(w: Seq<char>) -> bool {
    w == seq!['o', 'f'] || w == seq!['t', 'h', 'e'] || w == seq!['d', 'e'] || w == seq![
        'd',
        'e',
        's',
    ] || w == seq!['d', 'u'] || w == seq!['l', 'a'] || w == seq!['l', 'e'] || w == seq![
        'l',
        'e',
        's',
    ] || w == seq!['l', 'o', 's'] || w == seq!['d', 'e', 'r'] || w == seq!['d', 'e', 'l']
        || w == seq!['d', 'i'] || w == seq!['e', 'l'] || w == seq!['z', 'a']
}

/// The conjunctions removed for the second filtered tier.
pub open spec fn is_and_word(w: Seq<char>) -> bool {
    w == seq!['a', 'n', 'd'] || w == seq!['&'] || w == seq!['e', 't'] || w == seq!['e']
        || w == seq!['u', 'n', 'd'] || w == seq!['i']
}

/// The prepositions removed for the third filtered tier.
pub open spec fn is_prep_word(w: Seq<char>) -> bool {
    w == seq!['f', 'o', 'r'] || w == seq!['f', '\u{00FC}', 'r'] || w == seq!['i', 'n']
        || w == seq!['e', 'n'] || w == seq!['y'] || w == seq!['o', 'n'] || w == seq!['a']
        || w == seq!['v'] || w == seq!['p', 'o', 'u', 'r'] || w == seq!['p', 'e', 'r']
        || w == seq!['s', 'u', 'r'] || w == seq!['\u{00E0}'] || w == seq![
        'v',
        'o',
        'o',
        'r',
    ] || w == seq!['o'] || w == seq!['/']
}

/// A leading elided article (`l’` or `d’`) is stripped from a token.
pub open spec fn strip_elision(w: Seq<char>) -> Seq<char> {
    if w.len() >= 2 && (w[0] == 'l' || w[0] == 'd') && w[1] == '\u{2019}' {
        w.skip(2)
    } else {
        w
    }
}

/// The words of `ws` that satisfy `pred`, in order.
pub open spec fn wfilt(ws: Seq<Seq<char>>, pred: spec_fn(Seq<char>) -> bool) -> Seq<Seq<char>>
    decreases ws.len(),
{
    if ws.len() == 0 {
        Seq::empty()
    } else if pred(ws[0]) {
        seq![ws[0]] + wfilt(ws.drop_first(), pred)
    } else {
        wfilt(ws.drop_first(), pred)
    }
}

/// Tier 0: all tokens.
pub open spec fn tier0(s: Seq<char>) -> Seq<Seq<char>> {
    tokens(s)
}

/// Tier 1: tier 0 minus the "of" words, elided articles stripped.
pub open spec fn tier1(s: Seq<char>) -> Seq<Seq<char>> {
    let kept = wfilt(tier0(s), |w: Seq<char>| !is_of_word(w));
    Seq::new(kept.len(), |i: int| strip_elision(kept[i]))
}

/// Tier 2: tier 1 minus the conjunctions.
pub open spec fn tier2(s: Seq<char>) -> Seq<Seq<char>> {
    wfilt(tier1(s), |w: Seq<char>| !is_and_word(w))
}

/// Tier 3: tier 2 minus the prepositions.
pub open spec fn tier3(s: Seq<char>) -> Seq<Seq<char>> {
    wfilt(tier2(s), |w: Seq<char>| !is_prep_word(w))
}

// ---------------------------------------------------------------------------
// Executable tokenizer
// ---------------------------------------------------------------------------

fn is_boundary_x(c: char) -> (r: bool)
    ensures
        r == is_boundary(c),
{
    c == ' ' || c == '-'
}

/// Splits `v` into its word tokens.
pub fn split_tokens(v: &Vec<char>) -> (r: Vec<Vec<char>>)
    ensures
        r.deep_view() == tokens(v@),
{
    let n = v.len();
    let mut r: Vec<Vec<char>> = Vec::new();
    let mut i: usize = 0;
    assert(v@.skip(0) =~= v@);
    while i < n
        invariant
            i <= n,
            n == v@.len(),
            tokens(v@) == r.deep_view() + tokens(v@.skip(i as int)),
        decreases n - i,
    {
        let c = v[i];
        proof {
            assert(v@.skip(i as int).drop_first() =~= v@.skip(i + 1));
            assert(v@.skip(i as int)[0] == c);
        }
        if is_boundary_x(c) {
            i = i + 1;
        } else {
            // scan to the end of the word
            let start = i;
            let mut j = i;
            while j < n && !is_boundary_x(v[j])
                invariant
                    start <= j <= n,
                    n == v@.len(),
                    word_len(v@.skip(start as int)) == (j - start) + word_len(v@.skip(j as int)),
                decreases n - j,
            {
                proof {
                    assert(v@.skip(j as int).drop_first() =~= v@.skip(j + 1));
                    assert(v@.skip(j as int)[0] == v@[j as int]);
                }
                j = j + 1;
            }
            proof {
                if j < n {
                    assert(v@.skip(j as int)[0] == v@[j as int]);
                    assert(word_len(v@.skip(j as int)) == 0);
                } else {
                    assert(v@.skip(j as int) =~= Seq::<char>::empty());
                }
            }
            let mut w: Vec<char> = Vec::new();
            let mut k = start;
            while k < j
                invariant
                    start <= k <= j <= n,
                    n == v@.len(),
                    w@ == v@.subrange(start as int, k as int),
                decreases j - k,
            {
                w.push(v[k]);
                assert(v@.subrange(start as int, (k + 1) as int) =~= v@.subrange(
                    start as int,
                    k as int,
                ).push(v@[k as int]));
                k = k + 1;
            }
            proof {
                assert(v@.skip(start as int).take(word_len(v@.skip(start as int)) as int)
                    =~= v@.subrange(start as int, j as int));
                assert(v@.skip(start as int).skip(word_len(v@.skip(start as int)) as int)
                    =~= v@.skip(j as int));
                assert(r.deep_view().push(w@) + tokens(v@.skip(j as int)) =~~= r.deep_view() + (
                seq![w@] + tokens(v@.skip(j as int))));
            }
            let ghost pre = r.deep_view();
            r.push(w);
            proof {
                assert(r.deep_view() =~~= pre.push(w@));
            }
            i = j;
        }
    }
    proof {
        assert(v@.skip(n as int) =~= Seq::<char>::empty());
        assert(r.deep_view() + tokens(v@.skip(n as int)) =~~= r.deep_view());
    }
    r
}

fn weq1(w: &Vec<char>, a: char) -> (r: bool)
    ensures
        r == (w@ == seq![a]),
{
    let r = w.len() == 1 && w[0] == a;
    proof {
        if r {
            assert(w@ =~= seq![a]);
        } else if w@ == seq![a] {
            assert(false);
        }
    }
    r
}

fn weq2(w: &Vec<char>, a: char, b: char) -> (r: bool)
    ensures
        r == (w@ == seq![a, b]),
{
    let r = w.len() == 2 && w[0] == a && w[1] == b;
    proof {
        if r {
            assert(w@ =~= seq![a, b]);
        } else if w@ == seq![a, b] {
            assert(false);
        }
    }
    r
}

fn weq3(w: &Vec<char>, a: char, b: char, c: char) -> (r: bool)
    ensures
        r == (w@ == seq![a, b, c]),
{
    let r = w.len() == 3 && w[0] == a && w[1] == b && w[2] == c;
    proof {
        if r {
            assert(w@ =~= seq![a, b, c]);
        } else if w@ == seq![a, b, c] {
            assert(false);
        }
    }
    r
}

fn weq4(w: &Vec<char>, a: char, b: char, c: char, d: char) -> (r: bool)
    ensures
        r == (w@ == seq![a, b, c, d]),
{
    let r = w.len() == 4 && w[0] == a && w[1] == b && w[2] == c && w[3] == d;
    proof {
        if r {
            assert(w@ =~= seq![a, b, c, d]);
        } else if w@ == seq![a, b, c, d] {
            assert(false);
        }
    }
    r
}

fn is_of_word_x(w: &Vec<char>) -> (r: bool)
    ensures
        r == is_of_word(w@),
{
    weq2(w, 'o', 'f') || weq3(w, 't', 'h', 'e') || weq2(w, 'd', 'e') || weq3(w, 'd', 'e', 's')
        || weq2(w, 'd', 'u') || weq2(w, 'l', 'a') || weq2(w, 'l', 'e') || weq3(w, 'l', 'e', 's')
        || weq3(w, 'l', 'o', 's') || weq3(w, 'd', 'e', 'r') || weq3(w, 'd', 'e', 'l') || weq2(
        w,
        'd',
        'i',
    ) || weq2(w, 'e', 'l') || weq2(w, 'z', 'a')
}

fn is_and_word_x(w: &Vec<char>) -> (r: bool)
    ensures
        r == is_and_word(w@),
{
    weq3(w, 'a', 'n', 'd') || weq1(w, '&') || weq2(w, 'e', 't') || weq1(w, 'e') || weq3(
        w,
        'u',
        'n',
        'd',
    ) || weq1(w, 'i')
}

fn is_prep_word_x(w: &Vec<char>) -> (r: bool)
    ensures
        r == is_prep_word(w@),
{
    weq3(w, 'f', 'o', 'r') || weq3(w, 'f', '\u{00FC}', 'r') || weq2(w, 'i', 'n') || weq2(
        w,
        'e',
        'n',
    ) || weq1(w, 'y') || weq2(w, 'o', 'n') || weq1(w, 'a') || weq1(w, 'v') || weq4(
        w,
        'p',
        'o',
        'u',
        'r',
    ) || weq3(w, 'p', 'e', 'r') || weq3(w, 's', 'u', 'r') || weq1(w, '\u{00E0}') || weq4(
        w,
        'v',
        'o',
        'o',
        'r',
    ) || weq1(w, 'o') || weq1(w, '/')
}

fn strip_elision_x(w: Vec<char>) -> (r: Vec<char>)
    ensures
        r@ == strip_elision(w@),
{
    if w.len() >= 2 && (w[0] == 'l' || w[0] == 'd') && w[1] == '\u{2019}' {
        let n = w.len();
        let mut r: Vec<char> = Vec::new();
        let mut i: usize = 2;
        while i < n
            invariant
                2 <= i <= n,
                n == w@.len(),
                r@ == w@.subrange(2, i as int),
            decreases n - i,
        {
            r.push(w[i]);
            assert(w@.subrange(2, (i + 1) as int) =~= w@.subrange(2, i as int).push(w@[i as int]));
            i = i + 1;
        }
        assert(r@ =~= w@.skip(2));
        r
    } else {
        w
    }
}

/// The four token tiers of one match key, each tier as its token list.
pub struct TokenTiers {
    pub t0: Vec<Vec<char>>,
    pub t1: Vec<Vec<char>>,
    pub t2: Vec<Vec<char>>,
    pub t3: Vec<Vec<char>>,
}

impl TokenTiers {
    /// The tiers hold exactly the specified token sequences for `s`.
    pub open spec fn wf(self, s: Seq<char>) -> bool {
        self.t0.deep_view() == tier0(s) && self.t1.deep_view() == tier1(s)
            && self.t2.deep_view() == tier2(s) && self.t3.deep_view() == tier3(s)
    }
}

/// Tokenizes a match key into its four stopword tiers.
pub fn token_tiers(v: &Vec<char>) -> (r: TokenTiers)
    ensures
        r.wf(v@),
{
    let t0 = split_tokens(v);

    // tier 1: drop the "of" words, strip elided articles
    let mut kept: Vec<Vec<char>> = Vec::new();
    let n0 = t0.len();
    let mut i: usize = 0;
    proof {
        assert(t0.deep_view().skip(0) =~= t0.deep_view());
    }
    while i < n0
        invariant
            i <= n0,
            n0 == t0@.len(),
            t0.deep_view().len() == n0,
            wfilt(t0.deep_view(), |w: Seq<char>| !is_of_word(w)) == kept.deep_view() + wfilt(
                t0.deep_view().skip(i as int),
                |w: Seq<char>| !is_of_word(w),
            ),
        decreases n0 - i,
    {
        proof {
            assert(t0.deep_view().skip(i as int).drop_first() =~= t0.deep_view().skip(i + 1));
            assert(t0.deep_view().skip(i as int)[0] == t0.deep_view()[i as int]);
            assert(t0.deep_view()[i as int] == t0@[i as int].deep_view());
            assert(t0@[i as int].deep_view() =~= t0@[i as int]@);
        }
        let w = &t0[i];
        if !is_of_word_x(w) {
            let mut cw: Vec<char> = Vec::new();
            let nw = w.len();
            let mut k: usize = 0;
            while k < nw
                invariant
                    k <= nw,
                    nw == w@.len(),
                    cw@ == w@.subrange(0, k as int),
                decreases nw - k,
            {
                cw.push(w[k]);
                assert(w@.subrange(0, (k + 1) as int) =~= w@.subrange(0, k as int).push(
                    w@[k as int],
                ));
                k = k + 1;
            }
            assert(cw@ =~= w@);
            let ghost pre = kept.deep_view();
            kept.push(cw);
            proof {
                assert(kept.deep_view() =~~= pre.push(cw@));
                assert(pre.push(cw@) + wfilt(
                    t0.deep_view().skip((i + 1) as int),
                    |w: Seq<char>| !is_of_word(w),
                ) =~~= pre + (seq![cw@] + wfilt(
                    t0.deep_view().skip((i + 1) as int),
                    |w: Seq<char>| !is_of_word(w),
                )));
            }
        }
        i = i + 1;
    }
    proof {
        assert(t0.deep_view().skip(n0 as int) =~= Seq::<Seq<char>>::empty());
        assert(kept.deep_view() + wfilt(
            t0.deep_view().skip(n0 as int),
            |w: Seq<char>| !is_of_word(w),
        ) =~~= kept.deep_view());
    }
    let mut t1: Vec<Vec<char>> = Vec::new();
    let nk = kept.len();
    let mut j: usize = 0;
    while j < nk
        invariant
            j <= nk,
            nk == kept@.len(),
            kept.deep_view().len() == nk,
            kept.deep_view() == wfilt(tier0(v@), |w: Seq<char>| !is_of_word(w)),
            t1.deep_view().len() == j as nat,
            forall|k: int|
                0 <= k < j ==> t1.deep_view()[k] == strip_elision(kept.deep_view()[k]),
        decreases nk - j,
    {
        let mut cw: Vec<char> = Vec::new();
        let w = &kept[j];
        let nw = w.len();
        let mut k: usize = 0;
        while k < nw
            invariant
                k <= nw,
                nw == w@.len(),
                cw@ == w@.subrange(0, k as int),
            decreases nw - k,
        {
            cw.push(w[k]);
            assert(w@.subrange(0, (k + 1) as int) =~= w@.subrange(0, k as int).push(w@[k as int]));
            k = k + 1;
        }
        assert(cw@ =~= w@);
        let sw = strip_elision_x(cw);
        proof {
            assert(kept.deep_view()[j as int] == kept@[j as int].deep_view());
        }
        let ghost pre = t1.deep_view();
        t1.push(sw);
        proof {
            assert(t1.deep_view() =~~= pre.push(sw@));
        }
        j = j + 1;
    }
    assert(t1.deep_view() =~~= tier1(v@));

    // tier 2: drop the conjunctions
    let mut t2: Vec<Vec<char>> = Vec::new();
    let n1 = t1.len();
    let mut i2: usize = 0;
    proof {
        assert(t1.deep_view().skip(0) =~= t1.deep_view());
    }
    while i2 < n1
        invariant
            i2 <= n1,
            n1 == t1@.len(),
            t1.deep_view().len() == n1,
            t1.deep_view() == tier1(v@),
            wfilt(t1.deep_view(), |w: Seq<char>| !is_and_word(w)) == t2.deep_view() + wfilt(
                t1.deep_view().skip(i2 as int),
                |w: Seq<char>| !is_and_word(w),
            ),
        decreases n1 - i2,
    {
        proof {
            assert(t1.deep_view().skip(i2 as int).drop_first() =~= t1.deep_view().skip(i2 + 1));
            assert(t1.deep_view().skip(i2 as int)[0] == t1.deep_view()[i2 as int]);
            assert(t1.deep_view()[i2 as int] == t1@[i2 as int].deep_view());
            assert(t1@[i2 as int].deep_view() =~= t1@[i2 as int]@);
        }
        let w = &t1[i2];
        if !is_and_word_x(w) {
            let mut cw: Vec<char> = Vec::new();
            let nw = w.len();
            let mut k: usize = 0;
            while k < nw
                invariant
                    k <= nw,
                    nw == w@.len(),
                    cw@ == w@.subrange(0, k as int),
                decreases nw - k,
            {
                cw.push(w[k]);
                assert(w@.subrange(0, (k + 1) as int) =~= w@.subrange(0, k as int).push(
                    w@[k as int],
                ));
                k = k + 1;
            }
            assert(cw@ =~= w@);
            let ghost pre = t2.deep_view();
            t2.push(cw);
            proof {
                assert(t2.deep_view() =~~= pre.push(cw@));
                assert(pre.push(cw@) + wfilt(
                    t1.deep_view().skip((i2 + 1) as int),
                    |w: Seq<char>| !is_and_word(w),
                ) =~~= pre + (seq![cw@] + wfilt(
                    t1.deep_view().skip((i2 + 1) as int),
                    |w: Seq<char>| !is_and_word(w),
                )));
            }
        }
        i2 = i2 + 1;
    }
    proof {
        assert(t1.deep_view().skip(n1 as int) =~= Seq::<Seq<char>>::empty());
        assert(t2.deep_view() + wfilt(
            t1.deep_view().skip(n1 as int),
            |w: Seq<char>| !is_and_word(w),
        ) =~~= t2.deep_view());
    }

    // tier 3: drop the prepositions
    let mut t3: Vec<Vec<char>> = Vec::new();
    let n2 = t2.len();
    let mut i3: usize = 0;
    proof {
        assert(t2.deep_view().skip(0) =~= t2.deep_view());
    }
    while i3 < n2
        invariant
            i3 <= n2,
            n2 == t2@.len(),
            t2.deep_view().len() == n2,
            t2.deep_view() == tier2(v@),
            wfilt(t2.deep_view(), |w: Seq<char>| !is_prep_word(w)) == t3.deep_view() + wfilt(
                t2.deep_view().skip(i3 as int),
                |w: Seq<char>| !is_prep_word(w),
            ),
        decreases n2 - i3,
    {
        proof {
            assert(t2.deep_view().skip(i3 as int).drop_first() =~= t2.deep_view().skip(i3 + 1));
            assert(t2.deep_view().skip(i3 as int)[0] == t2.deep_view()[i3 as int]);
            assert(t2.deep_view()[i3 as int] == t2@[i3 as int].deep_view());
            assert(t2@[i3 as int].deep_view() =~= t2@[i3 as int]@);
        }
        let w = &t2[i3];
        if !is_prep_word_x(w) {
            let mut cw: Vec<char> = Vec::new();
            let nw = w.len();
            let mut k: usize = 0;
            while k < nw
                invariant
                    k <= nw,
                    nw == w@.len(),
                    cw@ == w@.subrange(0, k as int),
                decreases nw - k,
            {
                cw.push(w[k]);
                assert(w@.subrange(0, (k + 1) as int) =~= w@.subrange(0, k as int).push(
                    w@[k as int],
                ));
                k = k + 1;
            }
            assert(cw@ =~= w@);
            let ghost pre = t3.deep_view();
            t3.push(cw);
            proof {
                assert(t3.deep_view() =~~= pre.push(cw@));
                assert(pre.push(cw@) + wfilt(
                    t2.deep_view().skip((i3 + 1) as int),
                    |w: Seq<char>| !is_prep_word(w),
                ) =~~= pre + (seq![cw@] + wfilt(
                    t2.deep_view().skip((i3 + 1) as int),
                    |w: Seq<char>| !is_prep_word(w),
                )));
            }
        }
        i3 = i3 + 1;
    }
    proof {
        assert(t2.deep_view().skip(n2 as int) =~= Seq::<Seq<char>>::empty());
        assert(t3.deep_view() + wfilt(
            t2.deep_view().skip(n2 as int),
            |w: Seq<char>| !is_prep_word(w),
        ) =~~= t3.deep_view());
    }

    TokenTiers { t0, t1, t2, t3 }
}

/// The word tokens of a match key, as strings.
pub fn tokenize(key: &str) -> (r: Vec<String>)
    ensures
        r.deep_view() == tokens(key@),
{
    let v = crate::strutil::chars_of(key);
    let parts = split_tokens(&v);
    let n = parts.len();
    let mut r: Vec<String> = Vec::new();
    let mut i: usize = 0;
    while i < n
        invariant
            i <= n,
            n == parts@.len(),
            parts.deep_view().len() == n,
            r.deep_view().len() == i as nat,
            forall|k: int| 0 <= k < i ==> r.deep_view()[k] == parts.deep_view()[k],
        decreases n - i,
    {
        let s = string_from_chars(&parts[i]);
        proof {
            assert(parts.deep_view()[i as int] == parts@[i as int].deep_view());
        }
        let ghost pre = r.deep_view();
        r.push(s);
        proof {
            assert(r.deep_view() =~~= pre.push(s@));
        }
        i = i + 1;
    }
    assert(r.deep_view() =~~= tokens(key@));
    r
}

} // verus!
