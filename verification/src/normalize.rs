//! The normalizer: turns a raw organization name into its canonical match
//! key.
//!
//! The transform applies, in this order: stripping of zero-width and
//! directional marks; repair of the mis-encoded sequence `people 's`;
//! removal of period, comma, colon and semicolon; bracket handling (openers
//! degrade to a space, closers are dropped); removal of double quotes,
//! guillemets and twin apostrophes; mapping of single-quote-like marks to
//! curly single quotes; mapping of space variants to a plain space;
//! contextual disambiguation of ASCII apostrophes; mapping of bullet-like
//! glyphs to a space; dash normalization with removal of spaces around
//! hyphens; collapse of space runs; trimming; and, last, case folding.
//!
//! Each step has a specification function over `Seq<char>`, and
//! [`normalize`] is proved to return exactly their composition
//! ([`norm_spec`]).  The module also proves that the output never holds two
//! adjacent spaces, and that the whole transform is idempotent on every
//! input whose match key keeps no space against a hyphen (the hyphen step
//! strips one space per side, so longer runs settle only across runs).

use vstd::prelude::*;
use crate::strutil::{chars_of, string_from_chars, starts_with, contains_sub, matches_at,
    push_all};

verus! {

// ---------------------------------------------------------------------------
// Character classes
// ---------------------------------------------------------------------------

/// Zero-width and directional-mark code points.
pub open spec fn is_invisible(c: char) -> bool {
    c == '\u{200B}' || c == '\u{200C}' || c == '\u{200D}' || c == '\u{200E}'
        || c == '\u{200F}' || c == '\u{2060}' || c == '\u{FEFF}'
}

/// Punctuation that is removed outright.
pub open spec fn is_dropped_punct(c: char) -> bool {
    c == '.' || c == ',' || c == ':' || c == ';'
}

/// Opening parenthesis or bracket (degraded to a space).
pub open spec fn is_open_bracket(c: char) -> bool {
    c == '(' || c == '['
}

/// Closing parenthesis or bracket (dropped).
pub open spec fn is_close_bracket(c: char) -> bool {
    c == ')' || c == ']'
}

/// Double quotes in all their variants, and guillemets.
pub open spec fn is_double_quote(c: char) -> bool {
    c == '"' || c == '\u{201C}' || c == '\u{201D}' || c == '\u{201E}'
        || c == '\u{201F}' || c == '\u{00AB}' || c == '\u{00BB}'
}

/// Single-quote-like marks that are normalized to a curly single quote.
pub open spec fn is_quote_mark(c: char) -> bool {
    c == '\u{201A}' || c == '\u{201B}' || c == '\u{02BB}' || c == '\u{02BC}'
        || c == '\u{02BD}' || c == '\u{02BE}' || c == '\u{02BF}'
}

/// The curly single quote each quote-like mark maps to.
pub open spec fn quote_mark_map(c: char) -> char {
    if c == '\u{201A}' || c == '\u{201B}' || c == '\u{02BB}' || c == '\u{02BD}'
        || c == '\u{02BF}' {
        '\u{2018}'
    } else if c == '\u{02BC}' || c == '\u{02BE}' {
        '\u{2019}'
    } else {
        c
    }
}

/// Space variants that are collapsed to a plain ASCII space.
pub open spec fn is_space_variant(c: char) -> bool {
    c == '\u{00A0}' || c == '\u{2001}' || c == '\u{2002}' || c == '\u{2003}'
        || c == '\u{2008}' || c == '\u{3000}'
}

pub open spec fn space_variant_map(c: char) -> char {
    if is_space_variant(c) { ' ' } else { c }
}

/// The full-width apostrophe, mapped to a plain apostrophe before the
/// contextual rule runs.
pub open spec fn fullwidth_apos_map(c: char) -> char {
    if c == '\u{FF07}' { '\'' } else { c }
}

/// Bullet-like glyphs, replaced by a space.
pub open spec fn is_bullet(c: char) -> bool {
    c == '\u{2022}' || c == '\u{2043}' || c == '\u{2219}' || c == '\u{25AA}'
        || c == '\u{30FB}'
}

pub open spec fn bullet_map(c: char) -> char {
    if is_bullet(c) { ' ' } else { c }
}

/// Hyphen-like dashes, normalized to the ASCII hyphen.
pub open spec fn is_dash(c: char) -> bool {
    c == '\u{2010}' || c == '\u{2011}' || c == '\u{2012}' || c == '\u{2013}'
        || c == '\u{2014}' || c == '\u{2015}'
}

pub open spec fn dash_map(c: char) -> char {
    if is_dash(c) { '-' } else { c }
}

pub open spec fn open_bracket_map(c: char) -> char {
    if is_open_bracket(c) { ' ' } else { c }
}

/// Upper-case letters the case fold maps down: the ASCII, Latin-1, Latin
/// Extended-A, Latin Extended Additional, Greek and Cyrillic letter ranges.
pub open spec fn is_foldable_upper(c: char) -> bool {
    let u = c as u32;
    (0x41 <= u && u <= 0x5A) || (0xC0 <= u && u <= 0xDE && u != 0xD7) || (0x100 <= u && u
        <= 0x136 && u % 2 == 0) || (0x139 <= u && u <= 0x147 && u % 2 == 1) || (0x14A <= u && u
        <= 0x176 && u % 2 == 0) || u == 0x178 || (0x179 <= u && u <= 0x17D && u % 2 == 1) || (
    0x1E00 <= u && u <= 0x1E94 && u % 2 == 0) || u == 0x1E9E || (0x1EA0 <= u && u <= 0x1EFE && u
        % 2 == 0) || u == 0x386 || (0x388 <= u && u <= 0x38A) || u == 0x38C || (0x38E <= u && u
        <= 0x38F) || (0x391 <= u && u <= 0x3A1) || (0x3A3 <= u && u <= 0x3AB) || (0x400 <= u
        && u <= 0x42F) || (0x460 <= u && u <= 0x480 && u % 2 == 0) || (0x48A <= u && u <= 0x4BE
        && u % 2 == 0) || u == 0x4C0 || (0x4C1 <= u && u <= 0x4CD && u % 2 == 1) || (0x4D0 <= u
        && u <= 0x52E && u % 2 == 0)
}

/// The case fold used for match keys: each capital of the covered ranges
/// goes to its lower-case partner, everything else stays as it is.
pub open spec fn fold_char(c: char) -> char {
    let u = c as u32;
    if 0x41 <= u && u <= 0x5A {
        ((u + 32) as u32) as char
    } else if 0xC0 <= u && u <= 0xDE && u != 0xD7 {
        ((u + 32) as u32) as char
    } else if u == 0x130 {
        'i'
    } else if u == 0x178 {
        '\u{00FF}'
    } else if (0x100 <= u && u <= 0x136 && u % 2 == 0) || (0x139 <= u && u <= 0x147 && u % 2
        == 1) || (0x14A <= u && u <= 0x176 && u % 2 == 0) || (0x179 <= u && u <= 0x17D && u % 2
        == 1) {
        ((u + 1) as u32) as char
    } else if u == 0x1E9E {
        '\u{00DF}'
    } else if (0x1E00 <= u && u <= 0x1E94 && u % 2 == 0) || (0x1EA0 <= u && u <= 0x1EFE && u % 2
        == 0) {
        ((u + 1) as u32) as char
    } else if u == 0x386 {
        '\u{03AC}'
    } else if 0x388 <= u && u <= 0x38A {
        ((u + 0x25) as u32) as char
    } else if u == 0x38C {
        '\u{03CC}'
    } else if 0x38E <= u && u <= 0x38F {
        ((u + 0x3F) as u32) as char
    } else if (0x391 <= u && u <= 0x3A1) || (0x3A3 <= u && u <= 0x3AB) {
        ((u + 32) as u32) as char
    } else if 0x410 <= u && u <= 0x42F {
        ((u + 32) as u32) as char
    } else if 0x400 <= u && u <= 0x40F {
        ((u + 80) as u32) as char
    } else if u == 0x4C0 {
        '\u{04CF}'
    } else if (0x460 <= u && u <= 0x480 && u % 2 == 0) || (0x48A <= u && u <= 0x4BE && u % 2
        == 0) || (0x4C1 <= u && u <= 0x4CD && u % 2 == 1) || (0x4D0 <= u && u <= 0x52E && u % 2
        == 0) {
        ((u + 1) as u32) as char
    } else {
        c
    }
}

// ---------------------------------------------------------------------------
// Specification combinators
// ---------------------------------------------------------------------------

/// The characters of `s` that satisfy `pred`, in order.
pub open spec fn filt(s: Seq<char>, pred: spec_fn(char) -> bool) -> Seq<char>
    decreases s.len(),
{
    if s.len() == 0 {
        Seq::empty()
    } else if pred(s[0]) {
        seq![s[0]] + filt(s.drop_first(), pred)
    } else {
        filt(s.drop_first(), pred)
    }
}

/// `s` with every character passed through `f`.
pub open spec fn cmap(s: Seq<char>, f: spec_fn(char) -> char) -> Seq<char> {
    Seq::new(s.len(), |i: int| f(s[i]))
}

/// `s` with every occurrence of `pat` replaced by `rep`, scanning left to
/// right over non-overlapping occurrences.
pub open spec fn replace_all(s: Seq<char>, pat: Seq<char>, rep: Seq<char>) -> Seq<char>
    decreases s.len(),
{
    if pat.len() == 0 || s.len() == 0 {
        s
    } else if starts_with(s, pat) {
        rep + replace_all(s.skip(pat.len() as int), pat, rep)
    } else {
        seq![s[0]] + replace_all(s.drop_first(), pat, rep)
    }
}

/// The contextual apostrophe rule: an ASCII apostrophe at the start of the
/// string or right after a space becomes a left single quote, every other
/// ASCII apostrophe a right single quote.
pub open spec fn apost_marks(s: Seq<char>) -> Seq<char> {
    Seq::new(
        s.len(),
        |i: int|
            if s[i] == '\'' {
                if i == 0 || s[i - 1] == ' ' {
                    '\u{2018}'
                } else {
                    '\u{2019}'
                }
            } else {
                s[i]
            },
    )
}

/// A space directly before a hyphen.
pub open spec fn space_hyphen() -> Seq<char> {
    seq![' ', '-']
}

/// A space directly after a hyphen.
pub open spec fn hyphen_space() -> Seq<char> {
    seq!['-', ' ']
}

/// A plain hyphen.
pub open spec fn hyphen() -> Seq<char> {
    seq!['-']
}

/// Collapse of space runs: a space directly followed by another space is
/// dropped, so every run of spaces shrinks to a single space.
pub open spec fn collapse_rec(s: Seq<char>) -> Seq<char>
    decreases s.len(),
{
    if s.len() == 0 {
        Seq::empty()
    } else if s.len() >= 2 && s[0] == ' ' && s[1] == ' ' {
        collapse_rec(s.drop_first())
    } else {
        seq![s[0]] + collapse_rec(s.drop_first())
    }
}

pub open spec fn trim_front(s: Seq<char>) -> Seq<char>
    decreases s.len(),
{
    if s.len() > 0 && s[0] == ' ' {
        trim_front(s.drop_first())
    } else {
        s
    }
}

pub open spec fn trim_back(s: Seq<char>) -> Seq<char>
    decreases s.len(),
{
    if s.len() > 0 && s[s.len() - 1] == ' ' {
        trim_back(s.drop_last())
    } else {
        s
    }
}

// ---------------------------------------------------------------------------
// The steps, named, and their composition
// ---------------------------------------------------------------------------

/// The mis-encoded sequence `people 's`.
pub open spec fn peoples_pat() -> Seq<char> {
    seq!['p', 'e', 'o', 'p', 'l', 'e', ' ', '\'', 's']
}

/// Its repaired form, with a right single quote.
pub open spec fn peoples_rep() -> Seq<char> {
    seq!['p', 'e', 'o', 'p', 'l', 'e', '\u{2019}', 's']
}

/// A pair of ASCII apostrophes, which stands for a double quote and is
/// dropped.
pub open spec fn twin_apos() -> Seq<char> {
    seq!['\'', '\'']
}

pub open spec fn step_invisible(s: Seq<char>) -> Seq<char> {
    filt(s, |c: char| !is_invisible(c))
}

pub open spec fn step_peoples(s: Seq<char>) -> Seq<char> {
    replace_all(s, peoples_pat(), peoples_rep())
}

pub open spec fn step_punct(s: Seq<char>) -> Seq<char> {
    filt(s, |c: char| !is_dropped_punct(c))
}

pub open spec fn step_brackets(s: Seq<char>) -> Seq<char> {
    filt(cmap(s, |c: char| open_bracket_map(c)), |c: char| !is_close_bracket(c))
}

pub open spec fn step_double_quotes(s: Seq<char>) -> Seq<char> {
    replace_all(filt(s, |c: char| !is_double_quote(c)), twin_apos(), Seq::empty())
}

pub open spec fn step_quote_marks(s: Seq<char>) -> Seq<char> {
    cmap(s, |c: char| quote_mark_map(c))
}

pub open spec fn step_spaces(s: Seq<char>) -> Seq<char> {
    cmap(s, |c: char| space_variant_map(c))
}

pub open spec fn step_apostrophes(s: Seq<char>) -> Seq<char> {
    apost_marks(cmap(s, |c: char| fullwidth_apos_map(c)))
}

pub open spec fn step_bullets(s: Seq<char>) -> Seq<char> {
    cmap(s, |c: char| bullet_map(c))
}

/// Dashes become hyphens; then one space directly before a hyphen and one
/// directly after it are stripped, scanning left to right.
pub open spec fn step_hyphens(s: Seq<char>) -> Seq<char> {
    replace_all(
        replace_all(cmap(s, |c: char| dash_map(c)), space_hyphen(), hyphen()),
        hyphen_space(),
        hyphen(),
    )
}

pub open spec fn step_collapse(s: Seq<char>) -> Seq<char> {
    collapse_rec(s)
}

pub open spec fn step_trim(s: Seq<char>) -> Seq<char> {
    trim_back(trim_front(s))
}

pub open spec fn step_fold(s: Seq<char>) -> Seq<char> {
    cmap(s, |c: char| fold_char(c))
}

/// The whole normalization, as the ordered composition of the steps.
pub open spec fn norm_spec(s: Seq<char>) -> Seq<char> {
    step_fold(
        step_trim(
            step_collapse(
                step_hyphens(
                    step_bullets(
                        step_apostrophes(
                            step_spaces(
                                step_quote_marks(
                                    step_double_quotes(
                                        step_brackets(step_punct(step_peoples(step_invisible(s)))),
                                    ),
                                ),
                            ),
                        ),
                    ),
                ),
            ),
        ),
    )
}

// ---------------------------------------------------------------------------
// Executable steps
// ---------------------------------------------------------------------------

fn drop_invisible(v: &Vec<char>) -> (r: Vec<char>)
    ensures
        r@ == step_invisible(v@),
{
    let n = v.len();
    let mut r: Vec<char> = Vec::new();
    let mut i: usize = 0;
    assert(v@.skip(0) =~= v@);
    while i < n
        invariant
            i <= n,
            n == v@.len(),
            step_invisible(v@) == r@ + filt(v@.skip(i as int), |c: char| !is_invisible(c)),
        decreases n - i,
    {
        let c = v[i];
        proof {
            assert(v@.skip(i as int).drop_first() =~= v@.skip(i + 1));
            assert(v@.skip(i as int)[0] == c);
        }
        if !(c == '\u{200B}' || c == '\u{200C}' || c == '\u{200D}' || c == '\u{200E}'
            || c == '\u{200F}' || c == '\u{2060}' || c == '\u{FEFF}') {
            r.push(c);
        }
        i = i + 1;
    }
    proof {
        assert(v@.skip(n as int) =~= Seq::<char>::empty());
    }
    r
}

fn replace_all_x(v: &Vec<char>, pat: &Vec<char>, rep: &Vec<char>) -> (r: Vec<char>)
    requires
        pat@.len() > 0,
    ensures
        r@ == replace_all(v@, pat@, rep@),
{
    let n = v.len();
    let m = pat.len();
    let mut r: Vec<char> = Vec::new();
    let mut i: usize = 0;
    assert(v@.skip(0) =~= v@);
    while i < n
        invariant
            i <= n,
            n == v@.len(),
            m == pat@.len(),
            0 < m,
            replace_all(v@, pat@, rep@) == r@ + replace_all(v@.skip(i as int), pat@, rep@),
        decreases n - i,
    {
        let hit = m <= n - i && matches_at(v, pat, i);
        proof {
            if i + m <= n {
                assert(v@.skip(i as int).subrange(0, m as int) =~= v@.subrange(i as int, i + m));
            }
        }
        if hit {
            assert(starts_with(v@.skip(i as int), pat@));
            push_all(&mut r, rep);
            proof {
                assert(v@.skip(i as int).skip(m as int) =~= v@.skip((i + m) as int));
            }
            i = i + m;
        } else {
            proof {
                assert(!starts_with(v@.skip(i as int), pat@));
                assert(v@.skip(i as int).drop_first() =~= v@.skip(i + 1));
                assert(v@.skip(i as int)[0] == v@[i as int]);
            }
            r.push(v[i]);
            i = i + 1;
        }
    }
    proof {
        assert(v@.skip(n as int) =~= Seq::<char>::empty());
    }
    r
}

fn drop_punct(v: &Vec<char>) -> (r: Vec<char>)
    ensures
        r@ == step_punct(v@),
{
    let n = v.len();
    let mut r: Vec<char> = Vec::new();
    let mut i: usize = 0;
    assert(v@.skip(0) =~= v@);
    while i < n
        invariant
            i <= n,
            n == v@.len(),
            step_punct(v@) == r@ + filt(v@.skip(i as int), |c: char| !is_dropped_punct(c)),
        decreases n - i,
    {
        let c = v[i];
        proof {
            assert(v@.skip(i as int).drop_first() =~= v@.skip(i + 1));
            assert(v@.skip(i as int)[0] == c);
        }
        if !(c == '.' || c == ',' || c == ':' || c == ';') {
            r.push(c);
        }
        i = i + 1;
    }
    proof {
        assert(v@.skip(n as int) =~= Seq::<char>::empty());
    }
    r
}

fn handle_brackets(v: &Vec<char>) -> (r: Vec<char>)
    ensures
        r@ == step_brackets(v@),
{
    let ghost mapped = cmap(v@, |c: char| open_bracket_map(c));
    let n = v.len();
    let mut r: Vec<char> = Vec::new();
    let mut i: usize = 0;
    assert(mapped.skip(0) =~= mapped);
    while i < n
        invariant
            i <= n,
            n == v@.len(),
            mapped == cmap(v@, |c: char| open_bracket_map(c)),
            step_brackets(v@) == r@ + filt(mapped.skip(i as int), |c: char| !is_close_bracket(c)),
        decreases n - i,
    {
        let c = v[i];
        let d = if c == '(' || c == '[' { ' ' } else { c };
        proof {
            assert(mapped.skip(i as int).drop_first() =~= mapped.skip(i + 1));
            assert(mapped.skip(i as int)[0] == open_bracket_map(c));
            assert(open_bracket_map(c) == d);
        }
        if !(d == ')' || d == ']') {
            r.push(d);
        }
        i = i + 1;
    }
    proof {
        assert(mapped.skip(n as int) =~= Seq::<char>::empty());
    }
    r
}

fn drop_double_quotes(v: &Vec<char>) -> (r: Vec<char>)
    ensures
        r@ == step_double_quotes(v@),
{
    let n = v.len();
    let mut kept: Vec<char> = Vec::new();
    let mut i: usize = 0;
    assert(v@.skip(0) =~= v@);
    while i < n
        invariant
            i <= n,
            n == v@.len(),
            filt(v@, |c: char| !is_double_quote(c)) == kept@ + filt(
                v@.skip(i as int),
                |c: char| !is_double_quote(c),
            ),
        decreases n - i,
    {
        let c = v[i];
        proof {
            assert(v@.skip(i as int).drop_first() =~= v@.skip(i + 1));
            assert(v@.skip(i as int)[0] == c);
        }
        if !(c == '"' || c == '\u{201C}' || c == '\u{201D}' || c == '\u{201E}'
            || c == '\u{201F}' || c == '\u{00AB}' || c == '\u{00BB}') {
            kept.push(c);
        }
        i = i + 1;
    }
    proof {
        assert(v@.skip(n as int) =~= Seq::<char>::empty());
    }
    let mut pat: Vec<char> = Vec::new();
    pat.push('\'');
    pat.push('\'');
    assert(pat@ =~= twin_apos());
    let rep: Vec<char> = Vec::new();
    assert(rep@ =~= Seq::<char>::empty());
    replace_all_x(&kept, &pat, &rep)
}

fn map_quote_marks(v: &Vec<char>) -> (r: Vec<char>)
    ensures
        r@ == step_quote_marks(v@),
{
    let n = v.len();
    let mut r: Vec<char> = Vec::new();
    let mut i: usize = 0;
    while i < n
        invariant
            i <= n,
            n == v@.len(),
            r@.len() == i as nat,
            forall|k: int| 0 <= k < i ==> r@[k] == quote_mark_map(v@[k]),
        decreases n - i,
    {
        let c = v[i];
        let d = if c == '\u{201A}' || c == '\u{201B}' || c == '\u{02BB}' || c == '\u{02BD}'
            || c == '\u{02BF}' {
            '\u{2018}'
        } else if c == '\u{02BC}' || c == '\u{02BE}' {
            '\u{2019}'
        } else {
            c
        };
        r.push(d);
        i = i + 1;
    }
    assert(r@ =~= step_quote_marks(v@));
    r
}

fn map_space_variants(v: &Vec<char>) -> (r: Vec<char>)
    ensures
        r@ == step_spaces(v@),
{
    let n = v.len();
    let mut r: Vec<char> = Vec::new();
    let mut i: usize = 0;
    while i < n
        invariant
            i <= n,
            n == v@.len(),
            r@.len() == i as nat,
            forall|k: int| 0 <= k < i ==> r@[k] == space_variant_map(v@[k]),
        decreases n - i,
    {
        let c = v[i];
        let d = if c == '\u{00A0}' || c == '\u{2001}' || c == '\u{2002}' || c == '\u{2003}'
            || c == '\u{2008}' || c == '\u{3000}' {
            ' '
        } else {
            c
        };
        r.push(d);
        i = i + 1;
    }
    assert(r@ =~= step_spaces(v@));
    r
}

fn map_apostrophes(v: &Vec<char>) -> (r: Vec<char>)
    ensures
        r@ == step_apostrophes(v@),
{
    let ghost mapped = cmap(v@, |c: char| fullwidth_apos_map(c));
    let n = v.len();
    let mut w: Vec<char> = Vec::new();
    let mut i: usize = 0;
    while i < n
        invariant
            i <= n,
            n == v@.len(),
            w@.len() == i as nat,
            forall|k: int| 0 <= k < i ==> w@[k] == fullwidth_apos_map(v@[k]),
        decreases n - i,
    {
        let c = v[i];
        let d = if c == '\u{FF07}' { '\'' } else { c };
        w.push(d);
        i = i + 1;
    }
    assert(w@ =~= mapped);
    let mut r: Vec<char> = Vec::new();
    let mut j: usize = 0;
    while j < n
        invariant
            j <= n,
            n == w@.len(),
            w@ == mapped,
            r@.len() == j as nat,
            forall|k: int| 0 <= k < j ==> r@[k] == apost_marks(w@)[k],
        decreases n - j,
    {
        let c = w[j];
        let d = if c == '\'' {
            if j == 0 || w[j - 1] == ' ' {
                '\u{2018}'
            } else {
                '\u{2019}'
            }
        } else {
            c
        };
        r.push(d);
        j = j + 1;
    }
    assert(r@ =~= apost_marks(mapped));
    r
}

fn map_bullets(v: &Vec<char>) -> (r: Vec<char>)
    ensures
        r@ == step_bullets(v@),
{
    let n = v.len();
    let mut r: Vec<char> = Vec::new();
    let mut i: usize = 0;
    while i < n
        invariant
            i <= n,
            n == v@.len(),
            r@.len() == i as nat,
            forall|k: int| 0 <= k < i ==> r@[k] == bullet_map(v@[k]),
        decreases n - i,
    {
        let c = v[i];
        let d = if c == '\u{2022}' || c == '\u{2043}' || c == '\u{2219}' || c == '\u{25AA}'
            || c == '\u{30FB}' {
            ' '
        } else {
            c
        };
        r.push(d);
        i = i + 1;
    }
    assert(r@ =~= step_bullets(v@));
    r
}

fn normalize_hyphens(v: &Vec<char>) -> (r: Vec<char>)
    ensures
        r@ == step_hyphens(v@),
{
    let n = v.len();
    let mut w: Vec<char> = Vec::new();
    let mut i: usize = 0;
    while i < n
        invariant
            i <= n,
            n == v@.len(),
            w@.len() == i as nat,
            forall|k: int| 0 <= k < i ==> w@[k] == dash_map(v@[k]),
        decreases n - i,
    {
        let c = v[i];
        let d = if c == '\u{2010}' || c == '\u{2011}' || c == '\u{2012}' || c == '\u{2013}'
            || c == '\u{2014}' || c == '\u{2015}' {
            '-'
        } else {
            c
        };
        w.push(d);
        i = i + 1;
    }
    assert(w@ =~= cmap(v@, |c: char| dash_map(c)));
    let mut before: Vec<char> = Vec::new();
    before.push(' ');
    before.push('-');
    assert(before@ =~= space_hyphen());
    let mut after: Vec<char> = Vec::new();
    after.push('-');
    after.push(' ');
    assert(after@ =~= hyphen_space());
    let mut hyph: Vec<char> = Vec::new();
    hyph.push('-');
    assert(hyph@ =~= hyphen());
    let w2 = replace_all_x(&w, &before, &hyph);
    replace_all_x(&w2, &after, &hyph)
}

fn collapse_spaces(v: &Vec<char>) -> (r: Vec<char>)
    ensures
        r@ == step_collapse(v@),
{
    let n = v.len();
    let mut r: Vec<char> = Vec::new();
    let mut i: usize = 0;
    assert(v@.skip(0) =~= v@);
    while i < n
        invariant
            i <= n,
            n == v@.len(),
            step_collapse(v@) == r@ + collapse_rec(v@.skip(i as int)),
        decreases n - i,
    {
        let c = v[i];
        proof {
            assert(v@.skip(i as int).drop_first() =~= v@.skip(i + 1));
            assert(v@.skip(i as int)[0] == c);
            if i + 1 < n {
                assert(v@.skip(i as int)[1] == v@[i + 1]);
            }
        }
        if c == ' ' && i + 1 < n && v[i + 1] == ' ' {
            // a longer space run continues; drop this space
        } else {
            r.push(c);
        }
        i = i + 1;
    }
    proof {
        assert(v@.skip(n as int) =~= Seq::<char>::empty());
    }
    r
}

fn trim_spaces(v: &Vec<char>) -> (r: Vec<char>)
    ensures
        r@ == step_trim(v@),
{
    let n = v.len();
    let mut a: usize = 0;
    assert(v@.skip(0) =~= v@);
    while a < n && v[a] == ' '
        invariant
            a <= n,
            n == v@.len(),
            trim_front(v@) == trim_front(v@.skip(a as int)),
        decreases n - a,
    {
        proof {
            assert(v@.skip(a as int).drop_first() =~= v@.skip(a + 1));
            assert(v@.skip(a as int)[0] == v@[a as int]);
        }
        a = a + 1;
    }
    proof {
        if a < n {
            assert(v@.skip(a as int)[0] == v@[a as int]);
            assert(trim_front(v@.skip(a as int)) == v@.skip(a as int));
        } else {
            assert(v@.skip(a as int) =~= Seq::<char>::empty());
        }
        assert(v@.skip(a as int) =~= v@.subrange(a as int, n as int));
    }
    let mut b: usize = n;
    while b > a && v[b - 1] == ' '
        invariant
            a <= b <= n,
            n == v@.len(),
            trim_back(v@.subrange(a as int, n as int)) == trim_back(
                v@.subrange(a as int, b as int),
            ),
        decreases b,
    {
        proof {
            assert(v@.subrange(a as int, b as int).drop_last() =~= v@.subrange(
                a as int,
                b - 1,
            ));
            assert(v@.subrange(a as int, b as int).last() == v@[b - 1]);
        }
        b = b - 1;
    }
    proof {
        if b > a {
            assert(v@.subrange(a as int, b as int).last() == v@[b - 1]);
            assert(trim_back(v@.subrange(a as int, b as int)) == v@.subrange(a as int, b as int));
        } else {
            assert(v@.subrange(a as int, b as int) =~= Seq::<char>::empty());
        }
    }
    let mut r: Vec<char> = Vec::new();
    let mut i = a;
    while i < b
        invariant
            a <= i <= b <= n,
            n == v@.len(),
            r@ == v@.subrange(a as int, i as int),
        decreases b - i,
    {
        r.push(v[i]);
        assert(v@.subrange(a as int, (i + 1) as int) =~= v@.subrange(a as int, i as int).push(
            v@[i as int],
        ));
        i = i + 1;
    }
    assert(step_trim(v@) == trim_back(v@.subrange(a as int, b as int)));
    r
}

/// Relies on char::from_u32: for a scalar value below 0xD800 the result is
/// the character with that value.
#[verifier::external_body]
fn char_from_scalar(u: u32) -> (c: char)
    requires
        u < 0xD800,
    ensures
        c as u32 == u,
{
    char::from_u32(u).unwrap()
}

pub(crate) fn fold_case(v: &Vec<char>) -> (r: Vec<char>)
    ensures
        r@ == step_fold(v@),
{
    broadcast use vstd::utf8::char_u32_cast;

    let n = v.len();
    let mut r: Vec<char> = Vec::new();
    let mut i: usize = 0;
    while i < n
        invariant
            i <= n,
            n == v@.len(),
            r@.len() == i as nat,
            forall|k: int| 0 <= k < i ==> r@[k] == fold_char(v@[k]),
        decreases n - i,
    {
        let c = v[i];
        let u = c as u32;
        let d = if 0x41 <= u && u <= 0x5A {
            char_from_scalar(u + 32)
        } else if 0xC0 <= u && u <= 0xDE && u != 0xD7 {
            char_from_scalar(u + 32)
        } else if u == 0x130 {
            'i'
        } else if u == 0x178 {
            '\u{00FF}'
        } else if (0x100 <= u && u <= 0x136 && u % 2 == 0) || (0x139 <= u && u <= 0x147 && u % 2
            == 1) || (0x14A <= u && u <= 0x176 && u % 2 == 0) || (0x179 <= u && u <= 0x17D && u
            % 2 == 1) {
            char_from_scalar(u + 1)
        } else if u == 0x1E9E {
            '\u{00DF}'
        } else if (0x1E00 <= u && u <= 0x1E94 && u % 2 == 0) || (0x1EA0 <= u && u <= 0x1EFE && u
            % 2 == 0) {
            char_from_scalar(u + 1)
        } else if u == 0x386 {
            '\u{03AC}'
        } else if 0x388 <= u && u <= 0x38A {
            char_from_scalar(u + 0x25)
        } else if u == 0x38C {
            '\u{03CC}'
        } else if 0x38E <= u && u <= 0x38F {
            char_from_scalar(u + 0x3F)
        } else if (0x391 <= u && u <= 0x3A1) || (0x3A3 <= u && u <= 0x3AB) {
            char_from_scalar(u + 32)
        } else if 0x410 <= u && u <= 0x42F {
            char_from_scalar(u + 32)
        } else if 0x400 <= u && u <= 0x40F {
            char_from_scalar(u + 80)
        } else if u == 0x4C0 {
            '\u{04CF}'
        } else if (0x460 <= u && u <= 0x480 && u % 2 == 0) || (0x48A <= u && u <= 0x4BE && u % 2
            == 0) || (0x4C1 <= u && u <= 0x4CD && u % 2 == 1) || (0x4D0 <= u && u <= 0x52E && u
            % 2 == 0) {
            char_from_scalar(u + 1)
        } else {
            c
        };
        assert(d == fold_char(c));
        r.push(d);
        i = i + 1;
    }
    assert(r@ =~= step_fold(v@));
    r
}

// ---------------------------------------------------------------------------
// The normalizer
// ---------------------------------------------------------------------------

/// Canonicalizes a raw name into its match key.
///
/// Total over all inputs: every string is accepted and a result is always
/// produced, exactly the composition of the normalization steps.
pub fn normalize(s: &str) -> (r: String)
    ensures
        r@ == norm_spec(s@),
{
    let v0 = chars_of(s);
    let v1 = drop_invisible(&v0);
    let mut pat: Vec<char> = Vec::new();
    pat.push('p');
    pat.push('e');
    pat.push('o');
    pat.push('p');
    pat.push('l');
    pat.push('e');
    pat.push(' ');
    pat.push('\'');
    pat.push('s');
    assert(pat@ =~= peoples_pat());
    let mut rep: Vec<char> = Vec::new();
    rep.push('p');
    rep.push('e');
    rep.push('o');
    rep.push('p');
    rep.push('l');
    rep.push('e');
    rep.push('\u{2019}');
    rep.push('s');
    assert(rep@ =~= peoples_rep());
    let v2 = replace_all_x(&v1, &pat, &rep);
    let v3 = drop_punct(&v2);
    let v4 = handle_brackets(&v3);
    let v5 = drop_double_quotes(&v4);
    let v6 = map_quote_marks(&v5);
    let v7 = map_space_variants(&v6);
    let v8 = map_apostrophes(&v7);
    let v9 = map_bullets(&v8);
    let v10 = normalize_hyphens(&v9);
    let v11 = collapse_spaces(&v10);
    let v12 = trim_spaces(&v11);
    let v13 = fold_case(&v12);
    string_from_chars(&v13)
}

// ---------------------------------------------------------------------------
// Canonical form
// ---------------------------------------------------------------------------

/// A character that no normalization step rewrites or removes.
pub open spec fn ok_char(c: char) -> bool {
    !is_invisible(c) && !is_dropped_punct(c) && !is_open_bracket(c) && !is_close_bracket(c)
        && !is_double_quote(c) && !is_quote_mark(c) && !is_space_variant(c) && c != '\''
        && c != '\u{FF07}' && !is_bullet(c) && !is_dash(c) && !is_foldable_upper(c)
}

/// Every character of `s` satisfies `p`.
pub open spec fn all_chars(s: Seq<char>, p: spec_fn(char) -> bool) -> bool {
    forall|i: int| 0 <= i < s.len() ==> p(#[trigger] s[i])
}

/// `s` never holds `a` directly followed by `b`.
pub open spec fn no_pair(s: Seq<char>, a: char, b: char) -> bool {
    forall|i: int| 0 <= i && i + 1 < s.len() ==> !(#[trigger] s[i] == a && s[i + 1] == b)
}

/// No space at either end of `s`.
pub open spec fn trimmed(s: Seq<char>) -> bool {
    s.len() > 0 ==> (s[0] != ' ' && s[s.len() - 1] != ' ')
}

/// The canonical form of a match key: nothing left for any step to rewrite.
pub open spec fn canon(s: Seq<char>) -> bool {
    all_chars(s, |c: char| ok_char(c)) && no_pair(s, ' ', ' ') && no_pair(s, ' ', '-')
        && no_pair(s, '-', ' ') && trimmed(s)
}

// ---------------------------------------------------------------------------
// Combinator lemmas
// ---------------------------------------------------------------------------

proof fn filt_id(s: Seq<char>, pred: spec_fn(char) -> bool)
    requires
        all_chars(s, pred),
    ensures
        filt(s, pred) == s,
    decreases s.len(),
{
    if s.len() == 0 {
        assert(filt(s, pred) =~= s);
    } else {
        assert(all_chars(s.drop_first(), pred)) by {
            assert(forall|i: int| 0 <= i < s.drop_first().len() ==> s.drop_first()[i] == s[i + 1]);
        }
        filt_id(s.drop_first(), pred);
        assert(filt(s, pred) =~= s);
    }
}

proof fn filt_sat(s: Seq<char>, pred: spec_fn(char) -> bool)
    ensures
        all_chars(filt(s, pred), pred),
    decreases s.len(),
{
    if s.len() > 0 {
        filt_sat(s.drop_first(), pred);
    }
}

proof fn filt_keeps(s: Seq<char>, pred: spec_fn(char) -> bool, p: spec_fn(char) -> bool)
    requires
        all_chars(s, p),
    ensures
        all_chars(filt(s, pred), p),
    decreases s.len(),
{
    if s.len() > 0 {
        assert(forall|i: int| 0 <= i < s.drop_first().len() ==> s.drop_first()[i] == s[i + 1]);
        filt_keeps(s.drop_first(), pred, p);
    }
}

proof fn replace_keeps(
    s: Seq<char>,
    pat: Seq<char>,
    rep: Seq<char>,
    p: spec_fn(char) -> bool,
)
    requires
        all_chars(s, p),
        all_chars(rep, p),
    ensures
        all_chars(replace_all(s, pat, rep), p),
    decreases s.len(),
{
    if pat.len() == 0 || s.len() == 0 {
    } else if starts_with(s, pat) {
        assert(all_chars(s.skip(pat.len() as int), p)) by {
            assert(forall|i: int|
                0 <= i < s.skip(pat.len() as int).len() ==> s.skip(pat.len() as int)[i] == s[i
                    + pat.len()]);
        }
        replace_keeps(s.skip(pat.len() as int), pat, rep, p);
        let tail = replace_all(s.skip(pat.len() as int), pat, rep);
        assert(forall|i: int|
            0 <= i < (rep + tail).len() ==> p(#[trigger] (rep + tail)[i])) by {
            assert(forall|i: int| 0 <= i < rep.len() ==> (rep + tail)[i] == rep[i]);
            assert(forall|i: int|
                rep.len() <= i < (rep + tail).len() ==> (rep + tail)[i] == tail[i - rep.len()]);
        }
    } else {
        assert(forall|i: int| 0 <= i < s.drop_first().len() ==> s.drop_first()[i] == s[i + 1]);
        replace_keeps(s.drop_first(), pat, rep, p);
        let tail = replace_all(s.drop_first(), pat, rep);
        assert(forall|i: int|
            0 <= i < (seq![s[0]] + tail).len() ==> p(#[trigger] (seq![s[0]] + tail)[i]));
    }
}

proof fn replace_id(s: Seq<char>, pat: Seq<char>, rep: Seq<char>)
    requires
        pat.len() > 0,
        !contains_sub(s, pat),
    ensures
        replace_all(s, pat, rep) == s,
    decreases s.len(),
{
    if s.len() == 0 {
    } else if starts_with(s, pat) {
        assert(crate::strutil::is_sub_at(s, pat, 0));
        assert(false);
    } else {
        assert(!contains_sub(s.drop_first(), pat)) by {
            if contains_sub(s.drop_first(), pat) {
                let i = choose|i: int| crate::strutil::is_sub_at(s.drop_first(), pat, i);
                assert(s.drop_first().subrange(i, i + pat.len()) =~= s.subrange(
                    i + 1,
                    i + 1 + pat.len(),
                ));
                assert(crate::strutil::is_sub_at(s, pat, i + 1));
            }
        }
        replace_id(s.drop_first(), pat, rep);
        assert(seq![s[0]] + s.drop_first() =~= s);
    }
}

/// A string without an adjacent `a` then `b` holds no occurrence of that
/// two-character pattern.
proof fn no_pair_no_sub(s: Seq<char>, a: char, b: char)
    requires
        no_pair(s, a, b),
    ensures
        !contains_sub(s, seq![a, b]),
{
    if contains_sub(s, seq![a, b]) {
        let i = choose|i: int| crate::strutil::is_sub_at(s, seq![a, b], i);
        assert(s.subrange(i, i + 2)[0] == s[i]);
        assert(s.subrange(i, i + 2)[1] == s[i + 1]);
        assert(s[i] == a && s[i + 1] == b);
    }
}

proof fn collapse_first(s: Seq<char>)
    ensures
        collapse_rec(s).len() > 0 <==> s.len() > 0,
        s.len() > 0 && s[0] != ' ' ==> collapse_rec(s)[0] == s[0],
        s.len() > 0 && s[0] == ' ' ==> collapse_rec(s)[0] == ' ',
    decreases s.len(),
{
    if s.len() > 0 {
        collapse_first(s.drop_first());
    }
}

proof fn collapse_id(s: Seq<char>)
    requires
        no_pair(s, ' ', ' '),
    ensures
        collapse_rec(s) == s,
    decreases s.len(),
{
    if s.len() == 0 {
        assert(collapse_rec(s) =~= s);
    } else {
        assert(forall|i: int| 0 <= i < s.drop_first().len() ==> s.drop_first()[i] == s[i + 1]);
        if s.len() >= 2 && s[0] == ' ' && s[1] == ' ' {
            assert(false);
        }
        collapse_id(s.drop_first());
        assert(collapse_rec(s) =~= s);
    }
}

proof fn collapse_single(s: Seq<char>)
    ensures
        no_pair(collapse_rec(s), ' ', ' '),
    decreases s.len(),
{
    if s.len() > 0 {
        let t = s.drop_first();
        collapse_single(t);
        if s.len() >= 2 && s[0] == ' ' && s[1] == ' ' {
        } else {
            let rest = collapse_rec(t);
            let out = seq![s[0]] + rest;
            collapse_first(t);
            assert(forall|i: int| 0 <= i < rest.len() ==> out[i + 1] == rest[i]);
            if s[0] == ' ' && t.len() > 0 {
                assert(t[0] != ' ');
                assert(rest[0] == t[0]);
            }
        }
    }
}

proof fn collapse_keeps(s: Seq<char>, p: spec_fn(char) -> bool)
    requires
        all_chars(s, p),
    ensures
        all_chars(collapse_rec(s), p),
    decreases s.len(),
{
    if s.len() > 0 {
        let t = s.drop_first();
        assert(forall|i: int| 0 <= i < t.len() ==> t[i] == s[i + 1]);
        collapse_keeps(t, p);
        if !(s.len() >= 2 && s[0] == ' ' && s[1] == ' ') {
            let rest = collapse_rec(t);
            assert(forall|i: int|
                0 <= i < (seq![s[0]] + rest).len() ==> p(#[trigger] (seq![s[0]] + rest)[i]));
        }
    }
}

proof fn trim_front_props(s: Seq<char>, p: spec_fn(char) -> bool, a: char, b: char)
    requires
        all_chars(s, p),
        no_pair(s, a, b),
    ensures
        all_chars(trim_front(s), p),
        no_pair(trim_front(s), a, b),
        trim_front(s).len() > 0 ==> trim_front(s)[0] != ' ',
    decreases s.len(),
{
    if s.len() > 0 && s[0] == ' ' {
        assert(forall|i: int| 0 <= i < s.drop_first().len() ==> s.drop_first()[i] == s[i + 1]);
        trim_front_props(s.drop_first(), p, a, b);
    }
}

proof fn trim_back_props(s: Seq<char>, p: spec_fn(char) -> bool, a: char, b: char)
    requires
        all_chars(s, p),
        no_pair(s, a, b),
    ensures
        all_chars(trim_back(s), p),
        no_pair(trim_back(s), a, b),
        trim_back(s).len() > 0 ==> trim_back(s)[trim_back(s).len() - 1] != ' ',
        trim_back(s).len() > 0 ==> trim_back(s)[0] == s[0],
    decreases s.len(),
{
    if s.len() > 0 && s[s.len() - 1] == ' ' {
        assert(forall|i: int| 0 <= i < s.drop_last().len() ==> s.drop_last()[i] == s[i]);
        trim_back_props(s.drop_last(), p, a, b);
    }
}

proof fn trim_id(s: Seq<char>)
    requires
        trimmed(s),
    ensures
        step_trim(s) == s,
{
}

// ---------------------------------------------------------------------------
// The normalizer's laws
// ---------------------------------------------------------------------------

/// Character soundness after the bracket steps.
spec fn ok5(c: char) -> bool {
    !is_invisible(c) && !is_dropped_punct(c) && !is_open_bracket(c) && !is_close_bracket(c)
        && !is_double_quote(c)
}

/// Character soundness after the quote and space steps.
spec fn ok7(c: char) -> bool {
    ok5(c) && !is_quote_mark(c) && !is_space_variant(c)
}

/// Character soundness after the apostrophe and bullet steps.
spec fn ok9(c: char) -> bool {
    ok7(c) && c != '\'' && c != '\u{FF07}' && !is_bullet(c)
}

/// Character soundness before the case fold.
spec fn pre_ok(c: char) -> bool {
    ok9(c) && !is_dash(c)
}

/// Every normalized string is settled: no character any step rewrites or
/// removes, no two adjacent spaces, and nothing left to trim.  (A space can
/// still sit against a hyphen: the hyphen step strips one space per side,
/// so a longer run leaves a remainder.)
pub proof fn lemma_norm_canon(s: Seq<char>)
    ensures
        all_chars(norm_spec(s), |c: char| ok_char(c)),
        no_pair(norm_spec(s), ' ', ' '),
        trimmed(norm_spec(s)),
{
    let a1 = step_invisible(s);
    let a2 = step_peoples(a1);
    let a3 = step_punct(a2);
    let a4 = step_brackets(a3);
    let a5 = step_double_quotes(a4);
    let a6 = step_quote_marks(a5);
    let a7 = step_spaces(a6);
    let a8 = step_apostrophes(a7);
    let a9 = step_bullets(a8);
    let a10 = step_hyphens(a9);
    let a11 = step_collapse(a10);
    let a12 = step_trim(a11);
    let a13 = step_fold(a12);

    let keep_inv = |c: char| !is_invisible(c);
    filt_sat(s, keep_inv);
    assert(all_chars(peoples_rep(), keep_inv));
    replace_keeps(a1, peoples_pat(), peoples_rep(), keep_inv);

    // punctuation
    let ok_punct = |c: char| !is_invisible(c) && !is_dropped_punct(c);
    filt_sat(a2, |c: char| !is_dropped_punct(c));
    filt_keeps(a2, |c: char| !is_dropped_punct(c), keep_inv);
    assert(all_chars(a3, ok_punct));

    // brackets
    let m4 = cmap(a3, |c: char| open_bracket_map(c));
    assert(all_chars(m4, |c: char| ok_punct(c) && !is_open_bracket(c)));
    filt_sat(m4, |c: char| !is_close_bracket(c));
    filt_keeps(m4, |c: char| !is_close_bracket(c), |c: char| ok_punct(c) && !is_open_bracket(c));
    assert(all_chars(a4, |c: char| ok_punct(c) && !is_open_bracket(c) && !is_close_bracket(c)));

    // double quotes and twin apostrophes
    let ok_quotes = |c: char| ok5(c);
    let f5 = filt(a4, |c: char| !is_double_quote(c));
    filt_sat(a4, |c: char| !is_double_quote(c));
    filt_keeps(a4, |c: char| !is_double_quote(c),
        |c: char| ok_punct(c) && !is_open_bracket(c) && !is_close_bracket(c));
    assert(all_chars(f5, ok_quotes));
    assert(all_chars(Seq::<char>::empty(), ok_quotes));
    replace_keeps(f5, twin_apos(), Seq::empty(), ok_quotes);
    assert(all_chars(a5, ok_quotes));

    // quote marks
    let ok_marks = |c: char| ok7(c);
    assert(all_chars(a6, |c: char| ok5(c) && !is_quote_mark(c)));
    // space variants
    assert(all_chars(a7, ok_marks));

    // apostrophes
    let m8 = cmap(a7, |c: char| fullwidth_apos_map(c));
    assert(all_chars(m8, |c: char| ok7(c) && c != '\u{FF07}'));
    assert(a8 == apost_marks(m8));
    assert(all_chars(a8, |c: char| ok7(c) && c != '\u{FF07}' && c != '\'')) by {
        assert(forall|i: int|
            0 <= i < a8.len() ==> (#[trigger] a8[i] == m8[i] || a8[i] == '\u{2018}' || a8[i]
                == '\u{2019}'));
    }

    // bullets
    let ok_apos = |c: char| ok9(c);
    assert(all_chars(a9, ok_apos));

    // hyphens
    let ok_pre = |c: char| pre_ok(c);
    let m10 = cmap(a9, |c: char| dash_map(c));
    assert(all_chars(m10, ok_pre));
    assert(all_chars(hyphen(), ok_pre));
    let r10 = replace_all(m10, space_hyphen(), hyphen());
    replace_keeps(m10, space_hyphen(), hyphen(), ok_pre);
    replace_keeps(r10, hyphen_space(), hyphen(), ok_pre);
    assert(all_chars(a10, ok_pre));

    // collapse
    collapse_keeps(a10, ok_pre);
    collapse_single(a10);
    assert(all_chars(a11, ok_pre));

    // trim
    let tf = trim_front(a11);
    trim_front_props(a11, ok_pre, ' ', ' ');
    trim_back_props(tf, ok_pre, ' ', ' ');
    assert(all_chars(a12, ok_pre));
    assert(trimmed(a12));

    // case fold
    assert(forall|c: char| pre_ok(c) ==> ok_char(#[trigger] fold_char(c)));
    assert(forall|c: char| #[trigger] fold_char(c) == ' ' <==> c == ' ');
    assert(forall|c: char| #[trigger] fold_char(c) == '-' <==> c == '-');
    assert(all_chars(a13, |c: char| ok_char(c))) by {
        assert(forall|i: int| 0 <= i < a13.len() ==> #[trigger] a13[i] == fold_char(a12[i]));
    }
    assert(no_pair(a13, ' ', ' ')) by {
        assert(forall|i: int| 0 <= i < a13.len() ==> #[trigger] a13[i] == fold_char(a12[i]));
    }
    assert(trimmed(a13)) by {
        assert(forall|i: int| 0 <= i < a13.len() ==> #[trigger] a13[i] == fold_char(a12[i]));
    }
    assert(a13 == norm_spec(s));
}

/// On a string already in canonical form every step is the identity.
pub proof fn lemma_norm_canon_id(z: Seq<char>)
    requires
        canon(z),
    ensures
        norm_spec(z) == z,
{
    assert(all_chars(z, |c: char| !is_invisible(c)));
    filt_id(z, |c: char| !is_invisible(c));
    assert(step_invisible(z) == z);

    assert(!contains_sub(z, peoples_pat())) by {
        if contains_sub(z, peoples_pat()) {
            let i = choose|i: int| crate::strutil::is_sub_at(z, peoples_pat(), i);
            assert(z.subrange(i, i + 9)[7] == z[i + 7]);
            assert(z[i + 7] == '\'');
            assert(ok_char(z[i + 7]));
        }
    }
    replace_id(z, peoples_pat(), peoples_rep());
    assert(step_peoples(z) == z);

    assert(all_chars(z, |c: char| !is_dropped_punct(c)));
    filt_id(z, |c: char| !is_dropped_punct(c));
    assert(step_punct(z) == z);

    assert(cmap(z, |c: char| open_bracket_map(c)) =~= z);
    assert(all_chars(z, |c: char| !is_close_bracket(c)));
    filt_id(z, |c: char| !is_close_bracket(c));
    assert(step_brackets(z) == z);

    assert(all_chars(z, |c: char| !is_double_quote(c)));
    filt_id(z, |c: char| !is_double_quote(c));
    assert(!contains_sub(z, twin_apos())) by {
        if contains_sub(z, twin_apos()) {
            let i = choose|i: int| crate::strutil::is_sub_at(z, twin_apos(), i);
            assert(z.subrange(i, i + 2)[0] == z[i]);
            assert(z[i] == '\'');
            assert(ok_char(z[i]));
        }
    }
    replace_id(z, twin_apos(), Seq::empty());
    assert(step_double_quotes(z) == z);

    assert(step_quote_marks(z) =~= z);
    assert(step_spaces(z) =~= z);

    assert(cmap(z, |c: char| fullwidth_apos_map(c)) =~= z);
    assert(apost_marks(z) =~= z);
    assert(step_apostrophes(z) == z);

    assert(step_bullets(z) =~= z);

    assert(cmap(z, |c: char| dash_map(c)) =~= z);
    no_pair_no_sub(z, ' ', '-');
    replace_id(z, space_hyphen(), hyphen());
    no_pair_no_sub(z, '-', ' ');
    replace_id(z, hyphen_space(), hyphen());
    assert(step_hyphens(z) == z);

    collapse_id(z);
    assert(step_collapse(z) == z);

    trim_id(z);
    assert(step_trim(z) == z);

    assert(step_fold(z) =~= z);
}

/// The apostrophe-placement rule, as a law over the apostrophe step: an
/// ASCII or full-width apostrophe at the start of the string or right after
/// a space becomes a left single quote, every other one a right single
/// quote, and every other character stands unchanged.
pub proof fn lemma_apostrophe_placement(s: Seq<char>, i: int)
    requires
        0 <= i < s.len(),
    ensures
        (s[i] == '\'' || s[i] == '\u{FF07}') && (i == 0 || s[i - 1] == ' ')
            ==> step_apostrophes(s)[i] == '\u{2018}',
        (s[i] == '\'' || s[i] == '\u{FF07}') && i > 0 && s[i - 1] != ' '
            ==> step_apostrophes(s)[i] == '\u{2019}',
        s[i] != '\'' && s[i] != '\u{FF07}' ==> step_apostrophes(s)[i] == s[i],
{
    let m = cmap(s, |c: char| fullwidth_apos_map(c));
    assert(m[i] == fullwidth_apos_map(s[i]));
    if i > 0 {
        assert(m[i - 1] == fullwidth_apos_map(s[i - 1]));
    }
}

/// Normalization is idempotent: a match key normalizes to itself, so running
/// the normalizer twice returns exactly what one run returns.  This holds
/// for every input whose match key has no space left sitting against a
/// hyphen: the hyphen step strips one space per side of a hyphen, so a name
/// with a longer space run against a hyphen loses one more space on each
/// further run and is excluded here.
pub proof fn lemma_normalize_idempotent(s: Seq<char>)
    requires
        no_pair(norm_spec(s), ' ', '-'),
        no_pair(norm_spec(s), '-', ' '),
    ensures
        norm_spec(norm_spec(s)) == norm_spec(s),
{
    lemma_norm_canon(s);
    lemma_norm_canon_id(norm_spec(s));
}

/// A normalized string never holds two adjacent spaces.
pub proof fn lemma_normalize_no_double_space(s: Seq<char>)
    ensures
        no_pair(norm_spec(s), ' ', ' '),
{
    lemma_norm_canon(s);
}

} // verus!
