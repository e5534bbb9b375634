//! Character references: `&name;`, `&#nnn;` and `&#xhhh;`.
use vstd::prelude::*;
use crate::entities::{entity, entity_at, ENTITY_COUNT};

verus! {

/// How many characters entry `i` of the table matches in `s` from `p`,
/// counting a trailing `;`; `None` if it does not match there.
pub open spec fn entity_match(s: Seq<char>, p: int, i: usize) -> Option<int> {
    let n = entity(i).name;
    if 0 <= p && p + n.len() <= s.len() && s.subrange(p, p + n.len()) == n {
        if p + n.len() < s.len() && s[p + n.len()] == ';' {
            Some(n.len() + 1 as int)
        } else if entity(i).legacy {
            Some(n.len() as int)
        } else {
            None
        }
    } else {
        None
    }
}

/// Entry `i` gives the longest match at `p`, and comes first among those
/// that match as long.
pub open spec fn is_best_entity(s: Seq<char>, p: int, i: usize) -> bool {
    &&& i < ENTITY_COUNT
    &&& entity_match(s, p, i) is Some
    &&& forall|j: usize|
        j < ENTITY_COUNT && (#[trigger] entity_match(s, p, j)) is Some ==> {
            &&& entity_match(s, p, j)->0 <= entity_match(s, p, i)->0
            &&& entity_match(s, p, j)->0 == entity_match(s, p, i)->0 ==> i <= j
        }
}

/// The entry that a named reference at `p` resolves to, if any.
pub open spec fn best_entity(s: Seq<char>, p: int) -> Option<usize> {
    if exists|i: usize| is_best_entity(s, p, i) {
        Some(choose|i: usize| is_best_entity(s, p, i))
    } else {
        None
    }
}

pub open spec fn is_ascii_alphanumeric(c: char) -> bool {
    ('0' <= c && c <= '9') || ('a' <= c && c <= 'z') || ('A' <= c && c <= 'Z')
}

/// Whether `c` is a digit in base 16 (`hex`) or 10.
pub open spec fn is_digit(c: char, hex: bool) -> bool {
    ('0' <= c && c <= '9') || (hex && (('a' <= c && c <= 'f') || ('A' <= c && c <= 'F')))
}

pub open spec fn digit_value(c: char) -> nat {
    if '0' <= c && c <= '9' {
        (c as nat - '0' as nat) as nat
    } else if 'a' <= c && c <= 'f' {
        (c as nat - 'a' as nat + 10) as nat
    } else {
        (c as nat - 'A' as nat + 10) as nat
    }
}

pub open spec fn base(hex: bool) -> nat {
    if hex {
        16
    } else {
        10
    }
}

/// The end of the run of digits that starts at `i`.
pub open spec fn digit_end(s: Seq<char>, i: int, hex: bool) -> int
    decreases s.len() - i,
{
    if 0 <= i < s.len() && is_digit(s[i], hex) {
        digit_end(s, i + 1, hex)
    } else {
        i
    }
}

/// The number that the digits `s[start..end]` spell.
pub open spec fn digits_value(s: Seq<char>, start: int, end: int, hex: bool) -> nat
    decreases end - start,
{
    if end <= start {
        0
    } else {
        digits_value(s, start, end - 1, hex) * base(hex) + digit_value(s[end - 1])
    }
}

/// What a C1 control code in a numeric reference stands for (the
/// Windows-1252 reading of that byte).
pub open spec fn c1_char(v: u32) -> char {
    match v {
        0x80 => '\u{20AC}',
        0x81 => '\u{81}',
        0x82 => '\u{201A}',
        0x83 => '\u{192}',
        0x84 => '\u{201E}',
        0x85 => '\u{2026}',
        0x86 => '\u{2020}',
        0x87 => '\u{2021}',
        0x88 => '\u{2C6}',
        0x89 => '\u{2030}',
        0x8A => '\u{160}',
        0x8B => '\u{2039}',
        0x8C => '\u{152}',
        0x8D => '\u{8D}',
        0x8E => '\u{17D}',
        0x8F => '\u{8F}',
        0x90 => '\u{90}',
        0x91 => '\u{2018}',
        0x92 => '\u{2019}',
        0x93 => '\u{201C}',
        0x94 => '\u{201D}',
        0x95 => '\u{2022}',
        0x96 => '\u{2013}',
        0x97 => '\u{2014}',
        0x98 => '\u{2DC}',
        0x99 => '\u{2122}',
        0x9A => '\u{161}',
        0x9B => '\u{203A}',
        0x9C => '\u{153}',
        0x9D => '\u{9D}',
        0x9E => '\u{17E}',
        0x9F => '\u{178}',
        _ => '\u{FFFD}',
    }
}

/// Whether `v` is a Unicode scalar value.
pub open spec fn is_scalar(v: nat) -> bool {
    v <= 0xD7FF || (0xE000 <= v && v <= 0x10FFFF)
}

/// The character that a numeric reference with value `v` produces: zero,
/// surrogates and values past the Unicode range become U+FFFD, and the C1
/// range is read as Windows-1252.
pub open spec fn numeric_char(v: nat) -> char {
    if v == 0 || !is_scalar(v) {
        '\u{FFFD}'
    } else if 0x80 <= v && v <= 0x9F {
        c1_char(v as u32)
    } else {
        v as char
    }
}

/// The characters a named reference entry stands for.
pub open spec fn entity_chars(i: usize) -> Seq<char> {
    match entity(i).second {
        Some(c) => seq![entity(i).first, c],
        None => seq![entity(i).first],
    }
}

/// A numeric reference `#...` at `p`: the characters it produces and the
/// position after it; without digits, a literal `&` and `p`.
pub open spec fn numeric_ref(s: Seq<char>, p: int) -> (Seq<char>, int) {
    let hex = p + 1 < s.len() && (s[p + 1] == 'x' || s[p + 1] == 'X');
    let start = if hex {
        p + 2
    } else {
        p + 1
    };
    let end = digit_end(s, start, hex);
    if end == start {
        (seq!['&'], p)
    } else {
        let after = if end < s.len() && s[end] == ';' {
            end + 1
        } else {
            end
        };
        (seq![numeric_char(digits_value(s, start, end, hex))], after)
    }
}

/// Whether a named match took no `;`.
pub open spec fn lacks_semicolon(s: Seq<char>, p: int, i: usize) -> bool {
    entity_match(s, p, i)->0 == entity(i).name.len()
}

/// In an attribute value, a named match that took no `;` and is followed
/// by `=` or an alphanumeric stands for itself.
pub open spec fn kept_literally(s: Seq<char>, p: int, i: usize, in_attribute: bool) -> bool {
    let end = p + entity_match(s, p, i)->0;
    in_attribute && lacks_semicolon(s, p, i) && end < s.len() && (s[end] == '='
        || is_ascii_alphanumeric(s[end]))
}

/// A character reference whose `&` stands just before `p`: the characters
/// it produces and the position after what it consumed. Where nothing
/// matches, the `&` stands for itself and nothing more is consumed. In an
/// attribute value a named match that took no `;` and is followed by `=`
/// or an alphanumeric is kept literally.
pub open spec fn char_ref(s: Seq<char>, p: int, in_attribute: bool) -> (Seq<char>, int) {
    if p < s.len() && s[p] == '#' {
        numeric_ref(s, p)
    } else {
        match best_entity(s, p) {
            Some(i) => {
                if kept_literally(s, p, i, in_attribute) {
                    (seq!['&'], p)
                } else {
                    (entity_chars(i), p + entity_match(s, p, i)->0)
                }
            },
            None => (seq!['&'], p),
        }
    }
}

/// At most one entry is best at a position.
pub proof fn lemma_best_entity_unique(s: Seq<char>, p: int, i: usize, j: usize)
    requires
        is_best_entity(s, p, i),
        is_best_entity(s, p, j),
    ensures
        i == j,
{
    assert(entity_match(s, p, j) is Some);
    assert(entity_match(s, p, i) is Some);
}

/// A character reference never moves backwards and stays in the input.
pub proof fn lemma_char_ref_bounds(s: Seq<char>, p: int, in_attribute: bool)
    requires
        0 <= p <= s.len(),
    ensures
        p <= char_ref(s, p, in_attribute).1 <= s.len(),
        1 <= char_ref(s, p, in_attribute).0.len() <= 2,
{
    if p < s.len() && s[p] == '#' {
        let hex = p + 1 < s.len() && (s[p + 1] == 'x' || s[p + 1] == 'X');
        let start = if hex {
            p + 2
        } else {
            p + 1
        };
        lemma_digit_end_bounds(s, start, hex);
    } else {
        match best_entity(s, p) {
            Some(i) => {
                let ghost w = choose|i: usize| is_best_entity(s, p, i);
                assert(is_best_entity(s, p, w));
            },
            None => {},
        }
    }
}

pub proof fn lemma_digit_end_bounds(s: Seq<char>, i: int, hex: bool)
    requires
        0 <= i <= s.len(),
    ensures
        i <= digit_end(s, i, hex) <= s.len(),
    decreases s.len() - i,
{
    if i < s.len() && is_digit(s[i], hex) {
        lemma_digit_end_bounds(s, i + 1, hex);
    }
}

/// Relies on `char::from_u32`: the character with scalar value `v`, or
/// `None` for surrogates and values past U+10FFFF.
#[verifier::external_body]
fn char_from_u32(v: u32) -> (r: Option<char>)
    ensures
        is_scalar(v as nat) ==> r == Some(v as char),
        !is_scalar(v as nat) ==> r is None,
{
    char::from_u32(v)
}

fn c1_char_exec(v: u32) -> (r: char)
    ensures
        r == c1_char(v),
{
    match v {
        0x80 => '\u{20AC}',
        0x81 => '\u{81}',
        0x82 => '\u{201A}',
        0x83 => '\u{192}',
        0x84 => '\u{201E}',
        0x85 => '\u{2026}',
        0x86 => '\u{2020}',
        0x87 => '\u{2021}',
        0x88 => '\u{2C6}',
        0x89 => '\u{2030}',
        0x8A => '\u{160}',
        0x8B => '\u{2039}',
        0x8C => '\u{152}',
        0x8D => '\u{8D}',
        0x8E => '\u{17D}',
        0x8F => '\u{8F}',
        0x90 => '\u{90}',
        0x91 => '\u{2018}',
        0x92 => '\u{2019}',
        0x93 => '\u{201C}',
        0x94 => '\u{201D}',
        0x95 => '\u{2022}',
        0x96 => '\u{2013}',
        0x97 => '\u{2014}',
        0x98 => '\u{2DC}',
        0x99 => '\u{2122}',
        0x9A => '\u{161}',
        0x9B => '\u{203A}',
        0x9C => '\u{153}',
        0x9D => '\u{9D}',
        0x9E => '\u{17E}',
        0x9F => '\u{178}',
        _ => '\u{FFFD}',
    }
}

/// The largest value a numeric reference is tracked to; anything at or
/// past it is out of the Unicode range.
pub const CODE_POINT_CAP: u32 = 0x110000;

/// The character for a numeric reference value, given as the value capped
/// at one past U+10FFFF.
pub fn numeric_char_exec(v: u32) -> (r: char)
    requires
        v <= CODE_POINT_CAP,
    ensures
        r == numeric_char(v as nat),
{
    if v == 0 || v > 0x10FFFF || (0xD800 <= v && v <= 0xDFFF) {
        '\u{FFFD}'
    } else if 0x80 <= v && v <= 0x9F {
        c1_char_exec(v)
    } else {
        match char_from_u32(v) {
            Some(c) => c,
            None => '\u{FFFD}',
        }
    }
}

fn is_digit_exec(c: char, hex: bool) -> (r: bool)
    ensures
        r == is_digit(c, hex),
{
    ('0' <= c && c <= '9') || (hex && (('a' <= c && c <= 'f') || ('A' <= c && c <= 'F')))
}

fn digit_value_exec(c: char) -> (r: u32)
    requires
        is_digit(c, true),
    ensures
        r == digit_value(c),
        r < 16,
{
    if '0' <= c && c <= '9' {
        (c as u32) - ('0' as u32)
    } else if 'a' <= c && c <= 'f' {
        (c as u32) - ('a' as u32) + 10
    } else {
        (c as u32) - ('A' as u32) + 10
    }
}

/// `v`, or the cap where `v` is past it.
pub open spec fn capped(v: nat) -> nat {
    if v < CODE_POINT_CAP {
        v
    } else {
        CODE_POINT_CAP as nat
    }
}

/// The end of the run of digits from `start`, and their value capped.
fn scan_digits(s: &Vec<char>, start: usize, hex: bool) -> (r: (usize, u32))
    requires
        start <= s.len(),
    ensures
        r.0 == digit_end(s@, start as int, hex),
        r.1 as nat == capped(digits_value(s@, start as int, r.0 as int, hex)),
{
    let mut end = start;
    let mut acc: u32 = 0;
    let ghost b = base(hex);
    while end < s.len() && is_digit_exec(s[end], hex)
        invariant
            start <= end <= s.len(),
            digit_end(s@, start as int, hex) == digit_end(s@, end as int, hex),
            b == base(hex),
            acc as nat == capped(digits_value(s@, start as int, end as int, hex)),
        decreases s.len() - end,
    {
        let d = digit_value_exec(s[end]);
        let ghost old_v = digits_value(s@, start as int, end as int, hex);
        let ghost new_v = digits_value(s@, start as int, end as int + 1, hex);
        assert(new_v == old_v * base(hex) + digit_value(s@[end as int]));
        if acc < CODE_POINT_CAP {
            let next = if hex {
                acc * 16 + d
            } else {
                acc * 10 + d
            };
            acc = if next < CODE_POINT_CAP {
                next
            } else {
                CODE_POINT_CAP
            };
        } else {
            assert(new_v >= CODE_POINT_CAP) by (nonlinear_arith)
                requires
                    new_v == old_v * b + digit_value(s@[end as int]),
                    old_v >= CODE_POINT_CAP,
                    b >= 10,
            ;
        }
        end = end + 1;
    }
    (end, acc)
}

/// Resolves a numeric reference whose `#` stands at `p`.
fn resolve_numeric(s: &Vec<char>, p: usize) -> (r: (Vec<char>, usize))
    requires
        p < s.len(),
        s@[p as int] == '#',
    ensures
        r.0@ == numeric_ref(s@, p as int).0,
        r.1 == numeric_ref(s@, p as int).1,
{
    let hex = p + 1 < s.len() && (s[p + 1] == 'x' || s[p + 1] == 'X');
    let start = if hex {
        p + 2
    } else {
        p + 1
    };
    let (end, acc) = scan_digits(s, start, hex);
    if end == start {
        return (vec!['&'], p);
    }
    let after = if end < s.len() && s[end] == ';' {
        end + 1
    } else {
        end
    };
    let c = numeric_char_exec(acc);
    (vec![c], after)
}

/// How many characters entry `i` matches at `p`, as `entity_match` says.
fn match_entity(s: &Vec<char>, p: usize, i: usize) -> (r: Option<usize>)
    requires
        p <= s.len(),
        i < ENTITY_COUNT,
    ensures
        r matches Some(l) ==> entity_match(s@, p as int, i) == Some(l as int),
        r is None ==> entity_match(s@, p as int, i) is None,
{
    let (name, legacy, _, _) = entity_at(i);
    let n = name.unicode_len();
    if n > s.len() - p {
        return None;
    }
    let mut k: usize = 0;
    while k < n
        invariant
            n == name@.len(),
            name@ == entity(i).name,
            p + n <= s.len(),
            k <= n,
            forall|j: int| 0 <= j < k ==> s@[p + j] == name@[j],
        decreases n - k,
    {
        if s[p + k] != name.get_char(k) {
            assert(s@.subrange(p as int, p + n)[k as int] != entity(i).name[k as int]);
            return None;
        }
        k = k + 1;
    }
    assert(s@.subrange(p as int, p + n) =~= entity(i).name);
    if p + n < s.len() && s[p + n] == ';' {
        Some(n + 1)
    } else if legacy {
        Some(n)
    } else {
        None
    }
}

/// The entry that a named reference at `p` resolves to.
fn find_entity(s: &Vec<char>, p: usize) -> (r: Option<usize>)
    requires
        p <= s.len(),
    ensures
        r == best_entity(s@, p as int),
{
    let mut best: Option<(usize, usize)> = None;
    let mut i: usize = 0;
    while i < ENTITY_COUNT
        invariant
            p <= s.len(),
            i <= ENTITY_COUNT,
            best matches Some((b, l)) ==> {
                &&& b < i
                &&& entity_match(s@, p as int, b) == Some(l as int)
                &&& forall|j: usize|
                    j < i && (#[trigger] entity_match(s@, p as int, j)) is Some ==> {
                        &&& entity_match(s@, p as int, j)->0 <= l
                        &&& entity_match(s@, p as int, j)->0 == l ==> b <= j
                    }
            },
            best is None ==> forall|j: usize|
                j < i ==> (#[trigger] entity_match(s@, p as int, j)) is None,
        decreases ENTITY_COUNT - i,
    {
        let m = match_entity(s, p, i);
        match m {
            Some(l) => {
                match best {
                    Some((_, bl)) => {
                        if l > bl {
                            best = Some((i, l));
                        }
                    },
                    None => {
                        best = Some((i, l));
                    },
                }
            },
            None => {},
        }
        i = i + 1;
    }
    match best {
        Some((b, _)) => {
            assert(is_best_entity(s@, p as int, b));
            let ghost w = choose|k: usize| is_best_entity(s@, p as int, k);
            proof {
                lemma_best_entity_unique(s@, p as int, b, w);
            }
            Some(b)
        },
        None => {
            assert forall|k: usize| !is_best_entity(s@, p as int, k) by {
                if k < ENTITY_COUNT {
                    assert(entity_match(s@, p as int, k) is None);
                }
            }
            None
        },
    }
}

/// Resolves the character reference whose `&` stands just before `p`.
pub fn resolve_reference(s: &Vec<char>, p: usize, in_attribute: bool) -> (r: (Vec<char>, usize))
    requires
        p <= s.len(),
    ensures
        r.0@ == char_ref(s@, p as int, in_attribute).0,
        r.1 == char_ref(s@, p as int, in_attribute).1,
{
    if p < s.len() && s[p] == '#' {
        return resolve_numeric(s, p);
    }
    match find_entity(s, p) {
        Some(i) => {
            let l = match match_entity(s, p, i) {
                Some(l) => l,
                None => {
                    return (vec!['&'], p);
                },
            };
            let end = p + l;
            let (_, _, first, second) = entity_at(i);
            if kept_literally_exec(s, p, i, l, in_attribute) {
                return (vec!['&'], p);
            }
            match second {
                Some(c) => (vec![first, c], end),
                None => (vec![first], end),
            }
        },
        None => (vec!['&'], p),
    }
}

fn is_ascii_alphanumeric_exec(c: char) -> (r: bool)
    ensures
        r == is_ascii_alphanumeric(c),
{
    ('0' <= c && c <= '9') || ('a' <= c && c <= 'z') || ('A' <= c && c <= 'Z')
}

fn kept_literally_exec(s: &Vec<char>, p: usize, i: usize, l: usize, in_attribute: bool) -> (r: bool)
    requires
        p <= s.len(),
        i < ENTITY_COUNT,
        entity_match(s@, p as int, i) == Some(l as int),
    ensures
        r == kept_literally(s@, p as int, i, in_attribute),
{
    let (name, _, _, _) = entity_at(i);
    let end = p + l;
    in_attribute && l == name.unicode_len() && end < s.len() && (s[end] == '='
        || is_ascii_alphanumeric_exec(s[end]))
}

/// Whether `v` is a Unicode noncharacter.
pub open spec fn is_noncharacter(v: nat) -> bool {
    (0xFDD0 <= v && v <= 0xFDEF) || (v <= 0x10FFFF && v % 0x10000 >= 0xFFFE)
}

/// Whether a numeric reference to `v` is a parse error: zero, past the
/// Unicode range, a surrogate, a noncharacter, or a control other than
/// tab, line feed and form feed.
pub open spec fn bad_code_point(v: nat) -> bool {
    ||| v == 0
    ||| v > 0x10FFFF
    ||| (0xD800 <= v && v <= 0xDFFF)
    ||| is_noncharacter(v)
    ||| (v <= 0x1F && v != 0x09 && v != 0x0A && v != 0x0C)
    ||| (0x7F <= v && v <= 0x9F)
}

/// The end of the run of ASCII alphanumerics that starts at `i`.
pub open spec fn alphanumeric_end(s: Seq<char>, i: int) -> int
    decreases s.len() - i,
{
    if 0 <= i < s.len() && is_ascii_alphanumeric(s[i]) {
        alphanumeric_end(s, i + 1)
    } else {
        i
    }
}

/// Whether the character reference whose `&` stands just before `p` is
/// a parse error: a numeric reference without digits, without `;` or to
/// a bad code point; a named match without `;` that is not kept
/// literally; or a name that matches nothing yet ends in `;`.
pub open spec fn char_ref_error(s: Seq<char>, p: int, in_attribute: bool) -> bool {
    if p < s.len() && s[p] == '#' {
        let hex = p + 1 < s.len() && (s[p + 1] == 'x' || s[p + 1] == 'X');
        let start = if hex {
            p + 2
        } else {
            p + 1
        };
        let end = digit_end(s, start, hex);
        end == start || !(end < s.len() && s[end] == ';') || bad_code_point(
            digits_value(s, start, end, hex),
        )
    } else {
        match best_entity(s, p) {
            Some(i) => !kept_literally(s, p, i, in_attribute) && lacks_semicolon(s, p, i),
            None => {
                let e = alphanumeric_end(s, p);
                e > p && e < s.len() && s[e] == ';'
            },
        }
    }
}

fn bad_code_point_exec(v: u32) -> (r: bool)
    requires
        v <= CODE_POINT_CAP,
    ensures
        r == bad_code_point(v as nat),
{
    v == 0 || v > 0x10FFFF || (0xD800 <= v && v <= 0xDFFF) || (0xFDD0 <= v && v <= 0xFDEF) || (v
        <= 0x10FFFF && v % 0x10000 >= 0xFFFE) || (v <= 0x1F && v != 0x09 && v != 0x0A && v
        != 0x0C) || (0x7F <= v && v <= 0x9F)
}

/// Whether the character reference whose `&` stands just before `p` is a
/// parse error.
pub fn reference_error(s: &Vec<char>, p: usize, in_attribute: bool) -> (r: bool)
    requires
        p <= s.len(),
    ensures
        r == char_ref_error(s@, p as int, in_attribute),
{
    if p < s.len() && s[p] == '#' {
        let hex = p + 1 < s.len() && (s[p + 1] == 'x' || s[p + 1] == 'X');
        let start = if hex {
            p + 2
        } else {
            p + 1
        };
        let (end, acc) = scan_digits(s, start, hex);
        let ghost v = digits_value(s@, start as int, end as int, hex);
        assert(bad_code_point(capped(v)) == bad_code_point(v));
        return end == start || !(end < s.len() && s[end] == ';') || bad_code_point_exec(acc);
    }
    match find_entity(s, p) {
        Some(i) => {
            let (name, _, _, _) = entity_at(i);
            match match_entity(s, p, i) {
                Some(l) => !kept_literally_exec(s, p, i, l, in_attribute) && l == name.unicode_len(),
                None => false,
            }
        },
        None => {
            let mut e = p;
            while e < s.len() && is_ascii_alphanumeric_exec(s[e])
                invariant
                    p <= e <= s.len(),
                    alphanumeric_end(s@, p as int) == alphanumeric_end(s@, e as int),
                decreases s.len() - e,
            {
                e = e + 1;
            }
            e > p && e < s.len() && s[e] == ';'
        },
    }
}

} // verus!
