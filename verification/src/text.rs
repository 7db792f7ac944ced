//! Character-level helpers shared by the configuration and editor modules.
//!
//! Configuration values and editor strings are handled as sequences of `char`; the
//! helpers here give them exact specifications (trimming, ASCII case folding, prefix
//! tests and decimal digits) so that the modules built on them can state their
//! contracts over `Seq<char>`.
use vstd::prelude::*;

verus! {

broadcast use vstd::string::group_string_axioms;

// ---------------------------------------------------------------------------
// Specifications
// ---------------------------------------------------------------------------

/// Unicode `White_Space` code points, the set `char::is_whitespace` tests.
pub open spec fn is_white_space(c: char) -> bool {
    let u = c as u32;
    ||| 0x09 <= u <= 0x0D
    ||| u == 0x20
    ||| u == 0x85
    ||| u == 0xA0
    ||| u == 0x1680
    ||| 0x2000 <= u <= 0x200A
    ||| u == 0x2028
    ||| u == 0x2029
    ||| u == 0x202F
    ||| u == 0x205F
    ||| u == 0x3000
}

/// `s` without its leading white space.
pub open spec fn trim_start(s: Seq<char>) -> Seq<char>
    decreases s.len(),
{
    if s.len() > 0 && is_white_space(s[0]) {
        trim_start(s.drop_first())
    } else {
        s
    }
}

/// `s` without its trailing white space.
pub open spec fn trim_end(s: Seq<char>) -> Seq<char>
    decreases s.len(),
{
    if s.len() > 0 && is_white_space(s.last()) {
        trim_end(s.drop_last())
    } else {
        s
    }
}

/// `s` without leading and trailing white space (what `str::trim` returns).
pub open spec fn trim(s: Seq<char>) -> Seq<char> {
    trim_end(trim_start(s))
}

pub open spec fn is_ascii_upper(c: char) -> bool {
    0x41 <= (c as u32) <= 0x5A
}

/// ASCII case folding of one character; every other character is kept.
pub open spec fn ascii_lower(c: char) -> char {
    if is_ascii_upper(c) {
        ((c as u32) + 32) as char
    } else {
        c
    }
}

/// The separators that configuration values may use between words.
pub open spec fn is_config_separator(c: char) -> bool {
    c == '_' || c == '-' || c == ' '
}

/// `s` folded to ASCII lower case with every separator removed.
pub open spec fn lower_without_separators(s: Seq<char>) -> Seq<char>
    decreases s.len(),
{
    if s.len() == 0 {
        Seq::empty()
    } else {
        let rest = lower_without_separators(s.drop_last());
        if is_config_separator(s.last()) {
            rest
        } else {
            rest.push(ascii_lower(s.last()))
        }
    }
}

/// The normal form in which configuration values are compared: trimmed, folded to
/// ASCII lower case, and without `_`, `-` and spaces.
pub open spec fn normalized_config(s: Seq<char>) -> Seq<char> {
    lower_without_separators(trim(s))
}

/// `prefix` is a prefix of `s`.
pub open spec fn has_prefix(s: Seq<char>, prefix: Seq<char>) -> bool {
    prefix.len() <= s.len() && s.subrange(0, prefix.len() as int) == prefix
}

pub open spec fn is_ascii_digit(c: char) -> bool {
    0x30 <= (c as u32) <= 0x39
}

pub open spec fn digit_value(c: char) -> nat {
    ((c as u32) - 0x30) as nat
}

pub open spec fn digit_char(d: nat) -> char
    recommends
        d < 10,
{
    ((d + 0x30) as u32) as char
}

/// Every character of `s` is an ASCII decimal digit.
pub open spec fn all_ascii_digits(s: Seq<char>) -> bool {
    forall|i: int| 0 <= i < s.len() ==> is_ascii_digit(#[trigger] s[i])
}

/// The number that a sequence of decimal digits denotes (most significant first).
pub open spec fn digits_value(s: Seq<char>) -> nat
    decreases s.len(),
{
    if s.len() == 0 {
        0
    } else {
        digits_value(s.drop_last()) * 10 + digit_value(s.last())
    }
}

/// The canonical decimal representation of `v`: no sign, no leading zero.
pub open spec fn decimal_digits(v: nat) -> Seq<char>
    decreases v,
{
    if v < 10 {
        seq![digit_char(v)]
    } else {
        decimal_digits(v / 10).push(digit_char(v % 10))
    }
}

/// The digits of an unsigned integer literal: the text after an optional leading `+`.
pub open spec fn unsigned_literal_digits(s: Seq<char>) -> Seq<char> {
    if s.len() > 0 && s[0] == '+' {
        s.drop_first()
    } else {
        s
    }
}

/// `s` is an unsigned decimal literal whose value fits in a `u64`.
pub open spec fn is_u64_literal(s: Seq<char>) -> bool {
    let d = unsigned_literal_digits(s);
    &&& d.len() > 0
    &&& all_ascii_digits(d)
    &&& digits_value(d) <= u64::MAX
}

// ---------------------------------------------------------------------------
// Lemmas
// ---------------------------------------------------------------------------

pub proof fn lemma_digit_char_value(d: nat)
    requires
        d < 10,
    ensures
        is_ascii_digit(digit_char(d)),
        digit_value(digit_char(d)) == d,
        digit_char(d) != '+',
{
    assert(((d + 0x30) as u32) as char as u32 == d + 0x30);
}

/// The canonical representation consists of digits and denotes `v` again.
pub proof fn lemma_decimal_digits_value(v: nat)
    ensures
        decimal_digits(v).len() > 0,
        all_ascii_digits(decimal_digits(v)),
        digits_value(decimal_digits(v)) == v,
        decimal_digits(v)[0] != '+',
    decreases v,
{
    lemma_digit_char_value(v % 10);
    if v < 10 {
        let s = decimal_digits(v);
        assert(s.drop_last() =~= Seq::<char>::empty());
        assert(digits_value(s) == digits_value(s.drop_last()) * 10 + digit_value(s.last()));
        assert(v % 10 == v);
    } else {
        lemma_decimal_digits_value(v / 10);
        let s = decimal_digits(v);
        assert(s.drop_last() =~= decimal_digits(v / 10));
        assert(digits_value(s) == digits_value(s.drop_last()) * 10 + digit_value(s.last()));
        assert(v == (v / 10) * 10 + v % 10);
        assert forall|i: int| 0 <= i < s.len() implies is_ascii_digit(#[trigger] s[i]) by {
            if i < s.len() - 1 {
                assert(s[i] == decimal_digits(v / 10)[i]);
            }
        }
    }
}

/// A value without white space or separators normalizes to its ASCII lower-case form.
pub proof fn lemma_normalized_plain(s: Seq<char>)
    requires
        forall|i: int| 0 <= i < s.len() ==> !is_white_space(#[trigger] s[i]),
        forall|i: int| 0 <= i < s.len() ==> !is_config_separator(#[trigger] s[i]),
    ensures
        normalized_config(s) == s.map_values(|c: char| ascii_lower(c)),
{
    if s.len() > 0 {
        assert(!is_white_space(s[0]));
        assert(!is_white_space(s.last()));
    }
    assert(trim_start(s) == s);
    assert(trim_end(s) == s);
    lemma_lower_plain(s);
}

proof fn lemma_lower_plain(s: Seq<char>)
    requires
        forall|i: int| 0 <= i < s.len() ==> !is_config_separator(#[trigger] s[i]),
    ensures
        lower_without_separators(s) == s.map_values(|c: char| ascii_lower(c)),
    decreases s.len(),
{
    if s.len() > 0 {
        let t = s.drop_last();
        assert forall|i: int| 0 <= i < t.len() implies !is_config_separator(#[trigger] t[i]) by {
            assert(t[i] == s[i]);
        }
        lemma_lower_plain(t);
        assert(!is_config_separator(s[s.len() - 1]));
        assert(s.map_values(|c: char| ascii_lower(c)) =~= t.map_values(|c: char| ascii_lower(c)).push(
            ascii_lower(s.last()),
        ));
    } else {
        assert(s.map_values(|c: char| ascii_lower(c)) =~= Seq::<char>::empty());
    }
}

// ---------------------------------------------------------------------------
// Executable helpers
// ---------------------------------------------------------------------------

/// Copies the characters of `s` into a vector, in order.
pub fn chars_of(s: &str) -> (v: Vec<char>)
    ensures
        v@ == s@,
{
    let mut v: Vec<char> = Vec::new();
    for c in it: s.chars()
        invariant
            v@ == it.seq().take(it.index()),
            it.seq() == s@,
    {
        v.push(c);
    }
    v
}

/// Builds a `String` holding exactly the given characters (std's
/// `FromIterator<char> for String`).
#[verifier::external_body]
pub fn string_from_chars(chars: &Vec<char>) -> (s: String)
    ensures
        s@ == chars@,
{
    chars.iter().collect()
}

/// Character-wise equality of two sequences held in vectors.
pub fn chars_eq(a: &Vec<char>, b: &Vec<char>) -> (r: bool)
    ensures
        r == (a@ == b@),
{
    if a.len() != b.len() {
        return false;
    }
    let mut i: usize = 0;
    while i < a.len()
        invariant
            a.len() == b.len(),
            i <= a.len(),
            forall|k: int| 0 <= k < i ==> a@[k] == b@[k],
        decreases a.len() - i,
    {
        if a[i] != b[i] {
            return false;
        }
        i = i + 1;
    }
    assert(a@ =~= b@);
    true
}

/// Compares the characters in `a` with the text `b`.
pub fn chars_eq_str(a: &Vec<char>, b: &str) -> (r: bool)
    ensures
        r == (a@ == b@),
{
    let bv = chars_of(b);
    chars_eq(a, &bv)
}

/// Character-wise equality of two string slices.
pub fn str_eq(a: &str, b: &str) -> (r: bool)
    ensures
        r == (a@ == b@),
{
    let av = chars_of(a);
    let bv = chars_of(b);
    chars_eq(&av, &bv)
}

/// Whether `prefix` is a prefix of `s`.
pub fn starts_with(s: &Vec<char>, prefix: &str) -> (r: bool)
    ensures
        r == has_prefix(s@, prefix@),
{
    let p = chars_of(prefix);
    if p.len() > s.len() {
        return false;
    }
    let mut i: usize = 0;
    while i < p.len()
        invariant
            p.len() <= s.len(),
            p@ == prefix@,
            i <= p.len(),
            forall|k: int| 0 <= k < i ==> s@[k] == p@[k],
        decreases p.len() - i,
    {
        if s[i] != p[i] {
            assert(s@.subrange(0, p.len() as int)[i as int] != p@[i as int]);
            return false;
        }
        i = i + 1;
    }
    assert(s@.subrange(0, p.len() as int) =~= p@);
    true
}

pub fn is_white_space_char(c: char) -> (r: bool)
    ensures
        r == is_white_space(c),
{
    let u = c as u32;
    (0x09 <= u && u <= 0x0D) || u == 0x20 || u == 0x85 || u == 0xA0 || u == 0x1680 || (0x2000 <= u
        && u <= 0x200A) || u == 0x2028 || u == 0x2029 || u == 0x202F || u == 0x205F || u == 0x3000
}

/// The characters of `s` without leading and trailing white space.
pub fn trimmed(s: &Vec<char>) -> (t: Vec<char>)
    ensures
        t@ == trim(s@),
{
    let n = s.len();
    let mut i: usize = 0;
    assert(s@.subrange(0, n as int) =~= s@);
    while i < n && is_white_space_char(s[i])
        invariant
            n == s.len(),
            i <= n,
            trim_start(s@.subrange(i as int, n as int)) == trim_start(s@),
        decreases n - i,
    {
        assert(s@.subrange(i as int, n as int).drop_first() =~= s@.subrange(i + 1, n as int));
        i = i + 1;
    }
    assert(trim_start(s@) == s@.subrange(i as int, n as int));
    let mut j: usize = n;
    while j > i && is_white_space_char(s[j - 1])
        invariant
            n == s.len(),
            i <= j <= n,
            trim_start(s@) == s@.subrange(i as int, n as int),
            trim_end(s@.subrange(i as int, j as int)) == trim(s@),
        decreases j - i,
    {
        assert(s@.subrange(i as int, j as int).drop_last() =~= s@.subrange(i as int, j - 1));
        j = j - 1;
    }
    let mut t: Vec<char> = Vec::new();
    let mut k: usize = i;
    while k < j
        invariant
            n == s.len(),
            i <= k <= j <= n,
            t@ == s@.subrange(i as int, k as int),
        decreases j - k,
    {
        t.push(s[k]);
        assert(t@ =~= s@.subrange(i as int, k + 1));
        k = k + 1;
    }
    t
}

pub fn ascii_lower_char(c: char) -> (r: char)
    ensures
        r == ascii_lower(c),
{
    let u = c as u32;
    if 0x41 <= u && u <= 0x5A {
        let b = (u + 32) as u8;
        b as char
    } else {
        c
    }
}

/// `s` folded to ASCII lower case, with `_`, `-` and spaces removed.
pub fn lower_strip_separators(s: &Vec<char>) -> (t: Vec<char>)
    ensures
        t@ == lower_without_separators(s@),
{
    let mut t: Vec<char> = Vec::new();
    let mut k: usize = 0;
    while k < s.len()
        invariant
            k <= s.len(),
            t@ == lower_without_separators(s@.subrange(0, k as int)),
        decreases s.len() - k,
    {
        let c = s[k];
        assert(s@.subrange(0, k + 1).drop_last() =~= s@.subrange(0, k as int));
        if !(c == '_' || c == '-' || c == ' ') {
            t.push(ascii_lower_char(c));
        }
        k = k + 1;
    }
    assert(s@.subrange(0, s.len() as int) =~= s@);
    t
}

/// The normal form of a configuration value (see [`normalized_config`]).
pub fn normalize_config_value(value: &str) -> (n: Vec<char>)
    ensures
        n@ == normalized_config(value@),
{
    let chars = chars_of(value);
    let t = trimmed(&chars);
    lower_strip_separators(&t)
}

/// The canonical decimal digits of `v`.
pub fn decimal_chars(v: u64) -> (d: Vec<char>)
    ensures
        d@ == decimal_digits(v as nat),
    decreases v,
{
    if v < 10 {
        let b = (v as u8) + 0x30;
        let mut d: Vec<char> = Vec::new();
        d.push(b as char);
        assert(d@ =~= decimal_digits(v as nat));
        d
    } else {
        let mut d = decimal_chars(v / 10);
        let b = ((v % 10) as u8) + 0x30;
        d.push(b as char);
        d
    }
}

} // verus!
