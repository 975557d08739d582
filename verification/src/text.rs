//! Text primitives the parsers and formatters are built from.
//!
//! Every string is handled as its sequence of characters (`s@`); the spec
//! functions here say what the standard `str` helpers of the same name do.

use vstd::prelude::*;

verus! {

// ---------------------------------------------------------------------
// Specifications
// ---------------------------------------------------------------------

/// `char::is_whitespace`: the Unicode `White_Space` property.
pub open spec fn is_ws(c: char) -> bool {
    let u = c as u32;
    ||| 9 <= u <= 13
    ||| u == 32
    ||| u == 0x85
    ||| u == 0xa0
    ||| u == 0x1680
    ||| 0x2000 <= u <= 0x200a
    ||| u == 0x2028
    ||| u == 0x2029
    ||| u == 0x202f
    ||| u == 0x205f
    ||| u == 0x3000
}

/// `str::trim_start`.
pub open spec fn trim_start(s: Seq<char>) -> Seq<char>
    decreases s.len(),
{
    if s.len() > 0 && is_ws(s[0]) {
        trim_start(s.drop_first())
    } else {
        s
    }
}

/// `str::trim_end`.
pub open spec fn trim_end(s: Seq<char>) -> Seq<char>
    decreases s.len(),
{
    if s.len() > 0 && is_ws(s.last()) {
        trim_end(s.drop_last())
    } else {
        s
    }
}

/// `str::trim`.
pub open spec fn trim(s: Seq<char>) -> Seq<char> {
    trim_end(trim_start(s))
}

/// `char::to_ascii_lowercase`.
pub open spec fn lower_char(c: char) -> char {
    if 'A' <= c <= 'Z' {
        ((c as u32) + 32) as char
    } else {
        c
    }
}

/// `str::to_ascii_lowercase`.
pub open spec fn lower(s: Seq<char>) -> Seq<char> {
    s.map_values(|c: char| lower_char(c))
}

/// `str::starts_with` with a string pattern.
pub open spec fn starts_with(s: Seq<char>, p: Seq<char>) -> bool {
    p.len() <= s.len() && s.take(p.len() as int) == p
}

/// `str::ends_with` with a string pattern.
pub open spec fn ends_with(s: Seq<char>, p: Seq<char>) -> bool {
    p.len() <= s.len() && s.skip(s.len() - p.len()) == p
}

/// `str::contains` with a string pattern.
pub open spec fn contains(s: Seq<char>, p: Seq<char>) -> bool {
    exists|i: int| 0 <= i && i + p.len() <= s.len() && #[trigger] s.subrange(i, i + p.len()) == p
}

/// `k` is the first position of `c` in `s`.
pub open spec fn first_at(s: Seq<char>, c: char, k: int) -> bool {
    &&& 0 <= k < s.len()
    &&& s[k] == c
    &&& forall|j: int| 0 <= j < k ==> s[j] != c
}

/// Position of the first `c` in `s`, or -1 (`str::find` with a char).
pub open spec fn index_of(s: Seq<char>, c: char) -> int {
    if exists|k: int| first_at(s, c, k) {
        choose|k: int| first_at(s, c, k)
    } else {
        -1
    }
}

/// `str::split` with a char: always at least one piece.
pub open spec fn split(s: Seq<char>, c: char) -> Seq<Seq<char>>
    decreases s.len(),
{
    let i = index_of(s, c);
    if 0 <= i < s.len() {
        seq![s.take(i)] + split(s.skip(i + 1), c)
    } else {
        seq![s]
    }
}

/// A line as `str::lines` yields it: one trailing `'\r'` is dropped.
pub open spec fn strip_cr(l: Seq<char>) -> Seq<char> {
    if l.len() > 0 && l.last() == '\r' {
        l.drop_last()
    } else {
        l
    }
}

/// `str::lines`.
pub open spec fn lines(s: Seq<char>) -> Seq<Seq<char>>
    decreases s.len(),
{
    if s.len() == 0 {
        seq![]
    } else {
        let i = index_of(s, '\n');
        if 0 <= i < s.len() {
            seq![strip_cr(s.take(i))] + lines(s.skip(i + 1))
        } else {
            seq![s]
        }
    }
}

/// The character of decimal digit `d`.
pub open spec fn digit_char(d: nat) -> char {
    (48 + d) as char
}

/// Decimal digits of `n`, no sign, no leading zeros.
pub open spec fn decimal(n: nat) -> Seq<char>
    decreases n,
{
    if n < 10 {
        seq![digit_char(n)]
    } else {
        decimal(n / 10).push(digit_char(n % 10))
    }
}

/// `i64` as `Display` writes it.
pub open spec fn signed_decimal(n: int) -> Seq<char> {
    if n < 0 {
        seq!['-'] + decimal((-n) as nat)
    } else {
        decimal(n as nat)
    }
}

pub open spec fn is_digit(c: char) -> bool {
    '0' <= c <= '9'
}

pub open spec fn digit_value(c: char) -> nat {
    ((c as u32) - 48) as nat
}

pub open spec fn is_hex_digit(c: char) -> bool {
    ||| '0' <= c <= '9'
    ||| 'a' <= c <= 'f'
    ||| 'A' <= c <= 'F'
}

pub open spec fn hex_value(c: char) -> nat {
    if '0' <= c <= '9' {
        ((c as u32) - 48) as nat
    } else if 'a' <= c <= 'f' {
        ((c as u32) - 87) as nat
    } else {
        ((c as u32) - 55) as nat
    }
}

/// Value of a run of decimal digits.
pub open spec fn digits_value(s: Seq<char>) -> nat
    decreases s.len(),
{
    if s.len() == 0 {
        0
    } else {
        digits_value(s.drop_last()) * 10 + digit_value(s.last())
    }
}

/// Value of a run of hexadecimal digits.
pub open spec fn hex_digits_value(s: Seq<char>) -> nat
    decreases s.len(),
{
    if s.len() == 0 {
        0
    } else {
        hex_digits_value(s.drop_last()) * 16 + hex_value(s.last())
    }
}

/// The text after an optional leading `'+'`.
pub open spec fn unsigned_body(s: Seq<char>) -> Seq<char> {
    if s.len() > 0 && s[0] == '+' {
        s.drop_first()
    } else {
        s
    }
}

/// What `str::parse` accepts for an unsigned integer no larger than `max`.
pub open spec fn parse_unsigned(s: Seq<char>, max: nat) -> Option<nat> {
    let b = unsigned_body(s);
    if b.len() > 0 && (forall|i: int| 0 <= i < b.len() ==> is_digit(#[trigger] b[i]))
        && digits_value(b) <= max {
        Some(digits_value(b))
    } else {
        None
    }
}

/// What `str::parse` accepts for a signed integer within `min..=max`.
pub open spec fn parse_signed(s: Seq<char>, min: int, max: int) -> Option<int> {
    if s.len() > 0 && s[0] == '-' {
        let b = s.drop_first();
        if b.len() > 0 && (forall|i: int| 0 <= i < b.len() ==> is_digit(#[trigger] b[i]))
            && min <= -digits_value(b) {
            Some(-digits_value(b))
        } else {
            None
        }
    } else {
        match parse_unsigned(s, max as nat) {
            Some(v) => if max >= 0 { Some(v as int) } else { None },
            None => None,
        }
    }
}

/// What `u*::from_str_radix(s, 16)` accepts, for a value no larger than `max`.
pub open spec fn parse_hex(s: Seq<char>, max: nat) -> Option<nat> {
    let b = unsigned_body(s);
    if b.len() > 0 && (forall|i: int| 0 <= i < b.len() ==> is_hex_digit(#[trigger] b[i]))
        && hex_digits_value(b) <= max {
        Some(hex_digits_value(b))
    } else {
        None
    }
}

/// Bytes `c` takes in UTF-8 (`char::len_utf8`).
pub open spec fn utf8_width(c: char) -> nat {
    let u = c as u32;
    if u < 0x80 {
        1
    } else if u < 0x800 {
        2
    } else if u < 0x10000 {
        3
    } else {
        4
    }
}

/// Bytes `s` takes in UTF-8 (`str::len`).
pub open spec fn utf8_len(s: Seq<char>) -> nat
    decreases s.len(),
{
    if s.len() == 0 {
        0
    } else {
        utf8_len(s.drop_last()) + utf8_width(s.last())
    }
}

/// How often `c` occurs in `s`.
pub open spec fn count_of(s: Seq<char>, c: char) -> nat
    decreases s.len(),
{
    if s.len() == 0 {
        0
    } else {
        count_of(s.drop_last(), c) + if s.last() == c {
            1nat
        } else {
            0nat
        }
    }
}

/// `str::replace` of one char by another.
pub open spec fn replaced(s: Seq<char>, from: char, to: char) -> Seq<char> {
    s.map_values(|c: char| if c == from { to } else { c })
}

/// `str::trim_start_matches` with a string pattern: every leading copy
/// of `p` removed.
pub open spec fn strip_all_prefix(s: Seq<char>, p: Seq<char>) -> Seq<char>
    decreases s.len(),
{
    if p.len() > 0 && starts_with(s, p) {
        strip_all_prefix(s.skip(p.len() as int), p)
    } else {
        s
    }
}

/// `join` of `parts` with `sep` in between.
pub open spec fn joined(parts: Seq<Seq<char>>, sep: Seq<char>) -> Seq<char>
    decreases parts.len(),
{
    if parts.len() == 0 {
        seq![]
    } else if parts.len() == 1 {
        parts[0]
    } else {
        joined(parts.drop_last(), sep) + sep + parts.last()
    }
}

/// Strict lexicographic order by code point (which is how `String`
/// compares: UTF-8 preserves code point order).
pub open spec fn lex_lt(a: Seq<char>, b: Seq<char>) -> bool
    decreases a.len(),
{
    if b.len() == 0 {
        false
    } else if a.len() == 0 {
        true
    } else if a[0] != b[0] {
        a[0] < b[0]
    } else {
        lex_lt(a.drop_first(), b.drop_first())
    }
}

/// The text after the last `' '` or `'/'` (`rsplit([' ', '/']).next()`).
pub open spec fn last_field(s: Seq<char>) -> Seq<char>
    decreases s.len(),
{
    if s.len() == 0 {
        s
    } else if s.last() == ' ' || s.last() == '/' {
        seq![]
    } else {
        last_field(s.drop_last()).push(s.last())
    }
}

// ---------------------------------------------------------------------
// Lemmas
// ---------------------------------------------------------------------

pub proof fn lemma_index_of_found(s: Seq<char>, c: char, k: int)
    requires
        first_at(s, c, k),
    ensures
        index_of(s, c) == k,
{
    let w = choose|k: int| first_at(s, c, k);
    assert(first_at(s, c, w));
    if w < k {
        assert(s[w] != c);
    } else if w > k {
        assert(s[k] != c);
    }
}

pub proof fn lemma_index_of_absent(s: Seq<char>, c: char)
    requires
        forall|j: int| 0 <= j < s.len() ==> s[j] != c,
    ensures
        index_of(s, c) == -1,
{
    if exists|k: int| first_at(s, c, k) {
        let w = choose|k: int| first_at(s, c, k);
        assert(s[w] == c);
    }
}

proof fn lemma_first_exists(s: Seq<char>, c: char, j: int)
    requires
        0 <= j < s.len(),
        s[j] == c,
    ensures
        exists|k: int| first_at(s, c, k),
    decreases j,
{
    if forall|i: int| 0 <= i < j ==> s[i] != c {
        assert(first_at(s, c, j));
    } else {
        let i = choose|i: int| 0 <= i < j && s[i] == c;
        lemma_first_exists(s, c, i);
    }
}

/// What `index_of` says about the characters: a found position is the
/// first `c`; no position means no `c` at all.
pub proof fn lemma_index_of(s: Seq<char>, c: char)
    ensures
        index_of(s, c) >= 0 ==> first_at(s, c, index_of(s, c)),
        index_of(s, c) == -1 ==> forall|j: int| 0 <= j < s.len() ==> s[j] != c,
        index_of(s, c) >= -1,
{
    if index_of(s, c) == -1 {
        assert forall|j: int| 0 <= j < s.len() implies s[j] != c by {
            if s[j] == c {
                lemma_first_exists(s, c, j);
            }
        }
    }
}

proof fn lemma_trim_start_skip(s: Seq<char>, i: int)
    requires
        0 <= i <= s.len(),
        forall|j: int| 0 <= j < i ==> is_ws(s[j]),
    ensures
        trim_start(s) == trim_start(s.skip(i)),
    decreases i,
{
    if i > 0 {
        assert(s.skip(1) == s.drop_first());
        lemma_trim_start_skip(s.drop_first(), i - 1);
        assert(s.drop_first().skip(i - 1) == s.skip(i));
    } else {
        assert(s.skip(0) == s);
    }
}

proof fn lemma_trim_end_take(s: Seq<char>, e: int)
    requires
        0 <= e <= s.len(),
        forall|j: int| e <= j < s.len() ==> is_ws(s[j]),
    ensures
        trim_end(s) == trim_end(s.take(e)),
    decreases s.len() - e,
{
    if e < s.len() {
        assert(s.drop_last() == s.take(s.len() - 1));
        lemma_trim_end_take(s.drop_last(), e);
        assert(s.drop_last().take(e) == s.take(e));
    } else {
        assert(s.take(e) == s);
    }
}

proof fn lemma_digits_value_mono(s: Seq<char>, i: int)
    requires
        0 <= i <= s.len(),
    ensures
        digits_value(s.take(i)) <= digits_value(s),
    decreases s.len() - i,
{
    if i < s.len() {
        lemma_digits_value_mono(s.drop_last(), i);
        assert(s.drop_last().take(i) == s.take(i));
    } else {
        assert(s.take(i) == s);
    }
}

proof fn lemma_hex_value_mono(s: Seq<char>, i: int)
    requires
        0 <= i <= s.len(),
    ensures
        hex_digits_value(s.take(i)) <= hex_digits_value(s),
    decreases s.len() - i,
{
    if i < s.len() {
        lemma_hex_value_mono(s.drop_last(), i);
        assert(s.drop_last().take(i) == s.take(i));
    } else {
        assert(s.take(i) == s);
    }
}

pub proof fn lemma_decimal_len(n: nat)
    ensures
        decimal(n).len() >= 1,
        n < 10 ==> decimal(n).len() == 1,
    decreases n,
{
    if n >= 10 {
        lemma_decimal_len(n / 10);
    }
}

/// Decimal digits read back as the number they write: every character
/// is a digit, and their value is `n`.
pub proof fn lemma_decimal_value(n: nat)
    ensures
        decimal(n).len() >= 1,
        forall|i: int| 0 <= i < decimal(n).len() ==> is_digit(#[trigger] decimal(n)[i]),
        digits_value(decimal(n)) == n,
    decreases n,
{
    if n < 10 {
        let d = decimal(n);
        assert(d.drop_last() =~= Seq::<char>::empty());
        assert(digits_value(d.drop_last()) == 0);
    } else {
        lemma_decimal_value(n / 10);
        let d = decimal(n);
        assert(d.drop_last() == decimal(n / 10));
        assert(d.last() == digit_char(n % 10));
        assert(digit_value(digit_char(n % 10)) == n % 10);
    }
}

/// `str::parse` of the decimal digits of `n` gives `n` back, as long as
/// it is within bounds.
pub proof fn lemma_parse_decimal(n: nat, max: nat)
    requires
        n <= max,
    ensures
        parse_unsigned(decimal(n), max) == Some(n),
{
    lemma_decimal_value(n);
    assert(is_digit(decimal(n)[0]));
    assert(unsigned_body(decimal(n)) == decimal(n));
}

pub proof fn lemma_lex_irreflexive(a: Seq<char>)
    ensures
        !lex_lt(a, a),
    decreases a.len(),
{
    if a.len() > 0 {
        lemma_lex_irreflexive(a.drop_first());
    }
}

pub proof fn lemma_lex_asymmetric(a: Seq<char>, b: Seq<char>)
    ensures
        lex_lt(a, b) ==> !lex_lt(b, a),
    decreases a.len(),
{
    if a.len() > 0 && b.len() > 0 && a[0] == b[0] {
        lemma_lex_asymmetric(a.drop_first(), b.drop_first());
    }
}

pub proof fn lemma_lex_transitive(a: Seq<char>, b: Seq<char>, c: Seq<char>)
    requires
        lex_lt(a, b),
        lex_lt(b, c),
    ensures
        lex_lt(a, c),
    decreases a.len(),
{
    if a.len() > 0 && b.len() > 0 && c.len() > 0 && a[0] == b[0] && b[0] == c[0] {
        lemma_lex_transitive(a.drop_first(), b.drop_first(), c.drop_first());
    }
}

pub proof fn lemma_lex_total(a: Seq<char>, b: Seq<char>)
    ensures
        a != b ==> lex_lt(a, b) || lex_lt(b, a),
    decreases a.len(),
{
    if a.len() > 0 && b.len() > 0 && a[0] == b[0] {
        lemma_lex_total(a.drop_first(), b.drop_first());
        if a.drop_first() =~= b.drop_first() {
            assert(a =~= seq![a[0]] + a.drop_first());
            assert(b =~= seq![b[0]] + b.drop_first());
        }
    } else if a.len() == 0 && b.len() == 0 {
        assert(a =~= b);
    } else if a.len() > 0 && b.len() > 0 {
        assert(a[0] != b[0]);
    }
}

// ---------------------------------------------------------------------
// Trusted std helpers without a vstd specification
// ---------------------------------------------------------------------

/// `String::push`: appends one character.
#[verifier::external_body]
pub(crate) fn push_char(s: &mut String, c: char)
    ensures
        final(s)@ == old(s)@.push(c),
{
    s.push(c)
}

/// Appends a string slice.
pub(crate) fn push_str(s: &mut String, t: &str)
    ensures
        final(s)@ == old(s)@ + t@,
{
    s.append(t);
}

// ---------------------------------------------------------------------
// Executable helpers
// ---------------------------------------------------------------------

/// The characters of `s`.
pub fn chars_of(s: &str) -> (v: Vec<char>)
    ensures
        v@ == s@,
{
    let mut v: Vec<char> = Vec::new();
    for c in it: s.chars()
        invariant
            v@ == it.seq().take(it.index() as int),
    {
        v.push(c);
    }
    v
}

/// A `String` holding the characters `v`.
pub fn string_of(v: &Vec<char>) -> (s: String)
    ensures
        s@ == v@,
{
    let mut s = String::new();
    let mut i: usize = 0;
    while i < v.len()
        invariant
            i <= v.len(),
            s@ == v@.take(i as int),
        decreases v.len() - i,
    {
        push_char(&mut s, v[i]);
        assert(v@.take(i + 1) == v@.take(i as int).push(v@[i as int]));
        i += 1;
    }
    assert(v@.take(v.len() as int) == v@);
    s
}

/// An owned copy of `s`.
pub fn owned(s: &str) -> (r: String)
    ensures
        r@ == s@,
{
    s.to_owned()
}

/// Appends the characters `v` to `s`.
pub fn push_chars(s: &mut String, v: &Vec<char>)
    ensures
        final(s)@ == old(s)@ + v@,
{
    let ghost s0 = s@;
    let mut i: usize = 0;
    while i < v.len()
        invariant
            i <= v.len(),
            s@ == s0 + v@.take(i as int),
        decreases v.len() - i,
    {
        push_char(s, v[i]);
        assert(v@.take(i + 1) == v@.take(i as int).push(v@[i as int]));
        i += 1;
    }
    assert(v@.take(v.len() as int) == v@);
}

/// `v[i..j]` as a new vector.
pub fn slice(v: &Vec<char>, i: usize, j: usize) -> (r: Vec<char>)
    requires
        i <= j <= v.len(),
    ensures
        r@ == v@.subrange(i as int, j as int),
{
    let mut r: Vec<char> = Vec::new();
    let mut k = i;
    while k < j
        invariant
            i <= k <= j <= v.len(),
            r@ == v@.subrange(i as int, k as int),
        decreases j - k,
    {
        r.push(v[k]);
        assert(v@.subrange(i as int, k + 1) == v@.subrange(i as int, k as int).push(v@[k as int]));
        k += 1;
    }
    r
}

/// `char::is_whitespace`.
pub fn is_whitespace(c: char) -> (b: bool)
    ensures
        b == is_ws(c),
{
    let u = c as u32;
    (9 <= u && u <= 13) || u == 32 || u == 0x85 || u == 0xa0 || u == 0x1680 || (0x2000 <= u
        && u <= 0x200a) || u == 0x2028 || u == 0x2029 || u == 0x202f || u == 0x205f || u == 0x3000
}

/// `str::trim`.
pub fn trim_chars(v: &Vec<char>) -> (r: Vec<char>)
    ensures
        r@ == trim(v@),
{
    let n = v.len();
    let mut a: usize = 0;
    while a < n && is_whitespace(v[a])
        invariant
            a <= n == v.len(),
            forall|j: int| 0 <= j < a ==> is_ws(v@[j]),
        decreases n - a,
    {
        a += 1;
    }
    proof {
        lemma_trim_start_skip(v@, a as int);
    }
    let mut b: usize = n;
    while b > a && is_whitespace(v[b - 1])
        invariant
            a <= b <= n == v.len(),
            forall|j: int| b <= j < n ==> is_ws(v@[j]),
        decreases b - a,
    {
        b -= 1;
    }
    let ghost t = v@.skip(a as int);
    proof {
        // trim_start(v) == t, and t does not start with whitespace (or is empty)
        if t.len() > 0 {
            assert(t[0] == v@[a as int]);
        }
        assert(trim_start(v@) == t);
        assert forall|j: int| (b - a) <= j < t.len() implies is_ws(t[j]) by {
            assert(t[j] == v@[a + j]);
        }
        lemma_trim_end_take(t, (b - a) as int);
        let u = t.take((b - a) as int);
        if u.len() > 0 {
            assert(u.last() == v@[b - 1]);
        }
        assert(trim_end(u) == u);
        assert(u == v@.subrange(a as int, b as int));
    }
    slice(v, a, b)
}

/// `char::to_ascii_lowercase`.
pub fn lower_ascii(c: char) -> (r: char)
    ensures
        r == lower_char(c),
{
    if 'A' <= c && c <= 'Z' {
        ((c as u8) + 32) as char
    } else {
        c
    }
}

/// `str::to_ascii_lowercase`.
pub fn lower_chars(v: &Vec<char>) -> (r: Vec<char>)
    ensures
        r@ == lower(v@),
{
    let mut r: Vec<char> = Vec::new();
    let mut i: usize = 0;
    while i < v.len()
        invariant
            i <= v.len(),
            r@ == lower(v@.take(i as int)),
        decreases v.len() - i,
    {
        r.push(lower_ascii(v[i]));
        assert(lower(v@.take(i + 1)) == lower(v@.take(i as int)).push(lower_char(v@[i as int])));
        i += 1;
    }
    assert(v@.take(v.len() as int) == v@);
    r
}

/// The trimmed, ASCII-lowercased characters of `s`: the key every
/// `FromStr` of the model matches on.
pub fn key_of(s: &str) -> (r: Vec<char>)
    ensures
        r@ == lower(trim(s@)),
{
    let v = chars_of(s);
    let t = trim_chars(&v);
    lower_chars(&t)
}

/// Whether the characters `v` spell `lit`.
pub fn eq_str(v: &Vec<char>, lit: &str) -> (b: bool)
    ensures
        b == (v@ == lit@),
{
    let l = chars_of(lit);
    eq_chars(v, &l)
}

/// Whether two character vectors are equal.
pub fn eq_chars(a: &Vec<char>, b: &Vec<char>) -> (r: bool)
    ensures
        r == (a@ == b@),
{
    if a.len() != b.len() {
        return false;
    }
    let mut i: usize = 0;
    while i < a.len()
        invariant
            i <= a.len() == b.len(),
            forall|j: int| 0 <= j < i ==> a@[j] == b@[j],
        decreases a.len() - i,
    {
        if a[i] != b[i] {
            return false;
        }
        i += 1;
    }
    assert(a@ =~= b@);
    true
}

/// Whether two strings are equal.
pub fn eq_strings(a: &String, b: &String) -> (r: bool)
    ensures
        r == (a@ == b@),
{
    let x = chars_of(a.as_str());
    let y = chars_of(b.as_str());
    eq_chars(&x, &y)
}

/// `str::starts_with` on characters.
pub fn starts_with_chars(v: &Vec<char>, p: &Vec<char>) -> (b: bool)
    ensures
        b == starts_with(v@, p@),
{
    if p.len() > v.len() {
        return false;
    }
    let mut i: usize = 0;
    while i < p.len()
        invariant
            i <= p.len() <= v.len(),
            forall|j: int| 0 <= j < i ==> v@[j] == p@[j],
        decreases p.len() - i,
    {
        if v[i] != p[i] {
            assert(v@.take(p.len() as int)[i as int] != p@[i as int]);
            return false;
        }
        i += 1;
    }
    assert(v@.take(p.len() as int) =~= p@);
    true
}

/// `str::starts_with` with a literal pattern.
pub fn starts_with_str(v: &Vec<char>, lit: &str) -> (b: bool)
    ensures
        b == starts_with(v@, lit@),
{
    let p = chars_of(lit);
    starts_with_chars(v, &p)
}

/// `str::ends_with` on characters.
pub fn ends_with_chars(v: &Vec<char>, p: &Vec<char>) -> (b: bool)
    ensures
        b == ends_with(v@, p@),
{
    if p.len() > v.len() {
        return false;
    }
    let off = v.len() - p.len();
    let mut i: usize = 0;
    while i < p.len()
        invariant
            i <= p.len() <= v.len(),
            off == v.len() - p.len(),
            forall|j: int| 0 <= j < i ==> v@[off + j] == p@[j],
        decreases p.len() - i,
    {
        if v[off + i] != p[i] {
            assert(v@.skip(off as int)[i as int] != p@[i as int]);
            return false;
        }
        i += 1;
    }
    assert(v@.skip(off as int) =~= p@);
    true
}

/// `str::ends_with` with a literal pattern.
pub fn ends_with_str(v: &Vec<char>, lit: &str) -> (b: bool)
    ensures
        b == ends_with(v@, lit@),
{
    let p = chars_of(lit);
    ends_with_chars(v, &p)
}

/// `str::strip_prefix` with a literal pattern.
pub fn strip_prefix(v: &Vec<char>, lit: &str) -> (r: Option<Vec<char>>)
    ensures
        match r {
            Some(rest) => starts_with(v@, lit@) && rest@ == v@.skip(lit@.len() as int),
            None => !starts_with(v@, lit@),
        },
{
    let p = chars_of(lit);
    if starts_with_chars(v, &p) {
        Some(slice(v, p.len(), v.len()))
    } else {
        None
    }
}

/// `str::contains` on characters.
pub fn contains_chars(v: &Vec<char>, p: &Vec<char>) -> (b: bool)
    ensures
        b == contains(v@, p@),
{
    if p.len() > v.len() {
        assert forall|i: int| 0 <= i && i + p@.len() <= v@.len() implies #[trigger] v@.subrange(
            i,
            i + p@.len(),
        ) != p@ by {}
        return false;
    }
    let last = v.len() - p.len();
    let mut i: usize = 0;
    loop
        invariant
            p.len() <= v.len(),
            last == v.len() - p.len(),
            i <= last,
            forall|k: int| 0 <= k < i ==> #[trigger] v@.subrange(k, k + p@.len()) != p@,
        decreases last - i,
    {
        let w = slice(v, i, i + p.len());
        if eq_chars(&w, p) {
            return true;
        }
        if i == last {
            assert forall|k: int| 0 <= k && k + p@.len() <= v@.len() implies #[trigger] v@.subrange(
                k,
                k + p@.len(),
            ) != p@ by {
                assert(k <= i);
            }
            return false;
        }
        i += 1;
    }
}

/// `str::contains` with a literal pattern.
pub fn contains_str(v: &Vec<char>, lit: &str) -> (b: bool)
    ensures
        b == contains(v@, lit@),
{
    let p = chars_of(lit);
    contains_chars(v, &p)
}

/// `str::find` with a char, starting at `from`: the position in `v`.
pub fn find_from(v: &Vec<char>, c: char, from: usize) -> (r: Option<usize>)
    requires
        from <= v.len(),
    ensures
        match r {
            Some(k) => from <= k < v.len() && index_of(v@.skip(from as int), c) == k - from,
            None => index_of(v@.skip(from as int), c) == -1,
        },
{
    let ghost t = v@.skip(from as int);
    let mut i = from;
    while i < v.len()
        invariant
            from <= i <= v.len(),
            t == v@.skip(from as int),
            forall|j: int| from <= j < i ==> v@[j] != c,
        decreases v.len() - i,
    {
        if v[i] == c {
            proof {
                assert forall|j: int| 0 <= j < i - from implies t[j] != c by {
                    assert(t[j] == v@[from + j]);
                }
                lemma_index_of_found(t, c, (i - from) as int);
            }
            return Some(i);
        }
        i += 1;
    }
    proof {
        assert forall|j: int| 0 <= j < t.len() implies t[j] != c by {
            assert(t[j] == v@[from + j]);
        }
        lemma_index_of_absent(t, c);
    }
    None
}

/// `str::find` with a char.
pub fn find(v: &Vec<char>, c: char) -> (r: Option<usize>)
    ensures
        match r {
            Some(k) => k < v.len() && index_of(v@, c) == k,
            None => index_of(v@, c) == -1,
        },
{
    assert(v@.skip(0) == v@);
    find_from(v, c, 0)
}

/// Views of a vector of character vectors.
pub open spec fn views(v: Seq<Vec<char>>) -> Seq<Seq<char>> {
    v.map_values(|x: Vec<char>| x@)
}

/// `str::split` with a char.
pub fn split_chars(v: &Vec<char>, c: char) -> (r: Vec<Vec<char>>)
    ensures
        views(r@) == split(v@, c),
{
    let mut out: Vec<Vec<char>> = Vec::new();
    let mut start: usize = 0;
    proof {
        assert(v@.skip(0) == v@);
        assert(views(out@) + split(v@, c) =~= split(v@, c));
    }
    loop
        invariant
            start <= v.len(),
            views(out@) + split(v@.skip(start as int), c) == split(v@, c),
        decreases v.len() - start,
    {
        let ghost t = v@.skip(start as int);
        match find_from(v, c, start) {
            Some(k) => {
                let piece = slice(v, start, k);
                proof {
                    let i = k - start;
                    assert(t.take(i) == piece@);
                    assert(t.skip(i + 1) == v@.skip(k + 1));
                    assert(split(t, c) == seq![t.take(i)] + split(t.skip(i + 1), c));
                    assert(views(out@.push(piece)) == views(out@).push(piece@));
                }
                out.push(piece);
                start = k + 1;
            },
            None => {
                let piece = slice(v, start, v.len());
                proof {
                    assert(t == piece@);
                    assert(split(t, c) == seq![t]);
                    assert(views(out@.push(piece)) == views(out@).push(piece@));
                }
                out.push(piece);
                return out;
            },
        }
    }
}

/// Drops one trailing `'\r'`.
pub fn strip_cr_chars(v: Vec<char>) -> (r: Vec<char>)
    ensures
        r@ == strip_cr(v@),
{
    let mut v = v;
    if v.len() > 0 && v[v.len() - 1] == '\r' {
        v.pop();
    }
    v
}

/// `str::lines`.
pub fn lines_of(v: &Vec<char>) -> (r: Vec<Vec<char>>)
    ensures
        views(r@) == lines(v@),
{
    let mut out: Vec<Vec<char>> = Vec::new();
    let mut start: usize = 0;
    proof {
        assert(v@.skip(0) == v@);
        assert(views(out@) + lines(v@) =~= lines(v@));
    }
    loop
        invariant
            start <= v.len(),
            views(out@) + lines(v@.skip(start as int)) == lines(v@),
        decreases v.len() - start,
    {
        let ghost t = v@.skip(start as int);
        if start == v.len() {
            assert(lines(t) == Seq::<Seq<char>>::empty());
            assert(views(out@) + Seq::<Seq<char>>::empty() == views(out@));
            return out;
        }
        match find_from(v, '\n', start) {
            Some(k) => {
                let piece = strip_cr_chars(slice(v, start, k));
                proof {
                    let i = k - start;
                    assert(t.take(i) == v@.subrange(start as int, k as int));
                    assert(t.skip(i + 1) == v@.skip(k + 1));
                    assert(lines(t) == seq![strip_cr(t.take(i))] + lines(t.skip(i + 1)));
                    assert(views(out@.push(piece)) == views(out@).push(piece@));
                }
                out.push(piece);
                start = k + 1;
            },
            None => {
                let piece = slice(v, start, v.len());
                proof {
                    assert(t == piece@);
                    assert(lines(t) == seq![t]);
                    assert(views(out@.push(piece)) == views(out@).push(piece@));
                }
                out.push(piece);
                return out;
            },
        }
    }
}

/// Decimal digits of `n`.
pub fn decimal_chars(n: u64) -> (r: Vec<char>)
    ensures
        r@ == decimal(n as nat),
    decreases n,
{
    if n < 10 {
        let mut r = Vec::new();
        r.push(((n as u8) + 48) as char);
        r
    } else {
        let mut r = decimal_chars(n / 10);
        r.push((((n % 10) as u8) + 48) as char);
        r
    }
}

/// `i64` as `Display` writes it.
pub fn signed_decimal_chars(n: i64) -> (r: Vec<char>)
    ensures
        r@ == signed_decimal(n as int),
{
    if n < 0 {
        let m: u64 = if n == i64::MIN {
            9223372036854775808u64
        } else {
            (-n) as u64
        };
        let d = decimal_chars(m);
        let mut r = Vec::new();
        r.push('-');
        let mut i: usize = 0;
        while i < d.len()
            invariant
                i <= d.len(),
                r@ == seq!['-'] + d@.take(i as int),
            decreases d.len() - i,
        {
            r.push(d[i]);
            assert(d@.take(i + 1) == d@.take(i as int).push(d@[i as int]));
            i += 1;
        }
        assert(d@.take(d.len() as int) == d@);
        r
    } else {
        decimal_chars(n as u64)
    }
}

/// Parses an optionally `'+'`-prefixed run of decimal digits no larger
/// than `max`, as `str::parse` does for unsigned integers.
pub fn parse_unsigned_chars(v: &Vec<char>, max: u64) -> (r: Option<u64>)
    requires
        max < 0x1_0000_0000,
    ensures
        match r {
            Some(x) => parse_unsigned(v@, max as nat) == Some(x as nat),
            None => parse_unsigned(v@, max as nat) is None,
        },
{
    let start: usize = if v.len() > 0 && v[0] == '+' {
        1
    } else {
        0
    };
    let ghost b = unsigned_body(v@);
    assert(b == v@.skip(start as int));
    if start == v.len() {
        return None;
    }
    let mut acc: u64 = 0;
    let mut i = start;
    while i < v.len()
        invariant
            start <= i <= v.len(),
            start < v.len(),
            b == v@.skip(start as int),
            b == unsigned_body(v@),
            max < 0x1_0000_0000,
            acc <= max,
            acc == digits_value(b.take(i - start)),
            forall|j: int| 0 <= j < i - start ==> is_digit(#[trigger] b[j]),
        decreases v.len() - i,
    {
        let c = v[i];
        if !('0' <= c && c <= '9') {
            proof {
                assert(b[i - start] == c);
                assert(!is_digit(b[i - start]));
                assert(!(forall|j: int| 0 <= j < b.len() ==> is_digit(#[trigger] b[j])));
            }
            return None;
        }
        let d = ((c as u32) - 48) as u64;
        proof {
            let p = b.take(i + 1 - start);
            assert(p.drop_last() == b.take(i - start));
            assert(p.last() == c);
        }
        acc = acc * 10 + d;
        i += 1;
        if acc > max {
            proof {
                lemma_digits_value_mono(b, i - start);
                assert(digits_value(b) > max);
            }
            return None;
        }
    }
    assert(b.take(i - start) == b);
    Some(acc)
}

/// Parses a decimal integer within `min..=max`, as `str::parse` does for
/// signed integers.
pub fn parse_signed_chars(v: &Vec<char>, min: i64, max: i64) -> (r: Option<i64>)
    requires
        -0x8000_0000 <= min <= 0,
        0 <= max < 0x8000_0000,
    ensures
        match r {
            Some(x) => parse_signed(v@, min as int, max as int) == Some(x as int),
            None => parse_signed(v@, min as int, max as int) is None,
        },
{
    if v.len() > 0 && v[0] == '-' {
        let body = slice(v, 1, v.len());
        assert(body@ == v@.drop_first());
        assert(unsigned_body(body@) == body@ || (body@.len() > 0 && body@[0] == '+'));
        if body.len() > 0 && body[0] == '+' {
            assert(!is_digit(body@[0]));
            return None;
        }
        assert(unsigned_body(body@) == body@);
        let bound = (0 - min) as u64;
        match parse_unsigned_chars(&body, bound) {
            Some(m) => Some(0 - (m as i64)),
            None => None,
        }
    } else {
        match parse_unsigned_chars(v, max as u64) {
            Some(m) => Some(m as i64),
            None => None,
        }
    }
}

/// Parses an optionally `'+'`-prefixed run of hex digits no larger than
/// `max`, as `u*::from_str_radix(.., 16)` does.
pub fn parse_hex_chars(v: &Vec<char>, max: u64) -> (r: Option<u64>)
    requires
        max < 0x1_0000_0000,
    ensures
        match r {
            Some(x) => parse_hex(v@, max as nat) == Some(x as nat),
            None => parse_hex(v@, max as nat) is None,
        },
{
    let start: usize = if v.len() > 0 && v[0] == '+' {
        1
    } else {
        0
    };
    let ghost b = unsigned_body(v@);
    assert(b == v@.skip(start as int));
    if start == v.len() {
        return None;
    }
    let mut acc: u64 = 0;
    let mut i = start;
    while i < v.len()
        invariant
            start <= i <= v.len(),
            start < v.len(),
            b == v@.skip(start as int),
            b == unsigned_body(v@),
            max < 0x1_0000_0000,
            acc <= max,
            acc == hex_digits_value(b.take(i - start)),
            forall|j: int| 0 <= j < i - start ==> is_hex_digit(#[trigger] b[j]),
        decreases v.len() - i,
    {
        let c = v[i];
        let d: u64 = if '0' <= c && c <= '9' {
            ((c as u32) - 48) as u64
        } else if 'a' <= c && c <= 'f' {
            ((c as u32) - 87) as u64
        } else if 'A' <= c && c <= 'F' {
            ((c as u32) - 55) as u64
        } else {
            proof {
                assert(b[i - start] == c);
                assert(!is_hex_digit(b[i - start]));
                assert(!(forall|j: int| 0 <= j < b.len() ==> is_hex_digit(#[trigger] b[j])));
            }
            return None;
        };
        proof {
            let p = b.take(i + 1 - start);
            assert(p.drop_last() == b.take(i - start));
            assert(p.last() == c);
        }
        acc = acc * 16 + d;
        i += 1;
        if acc > max {
            proof {
                lemma_hex_value_mono(b, i - start);
                assert(hex_digits_value(b) > max);
            }
            return None;
        }
    }
    assert(b.take(i - start) == b);
    Some(acc)
}

/// Bytes `c` takes in UTF-8.
pub fn utf8_width_of(c: char) -> (n: usize)
    ensures
        n == utf8_width(c),
{
    let u = c as u32;
    if u < 0x80 {
        1
    } else if u < 0x800 {
        2
    } else if u < 0x10000 {
        3
    } else {
        4
    }
}

/// The UTF-8 length of `v` if it is at most `cap`.
pub fn utf8_len_upto(v: &Vec<char>, cap: usize) -> (r: Option<usize>)
    requires
        cap <= 0xffff,
    ensures
        match r {
            Some(n) => n == utf8_len(v@) && n <= cap,
            None => utf8_len(v@) > cap,
        },
{
    let mut n: usize = 0;
    let mut i: usize = 0;
    while i < v.len()
        invariant
            i <= v.len(),
            cap <= 0xffff,
            n <= cap,
            n == utf8_len(v@.take(i as int)),
        decreases v.len() - i,
    {
        assert(v@.take(i + 1).drop_last() == v@.take(i as int));
        n = n + utf8_width_of(v[i]);
        i += 1;
        if n > cap {
            proof {
                lemma_utf8_len_mono(v@, i as int);
            }
            return None;
        }
    }
    assert(v@.take(i as int) == v@);
    Some(n)
}

proof fn lemma_utf8_len_mono(s: Seq<char>, i: int)
    requires
        0 <= i <= s.len(),
    ensures
        utf8_len(s.take(i)) <= utf8_len(s),
    decreases s.len() - i,
{
    if i < s.len() {
        lemma_utf8_len_mono(s.drop_last(), i);
        assert(s.drop_last().take(i) == s.take(i));
    } else {
        assert(s.take(i) == s);
    }
}

/// How often `c` occurs in `v`.
pub fn count_char(v: &Vec<char>, c: char) -> (n: usize)
    ensures
        n == count_of(v@, c),
{
    let mut n: usize = 0;
    let mut i: usize = 0;
    while i < v.len()
        invariant
            i <= v.len(),
            n <= i,
            n == count_of(v@.take(i as int), c),
        decreases v.len() - i,
    {
        assert(v@.take(i + 1).drop_last() == v@.take(i as int));
        if v[i] == c {
            n += 1;
        }
        i += 1;
    }
    assert(v@.take(i as int) == v@);
    n
}

/// `str::replace` of one char by another.
pub fn replace_char(v: &Vec<char>, from: char, to: char) -> (r: Vec<char>)
    ensures
        r@ == replaced(v@, from, to),
{
    let mut r: Vec<char> = Vec::new();
    let mut i: usize = 0;
    while i < v.len()
        invariant
            i <= v.len(),
            r@ == replaced(v@.take(i as int), from, to),
        decreases v.len() - i,
    {
        let c = if v[i] == from {
            to
        } else {
            v[i]
        };
        r.push(c);
        assert(replaced(v@.take(i + 1), from, to) == replaced(v@.take(i as int), from, to).push(c));
        i += 1;
    }
    assert(v@.take(i as int) == v@);
    r
}

/// `str::trim_start`.
pub fn trim_start_chars(v: &Vec<char>) -> (r: Vec<char>)
    ensures
        r@ == trim_start(v@),
{
    let mut a: usize = 0;
    while a < v.len() && is_whitespace(v[a])
        invariant
            a <= v.len(),
            forall|j: int| 0 <= j < a ==> is_ws(v@[j]),
        decreases v.len() - a,
    {
        a += 1;
    }
    proof {
        lemma_trim_start_skip(v@, a as int);
        let t = v@.skip(a as int);
        if t.len() > 0 {
            assert(t[0] == v@[a as int]);
        }
        assert(trim_start(t) == t);
        assert(t == v@.subrange(a as int, v@.len() as int));
    }
    slice(v, a, v.len())
}

/// `str::trim_start_matches` with a literal pattern.
pub fn strip_all_prefix_chars(v: &Vec<char>, lit: &str) -> (r: Vec<char>)
    ensures
        r@ == strip_all_prefix(v@, lit@),
{
    let p = chars_of(lit);
    let mut cur = slice(v, 0, v.len());
    assert(cur@ == v@);
    if p.len() == 0 {
        return cur;
    }
    loop
        invariant
            p@ == lit@,
            p@.len() > 0,
            strip_all_prefix(cur@, p@) == strip_all_prefix(v@, p@),
        decreases cur@.len(),
    {
        if starts_with_chars(&cur, &p) {
            cur = slice(&cur, p.len(), cur.len());
        } else {
            return cur;
        }
    }
}

/// `parts.join(sep)`.
pub fn join_strings(parts: &Vec<String>, sep: &str) -> (r: String)
    ensures
        r@ == joined(parts@.map_values(|x: String| x@), sep@),
{
    let ghost ps = parts@.map_values(|x: String| x@);
    let mut r = String::new();
    let mut i: usize = 0;
    while i < parts.len()
        invariant
            i <= parts.len(),
            ps == parts@.map_values(|x: String| x@),
            r@ == joined(ps.take(i as int), sep@),
        decreases parts.len() - i,
    {
        assert(ps.take(i + 1).drop_last() == ps.take(i as int));
        assert(ps.take(i + 1).last() == parts@[i as int]@);
        if i > 0 {
            push_str(&mut r, sep);
        } else {
            assert(ps.take(0) =~= Seq::<Seq<char>>::empty());
        }
        push_str(&mut r, parts[i].as_str());
        i += 1;
    }
    assert(ps.take(i as int) == ps);
    r
}

/// Strict lexicographic comparison by code point.
pub fn lex_less(a: &Vec<char>, b: &Vec<char>) -> (r: bool)
    ensures
        r == lex_lt(a@, b@),
{
    let mut i: usize = 0;
    assert(a@.skip(0) == a@ && b@.skip(0) == b@);
    while i < a.len() && i < b.len() && a[i] == b[i]
        invariant
            i <= a.len(),
            i <= b.len(),
            forall|j: int| 0 <= j < i ==> a@[j] == b@[j],
            lex_lt(a@, b@) == lex_lt(a@.skip(i as int), b@.skip(i as int)),
        decreases a.len() - i,
    {
        proof {
            let sa = a@.skip(i as int);
            let sb = b@.skip(i as int);
            assert(sa.drop_first() == a@.skip(i + 1));
            assert(sb.drop_first() == b@.skip(i + 1));
        }
        i += 1;
    }
    proof {
        let sa = a@.skip(i as int);
        let sb = b@.skip(i as int);
        if i < a.len() && i < b.len() {
            assert(sa[0] == a@[i as int]);
            assert(sb[0] == b@[i as int]);
        }
    }
    if i == b.len() {
        false
    } else if i == a.len() {
        true
    } else {
        a[i] < b[i]
    }
}

/// The text after the last `' '` or `'/'`.
pub fn last_field_chars(v: &Vec<char>) -> (r: Vec<char>)
    ensures
        r@ == last_field(v@),
{
    let mut k: usize = v.len();
    assert(v@.take(k as int) == v@ && v@.skip(k as int) =~= Seq::<char>::empty());
    assert(last_field(v@) + Seq::<char>::empty() =~= last_field(v@));
    while k > 0 && v[k - 1] != ' ' && v[k - 1] != '/'
        invariant
            k <= v.len(),
            last_field(v@) == last_field(v@.take(k as int)) + v@.skip(k as int),
        decreases k,
    {
        proof {
            let t = v@.take(k as int);
            assert(t.drop_last() == v@.take(k - 1));
            assert(t.last() == v@[k - 1]);
            assert(seq![v@[k - 1]] + v@.skip(k as int) =~= v@.skip(k - 1));
            assert(last_field(v@.take(k - 1)).push(v@[k - 1]) + v@.skip(k as int)
                =~= last_field(v@.take(k - 1)) + v@.skip(k - 1));
        }
        k -= 1;
    }
    proof {
        let t = v@.take(k as int);
        if k > 0 {
            assert(t.last() == v@[k - 1]);
        }
        assert(last_field(t) =~= Seq::<char>::empty());
        assert(v@.take(v@.len() as int) == v@);
    }
    slice(v, k, v.len())
}

/// The characters of an optional string.
pub open spec fn opt_view(o: Option<String>) -> Option<Seq<char>> {
    match o {
        Some(s) => Some(s@),
        None => None,
    }
}

/// The characters of each string.
pub open spec fn strs_view(v: Seq<String>) -> Seq<Seq<char>> {
    v.map_values(|x: String| x@)
}

/// Strictly increasing in lexicographic order: sorted and free of
/// duplicates.
pub open spec fn sorted_unique(s: Seq<Seq<char>>) -> bool {
    forall|i: int, j: int| 0 <= i < j < s.len() ==> lex_lt(#[trigger] s[i], #[trigger] s[j])
}

/// Two strictly increasing sequences with the same elements are equal.
pub proof fn lemma_sorted_unique_same(a: Seq<Seq<char>>, b: Seq<Seq<char>>)
    requires
        sorted_unique(a),
        sorted_unique(b),
        forall|c: Seq<char>| a.contains(c) <==> b.contains(c),
    ensures
        a == b,
    decreases a.len(),
{
    if a.len() == 0 {
        if b.len() > 0 {
            assert(b.contains(b[0]));
        }
        assert(a =~= b);
    } else {
        assert(a.contains(a[0]));
        assert(b.len() > 0);
        assert(b.contains(b[0]));
        let j = choose|j: int| 0 <= j < b.len() && b[j] == a[0];
        let i = choose|i: int| 0 <= i < a.len() && a[i] == b[0];
        if j > 0 {
            assert(lex_lt(b[0], b[j]));
            if i > 0 {
                assert(lex_lt(a[0], a[i]));
                lemma_lex_asymmetric(a[0], b[0]);
            } else {
                lemma_lex_irreflexive(b[0]);
            }
        }
        assert(a[0] == b[0]);
        let ta = a.drop_first();
        let tb = b.drop_first();
        assert forall|c: Seq<char>| ta.contains(c) implies tb.contains(c) by {
            let k = choose|k: int| 0 <= k < ta.len() && ta[k] == c;
            assert(a[k + 1] == c);
            assert(lex_lt(a[0], a[k + 1]));
            lemma_lex_irreflexive(a[0]);
            assert(a.contains(c));
            let m = choose|m: int| 0 <= m < b.len() && b[m] == c;
            assert(m != 0);
            assert(tb[m - 1] == c);
        }
        assert forall|c: Seq<char>| tb.contains(c) implies ta.contains(c) by {
            let k = choose|k: int| 0 <= k < tb.len() && tb[k] == c;
            assert(b[k + 1] == c);
            assert(lex_lt(b[0], b[k + 1]));
            lemma_lex_irreflexive(b[0]);
            assert(b.contains(c));
            let m = choose|m: int| 0 <= m < a.len() && a[m] == c;
            assert(m != 0);
            assert(ta[m - 1] == c);
        }
        assert(sorted_unique(ta)) by {
            assert forall|x: int, y: int| 0 <= x < y < ta.len() implies lex_lt(ta[x], ta[y]) by {
                assert(ta[x] == a[x + 1] && ta[y] == a[y + 1]);
            }
        }
        assert(sorted_unique(tb)) by {
            assert forall|x: int, y: int| 0 <= x < y < tb.len() implies lex_lt(tb[x], tb[y]) by {
                assert(tb[x] == b[x + 1] && tb[y] == b[y + 1]);
            }
        }
        lemma_sorted_unique_same(ta, tb);
        assert(a =~= seq![a[0]] + ta);
        assert(b =~= seq![b[0]] + tb);
    }
}

/// Inserts `x` into the strictly increasing `v` unless it is already there.
pub fn insert_sorted(v: &mut Vec<String>, x: String)
    requires
        sorted_unique(strs_view(old(v)@)),
    ensures
        sorted_unique(strs_view(final(v)@)),
        forall|y: Seq<char>|
            strs_view(final(v)@).contains(y) <==> (strs_view(old(v)@).contains(y) || y == x@),
{
    let xv = chars_of(x.as_str());
    let ghost old_s = strs_view(v@);
    let mut i: usize = 0;
    while i < v.len() && lex_less(&chars_of(v[i].as_str()), &xv)
        invariant
            i <= v.len(),
            xv@ == x@,
            old_s == strs_view(v@),
            sorted_unique(old_s),
            forall|j: int| 0 <= j < i ==> lex_lt(#[trigger] old_s[j], x@),
        decreases v.len() - i,
    {
        i += 1;
    }
    if i < v.len() {
        let cur = chars_of(v[i].as_str());
        if eq_chars(&cur, &xv) {
            proof {
                assert(old_s[i as int] == x@);
                assert forall|y: Seq<char>| old_s.contains(y) <==> (old_s.contains(y) || y == x@) by {
                    if y == x@ {
                        assert(old_s[i as int] == y);
                    }
                }
            }
            return;
        }
        proof {
            // v[i] > x
            lemma_lex_total(old_s[i as int], x@);
        }
    }
    proof {
        assert forall|j: int| i <= j < old_s.len() implies lex_lt(x@, #[trigger] old_s[j]) by {
            if j > i {
                assert(lex_lt(old_s[i as int], old_s[j]));
                lemma_lex_transitive(x@, old_s[i as int], old_s[j]);
            }
        }
    }
    v.insert(i, x);
    proof {
        let s = strs_view(v@);
        assert(s =~= old_s.insert(i as int, x@));
        assert forall|a: int, b: int| 0 <= a < b < s.len() implies lex_lt(#[trigger] s[a], #[trigger] s[b]) by {
            if a < i && b == i {
            } else if a < i && b > i {
                assert(s[b] == old_s[b - 1]);
                assert(lex_lt(old_s[a], x@));
                lemma_lex_transitive(old_s[a], x@, old_s[b - 1]);
            } else if a == i {
                assert(s[b] == old_s[b - 1]);
            } else if a < i {
            } else {
                assert(s[a] == old_s[a - 1]);
                assert(s[b] == old_s[b - 1]);
            }
        }
        assert forall|y: Seq<char>| s.contains(y) <==> (old_s.contains(y) || y == x@) by {
            if s.contains(y) {
                let k = choose|k: int| 0 <= k < s.len() && s[k] == y;
                if k < i {
                    assert(old_s[k] == y);
                } else if k > i {
                    assert(old_s[k - 1] == y);
                }
            }
            if old_s.contains(y) {
                let k = choose|k: int| 0 <= k < old_s.len() && old_s[k] == y;
                if k < i {
                    assert(s[k] == y);
                } else {
                    assert(s[k + 1] == y);
                }
            }
            if y == x@ {
                assert(s[i as int] == y);
            }
        }
    }
}

/// A copy of an optional string.
pub fn clone_opt(o: &Option<String>) -> (r: Option<String>)
    ensures
        r == *o,
{
    match o {
        Some(s) => Some(s.clone()),
        None => None,
    }
}

/// Whether `c` occurs in `v`.
pub fn has_char(v: &Vec<char>, c: char) -> (b: bool)
    ensures
        b == exists|k: int| 0 <= k < v@.len() && v@[k] == c,
{
    let mut i: usize = 0;
    while i < v.len()
        invariant
            i <= v.len(),
            forall|k: int| 0 <= k < i ==> v@[k] != c,
        decreases v.len() - i,
    {
        if v[i] == c {
            return true;
        }
        i += 1;
    }
    false
}

} // verus!
