//! A model of UTF-8 text: a string is its sequence of chars, and a byte
//! position is the encoded length of a prefix of that sequence.
use vstd::prelude::*;

verus! {

broadcast use vstd::string::group_string_axioms;

/// Number of bytes that the UTF-8 encoding of `c` takes.
pub open spec fn char_width(c: char) -> nat {
    if (c as u32) < 0x80 {
        1
    } else if (c as u32) < 0x800 {
        2
    } else if (c as u32) < 0x10000 {
        3
    } else {
        4
    }
}

/// Number of bytes that the UTF-8 encoding of `s` takes.
pub open spec fn byte_len(s: Seq<char>) -> nat
    decreases s.len(),
{
    if s.len() == 0 {
        0
    } else {
        byte_len(s.drop_last()) + char_width(s.last())
    }
}

/// Byte position at which the char with index `k` starts (or the end of
/// the text when `k` is the number of chars).
pub open spec fn byte_offset(s: Seq<char>, k: int) -> nat {
    byte_len(s.take(k))
}

/// Index of the last char boundary at or before byte position `b`, counted
/// in chars: the longest prefix whose encoding fits in `b` bytes.
pub open spec fn floor_char(s: Seq<char>, b: int) -> nat
    decreases s.len(),
{
    if s.len() == 0 || byte_len(s) <= b {
        s.len()
    } else {
        floor_char(s.drop_last(), b)
    }
}

/// Byte position `b` lies on a char boundary of `s`.
pub open spec fn is_boundary(s: Seq<char>, b: int) -> bool {
    0 <= b <= byte_len(s) && byte_offset(s, floor_char(s, b) as int) == b
}

/// A Rust string never holds more than `isize::MAX` bytes.
pub open spec fn len_fits(s: Seq<char>) -> bool {
    byte_len(s) <= isize::MAX
}

pub proof fn lemma_take_succ(s: Seq<char>, k: int)
    requires
        0 <= k < s.len(),
    ensures
        byte_offset(s, k + 1) == byte_offset(s, k) + char_width(s[k]),
{
    assert(s.take(k + 1).drop_last() =~= s.take(k));
}

pub proof fn lemma_offset_full(s: Seq<char>)
    ensures
        byte_offset(s, s.len() as int) == byte_len(s),
{
    assert(s.take(s.len() as int) =~= s);
}

pub proof fn lemma_offset_zero(s: Seq<char>)
    ensures
        byte_offset(s, 0) == 0,
{
    assert(s.take(0) =~= Seq::<char>::empty());
}

/// Byte offsets grow strictly with the char index.
pub proof fn lemma_offset_strict(s: Seq<char>, i: int, j: int)
    requires
        0 <= i < j <= s.len(),
    ensures
        byte_offset(s, i) < byte_offset(s, j),
        byte_offset(s, i) + (j - i) <= byte_offset(s, j),
    decreases j - i,
{
    lemma_take_succ(s, j - 1);
    if i < j - 1 {
        lemma_offset_strict(s, i, j - 1);
    }
}

pub proof fn lemma_offset_mono(s: Seq<char>, i: int, j: int)
    requires
        0 <= i <= j <= s.len(),
    ensures
        byte_offset(s, i) <= byte_offset(s, j),
{
    if i < j {
        lemma_offset_strict(s, i, j);
    }
}

pub proof fn lemma_offset_le_len(s: Seq<char>, i: int)
    requires
        0 <= i <= s.len(),
    ensures
        byte_offset(s, i) <= byte_len(s),
{
    lemma_offset_mono(s, i, s.len() as int);
    lemma_offset_full(s);
}

/// Offsets in a prefix of `s` agree with offsets in `s`.
pub proof fn lemma_offset_prefix(s: Seq<char>, n: int, i: int)
    requires
        0 <= i <= n <= s.len(),
    ensures
        byte_offset(s.take(n), i) == byte_offset(s, i),
{
    assert(s.take(n).take(i) =~= s.take(i));
}

/// The char found by `floor_char` starts at or before `b`, and the next one
/// (if any) starts after `b`.
pub proof fn lemma_floor_char(s: Seq<char>, b: int)
    requires
        0 <= b,
    ensures
        floor_char(s, b) <= s.len(),
        byte_offset(s, floor_char(s, b) as int) <= b,
        floor_char(s, b) < s.len() ==> b < byte_offset(s, floor_char(s, b) + 1int),
    decreases s.len(),
{
    lemma_offset_full(s);
    if s.len() == 0 || byte_len(s) <= b {
    } else {
        let t = s.drop_last();
        lemma_floor_char(t, b);
        let k = floor_char(t, b);
        assert(t =~= s.take(s.len() - 1));
        lemma_offset_prefix(s, s.len() - 1, k as int);
        if k < t.len() {
            lemma_offset_prefix(s, s.len() - 1, k + 1int);
        } else {
            lemma_offset_full(s);
        }
    }
}

/// The index that `floor_char` returns is the unique one that brackets `b`.
pub proof fn lemma_floor_char_unique(s: Seq<char>, b: int, k: int)
    requires
        0 <= k <= s.len(),
        byte_offset(s, k) <= b,
        k < s.len() ==> b < byte_offset(s, k + 1),
    ensures
        floor_char(s, b) == k,
{
    lemma_offset_zero(s);
    lemma_floor_char(s, b);
    let f = floor_char(s, b) as int;
    if f < k {
        lemma_offset_mono(s, f + 1, k);
    } else if k < f {
        lemma_offset_mono(s, k + 1, f);
    }
}

/// Every char index starts on a boundary.
pub proof fn lemma_offset_is_boundary(s: Seq<char>, k: int)
    requires
        0 <= k <= s.len(),
    ensures
        floor_char(s, byte_offset(s, k) as int) == k,
        is_boundary(s, byte_offset(s, k) as int),
{
    if k < s.len() {
        lemma_offset_strict(s, k, k + 1);
    }
    lemma_floor_char_unique(s, byte_offset(s, k) as int, k);
    lemma_offset_le_len(s, k);
}

/// Byte length of a concatenation.
pub proof fn lemma_byte_len_concat(a: Seq<char>, b: Seq<char>)
    ensures
        byte_len(a + b) == byte_len(a) + byte_len(b),
    decreases b.len(),
{
    if b.len() == 0 {
        assert(a + b =~= a);
    } else {
        assert((a + b).drop_last() =~= a + b.drop_last());
        lemma_byte_len_concat(a, b.drop_last());
    }
}

/// Offsets inside a slice of `s`, measured from the slice's start.
pub proof fn lemma_offset_subrange(s: Seq<char>, a: int, e: int, j: int)
    requires
        0 <= a <= e <= s.len(),
        0 <= j <= e - a,
    ensures
        byte_offset(s.subrange(a, e), j) + byte_offset(s, a) == byte_offset(s, a + j),
{
    assert(s.take(a + j) =~= s.take(a) + s.subrange(a, e).take(j));
    lemma_byte_len_concat(s.take(a), s.subrange(a, e).take(j));
}

proof fn lemma_scalar_width(c: char)
    ensures
        vstd::utf8::encode_scalar(c as u32).len() == char_width(c),
{
    vstd::utf8::char_is_scalar(c);
    let u = c as u32;
    if vstd::utf8::has_width_1_encoding(u) {
        assert(vstd::utf8::encode_scalar(u).len() == 1);
    } else if vstd::utf8::has_width_2_encoding(u) {
        assert(vstd::utf8::encode_scalar(u).len() == 2);
    } else if vstd::utf8::has_width_3_encoding(u) {
        assert(vstd::utf8::encode_scalar(u).len() == 3);
    } else {
        assert(vstd::utf8::encode_scalar(u).len() == 4);
    }
}

/// The model agrees with vstd's UTF-8 encoder: `byte_len` is the length of
/// the encoding, which is what `str::len` returns.
pub proof fn lemma_byte_len_is_encoded_len(s: Seq<char>)
    ensures
        vstd::utf8::encode_utf8(s).len() == byte_len(s),
    decreases s.len(),
{
    if s.len() > 0 {
        let c = s[0];
        lemma_scalar_width(c);
        assert(seq![c] + s.drop_first() =~= s);
        lemma_byte_len_concat(seq![c], s.drop_first());
        assert(seq![c].drop_last() =~= Seq::<char>::empty());
        assert(byte_len(Seq::<char>::empty()) == 0);
        assert(byte_len(seq![c]) == char_width(c));
        lemma_byte_len_is_encoded_len(s.drop_first());
        assert(vstd::utf8::encode_utf8(s) == vstd::utf8::encode_scalar(c as u32)
            + vstd::utf8::encode_utf8(s.drop_first()));
    }
}

/// What `char::is_alphanumeric` returns for `c`.
pub uninterp spec fn alphanumeric(c: char) -> bool;

/// The chars with Unicode's White_Space property: tab, line feed,
/// vertical tab, form feed, carriage return, space, next line, no-break
/// space, ogham space mark, the spaces from en quad to hair space, line and
/// paragraph separator, narrow no-break space, medium mathematical space and
/// ideographic space.
pub open spec fn whitespace(c: char) -> bool {
    let u = c as u32;
    (0x09 <= u <= 0x0d) || u == 0x20 || u == 0x85 || u == 0xa0 || u == 0x1680 || (0x2000 <= u
        <= 0x200a) || u == 0x2028 || u == 0x2029 || u == 0x202f || u == 0x205f || u == 0x3000
}

/// An ASCII letter or digit.
pub open spec fn ascii_alphanumeric(c: char) -> bool {
    'a' <= c <= 'z' || 'A' <= c <= 'Z' || '0' <= c <= '9'
}

/// Calls `char::is_alphanumeric`, the Unicode Alphabetic-or-Numeric test.
/// The contract names its result; beyond that it states what the
/// documentation makes plain for ASCII: exactly the letters and digits are
/// alphanumeric.
#[verifier::external_body]
pub(crate) fn char_is_alphanumeric(c: char) -> (r: bool)
    ensures
        r == alphanumeric(c),
        (c as u32) < 128 ==> (r <==> ascii_alphanumeric(c)),
{
    c.is_alphanumeric()
}

/// Calls `char::is_whitespace`, which the documentation defines as having
/// Unicode's White_Space property.
#[verifier::external_body]
pub(crate) fn char_is_whitespace(c: char) -> (r: bool)
    ensures
        r == whitespace(c),
{
    c.is_whitespace()
}

/// Exact byte width of a char.
pub fn char_utf8_width(c: char) -> (w: usize)
    ensures
        w == char_width(c),
{
    let u = c as u32;
    if u < 0x80 {
        1
    } else if u < 0x800 {
        2
    } else if u < 0x10000 {
        3
    } else {
        4
    }
}

/// The characters of a string slice, in order.
pub fn chars_of(s: &str) -> (v: Vec<char>)
    ensures
        v@ == s@,
{
    let mut v: Vec<char> = Vec::new();
    for c in it: s.chars()
        invariant
            v@ == it.seq().take(it.index() as int),
    {
        v.push(c);
    }
    v
}

/// Byte position of the char with index `k`.
pub fn offset_of(v: &Vec<char>, k: usize) -> (b: usize)
    requires
        k <= v@.len(),
        len_fits(v@),
    ensures
        b == byte_offset(v@, k as int),
{
    let mut i: usize = 0;
    let mut b: usize = 0;
    proof {
        lemma_offset_zero(v@);
    }
    while i < k
        invariant
            i <= k <= v@.len(),
            len_fits(v@),
            b == byte_offset(v@, i as int),
        decreases k - i,
    {
        proof {
            lemma_take_succ(v@, i as int);
            lemma_offset_le_len(v@, i + 1);
        }
        b = b + char_utf8_width(v[i]);
        i = i + 1;
    }
    b
}

/// Index of the char that holds byte position `b` (or the number of chars
/// when `b` lies at or past the end).
pub fn floor_index(v: &Vec<char>, b: usize) -> (k: usize)
    ensures
        k == floor_char(v@, b as int),
        k <= v@.len(),
{
    let mut i: usize = 0;
    let mut off: usize = 0;
    proof {
        lemma_offset_zero(v@);
    }
    while i < v.len() && char_utf8_width(v[i]) <= b - off
        invariant
            i <= v@.len(),
            off == byte_offset(v@, i as int),
            off <= b,
        decreases v@.len() - i,
    {
        proof {
            lemma_take_succ(v@, i as int);
        }
        off = off + char_utf8_width(v[i]);
        i = i + 1;
    }
    proof {
        if i < v@.len() {
            lemma_take_succ(v@, i as int);
        }
        lemma_floor_char_unique(v@, b as int, i as int);
    }
    i
}

/// The decimal digit for `d` (which is below ten).
pub open spec fn digit_char(d: nat) -> char {
    ((d + 48) as u32) as char
}

/// The decimal numeral of `n`, without leading zeros.
pub open spec fn decimal(n: nat) -> Seq<char>
    decreases n,
{
    if n < 10 {
        seq![digit_char(n)]
    } else {
        decimal(n / 10).push(digit_char(n % 10))
    }
}

/// Appends the decimal numeral of `n` to `s`.
pub fn push_decimal(s: &mut String, n: u64)
    ensures
        final(s)@ == old(s)@ + decimal(n as nat),
    decreases n,
{
    if n >= 10 {
        push_decimal(s, n / 10);
    }
    let d = (n % 10) as u32;
    let c = char_from_digit(d);
    push_char(s, c);
    proof {
        if n >= 10 {
            assert(decimal(n as nat) == decimal((n / 10) as nat).push(digit_char((n % 10) as nat)));
        }
    }
}

/// The decimal numeral of `n`, with a minus sign when negative.
pub open spec fn signed_decimal(n: int) -> Seq<char> {
    if n < 0 {
        seq!['-'] + decimal((-n) as nat)
    } else {
        decimal(n as nat)
    }
}

/// Appends the decimal numeral of `n` (signed) to `s`.
pub fn push_signed(s: &mut String, n: i64)
    ensures
        final(s)@ == old(s)@ + signed_decimal(n as int),
{
    if n < 0 {
        push_char(s, '-');
        let m: u64 = if n == i64::MIN {
            9223372036854775808u64
        } else {
            (-n) as u64
        };
        push_decimal(s, m);
        proof {
            assert(final(s)@ =~= old(s)@ + signed_decimal(n as int));
        }
    } else {
        push_decimal(s, n as u64);
    }
}

/// The digit char for a value below ten.
pub fn char_from_digit(d: u32) -> (c: char)
    requires
        d < 10,
    ensures
        c == digit_char(d as nat),
{
    match d {
        0 => '0',
        1 => '1',
        2 => '2',
        3 => '3',
        4 => '4',
        5 => '5',
        6 => '6',
        7 => '7',
        8 => '8',
        _ => '9',
    }
}

/// Appends the chars of `t` to `s`.
pub fn push_str(s: &mut String, t: &str)
    ensures
        final(s)@ == old(s)@ + t@,
{
    let v = chars_of(t);
    let mut i: usize = 0;
    while i < v.len()
        invariant
            i <= v@.len(),
            v@ == t@,
            s@ == old(s)@ + v@.take(i as int),
        decreases v@.len() - i,
    {
        proof {
            assert(v@.take(i + 1) =~= v@.take(i as int).push(v@[i as int]));
        }
        push_char(s, v[i]);
        i = i + 1;
        proof {
            assert(s@ =~= old(s)@ + v@.take(i as int));
        }
    }
    proof {
        assert(v@.take(v@.len() as int) =~= v@);
    }
}

/// Appends one char to a string.
#[verifier::external_body]
pub(crate) fn push_char(s: &mut String, c: char)
    ensures
        final(s)@ == old(s)@.push(c),
{
    s.push(c);
}

/// A string holding exactly the given chars.
pub fn string_of(v: &[char]) -> (s: String)
    ensures
        s@ == v@,
{
    let mut s = String::new();
    let mut i: usize = 0;
    while i < v.len()
        invariant
            i <= v@.len(),
            s@ == v@.take(i as int),
        decreases v@.len() - i,
    {
        proof {
            assert(v@.take(i + 1) =~= v@.take(i as int).push(v@[i as int]));
        }
        push_char(&mut s, v[i]);
        i = i + 1;
    }
    proof {
        assert(v@.take(v@.len() as int) =~= v@);
    }
    s
}

/// `pat` occurs in `s` at index `i`.
pub open spec fn occurs_at(s: Seq<char>, i: int, pat: Seq<char>) -> bool {
    0 <= i && i + pat.len() <= s.len() && s.subrange(i, i + pat.len()) == pat
}

/// How far past index `i` the first occurrence of the (non-empty) pattern
/// `pat` in `s` starts, if there is one.
pub open spec fn find_from(s: Seq<char>, pat: Seq<char>, i: int) -> Option<nat>
    decreases s.len() - i,
{
    if i < 0 || pat.len() == 0 || i + pat.len() > s.len() {
        None
    } else if occurs_at(s, i, pat) {
        Some(0)
    } else {
        match find_from(s, pat, i + 1) {
            Some(d) => Some(d + 1),
            None => None,
        }
    }
}

pub proof fn lemma_find_from_step(s: Seq<char>, pat: Seq<char>, i: int)
    requires
        0 <= i,
        pat.len() > 0,
        i + pat.len() <= s.len(),
        !occurs_at(s, i, pat),
    ensures
        find_from(s, pat, i) == match find_from(s, pat, i + 1) {
            Some(d) => Some(d + 1),
            None => None::<nat>,
        },
{
}

pub proof fn lemma_find_from_found(s: Seq<char>, pat: Seq<char>, i: int)
    requires
        0 <= i,
        find_from(s, pat, i) is Some,
    ensures
        occurs_at(s, i + find_from(s, pat, i)->0, pat),
        forall|j: int| i <= j < i + find_from(s, pat, i)->0 ==> !occurs_at(s, j, pat),
    decreases s.len() - i,
{
    if !occurs_at(s, i, pat) {
        lemma_find_from_found(s, pat, i + 1);
    }
}

/// With no occurrence found from `i` on, the pattern occurs nowhere from `i`
/// on.
pub proof fn lemma_find_from_none(s: Seq<char>, pat: Seq<char>, i: int)
    requires
        0 <= i,
        pat.len() > 0,
        find_from(s, pat, i) is None,
    ensures
        forall|j: int| i <= j ==> !#[trigger] occurs_at(s, j, pat),
    decreases s.len() - i,
{
    if i + pat.len() <= s.len() {
        lemma_find_from_none(s, pat, i + 1);
    }
}

/// With the pattern occurring nowhere from `i` on, nothing is found.
pub proof fn lemma_find_from_absent(s: Seq<char>, pat: Seq<char>, i: int)
    requires
        0 <= i,
        forall|j: int| i <= j ==> !#[trigger] occurs_at(s, j, pat),
    ensures
        find_from(s, pat, i) is None,
    decreases s.len() - i,
{
    if i + pat.len() <= s.len() && pat.len() > 0 {
        assert(!occurs_at(s, i, pat));
        lemma_find_from_absent(s, pat, i + 1);
    }
}

/// The first occurrence from `i` on is the one `d` past `i` when the
/// pattern occurs there and nowhere between.
pub proof fn lemma_find_from_first(s: Seq<char>, pat: Seq<char>, i: int, d: int)
    requires
        0 <= i,
        0 <= d,
        pat.len() > 0,
        occurs_at(s, i + d, pat),
        forall|j: int| i <= j < i + d ==> !#[trigger] occurs_at(s, j, pat),
    ensures
        find_from(s, pat, i) == Some(d as nat),
    decreases d,
{
    if d > 0 {
        assert(!occurs_at(s, i, pat));
        lemma_find_from_first(s, pat, i + 1, d - 1);
    }
}

/// Searching `a + b` from inside `b` is searching `b`.
pub proof fn lemma_find_from_shift(a: Seq<char>, b: Seq<char>, pat: Seq<char>, k: int)
    requires
        0 <= k,
    ensures
        find_from(a + b, pat, a.len() + k) == find_from(b, pat, k),
    decreases b.len() - k,
{
    let s = a + b;
    if pat.len() > 0 && k + pat.len() <= b.len() {
        assert(s.subrange(a.len() + k, a.len() + k + pat.len()) =~= b.subrange(k, k + pat.len()));
        lemma_find_from_shift(a, b, pat, k + 1);
    }
}

/// The chars of `v` from `a` up to `b`.
pub fn sub_chars(v: &Vec<char>, a: usize, b: usize) -> (r: Vec<char>)
    requires
        a <= b <= v@.len(),
    ensures
        r@ == v@.subrange(a as int, b as int),
{
    let mut r: Vec<char> = Vec::new();
    let mut i = a;
    while i < b
        invariant
            a <= i <= b <= v@.len(),
            r@ == v@.subrange(a as int, i as int),
        decreases b - i,
    {
        r.push(v[i]);
        i = i + 1;
        proof {
            assert(r@ =~= v@.subrange(a as int, i as int));
        }
    }
    r
}

/// Whether `pat` occurs in `v` at index `i`.
pub fn occurs_at_index(v: &Vec<char>, i: usize, pat: &Vec<char>) -> (r: bool)
    ensures
        r == occurs_at(v@, i as int, pat@),
{
    if pat.len() > v.len() || i > v.len() - pat.len() {
        return false;
    }
    let mut k: usize = 0;
    while k < pat.len()
        invariant
            k <= pat@.len(),
            i + pat@.len() <= v@.len(),
            v@.len() == v.len(),
            v@.subrange(i as int, i + k) == pat@.take(k as int),
        decreases pat@.len() - k,
    {
        if v[i + k] != pat[k] {
            proof {
                assert(v@.subrange(i as int, i + pat@.len())[k as int] == v@[i + k]);
            }
            return false;
        }
        k = k + 1;
        proof {
            assert(v@.subrange(i as int, i + k) =~= pat@.take(k as int));
        }
    }
    proof {
        assert(pat@.take(pat@.len() as int) =~= pat@);
    }
    true
}

/// Index of the first occurrence of the (non-empty) pattern `pat` in `v` at
/// or after `i`.
pub fn find_at(v: &Vec<char>, pat: &Vec<char>, i: usize) -> (r: Option<usize>)
    ensures
        match find_from(v@, pat@, i as int) {
            None => r is None,
            Some(d) => r is Some && r->0 == i + d,
        },
{
    if pat.len() == 0 {
        return None;
    }
    let mut j = i;
    while j <= v.len() && pat.len() <= v.len() - j
        invariant
            i <= j,
            pat@.len() > 0,
            find_from(v@, pat@, i as int) == match find_from(v@, pat@, j as int) {
                Some(d) => Some((d + (j - i)) as nat),
                None => None::<nat>,
            },
        decreases v@.len() + 1 - j,
    {
        if occurs_at_index(v, j, pat) {
            return Some(j);
        }
        proof {
            lemma_find_from_step(v@, pat@, j as int);
        }
        j = j + 1;
    }
    None
}

/// `pat` occurs somewhere in `s` (the empty pattern occurs everywhere).
pub open spec fn contains(s: Seq<char>, pat: Seq<char>) -> bool {
    pat.len() == 0 || find_from(s, pat, 0) is Some
}

/// Whether `pat` occurs in `v`.
pub fn contains_chars(v: &Vec<char>, pat: &Vec<char>) -> (r: bool)
    ensures
        r == contains(v@, pat@),
{
    if pat.len() == 0 {
        return true;
    }
    find_at(v, pat, 0).is_some()
}

/// Index just past the run of whitespace that starts at `i`.
pub open spec fn skip_whitespace(s: Seq<char>, i: int) -> int
    decreases s.len() - i,
{
    if 0 <= i < s.len() && whitespace(s[i]) {
        skip_whitespace(s, i + 1)
    } else {
        i
    }
}

/// Index where the run of whitespace that ends at `j` starts.
pub open spec fn back_whitespace(s: Seq<char>, j: int) -> int
    decreases j,
{
    if 0 < j <= s.len() && whitespace(s[j - 1]) {
        back_whitespace(s, j - 1)
    } else {
        j
    }
}

/// `s` without leading and trailing whitespace, as `str::trim` gives it.
pub open spec fn trim(s: Seq<char>) -> Seq<char> {
    let a = skip_whitespace(s, 0);
    if a >= s.len() {
        Seq::empty()
    } else {
        s.subrange(a, back_whitespace(s, s.len() as int))
    }
}

/// `s` without trailing whitespace, as `str::trim_end` gives it.
pub open spec fn trim_end(s: Seq<char>) -> Seq<char> {
    s.take(back_whitespace(s, s.len() as int))
}

pub proof fn lemma_skip_whitespace(s: Seq<char>, i: int)
    requires
        0 <= i <= s.len(),
    ensures
        i <= skip_whitespace(s, i) <= s.len(),
        skip_whitespace(s, i) < s.len() ==> !whitespace(s[skip_whitespace(s, i)]),
    decreases s.len() - i,
{
    if i < s.len() && whitespace(s[i]) {
        lemma_skip_whitespace(s, i + 1);
    }
}

pub proof fn lemma_back_whitespace(s: Seq<char>, j: int)
    requires
        0 <= j <= s.len(),
    ensures
        0 <= back_whitespace(s, j) <= j,
        back_whitespace(s, j) > 0 ==> !whitespace(s[back_whitespace(s, j) - 1]),
        forall|k: int| back_whitespace(s, j) <= k < j ==> whitespace(s[k]),
    decreases j,
{
    if j > 0 && whitespace(s[j - 1]) {
        lemma_back_whitespace(s, j - 1);
    }
}

/// The chars of `v` without leading and trailing whitespace.
pub fn trim_chars(v: &Vec<char>) -> (r: Vec<char>)
    ensures
        r@ == trim(v@),
{
    let mut a: usize = 0;
    while a < v.len() && char_is_whitespace(v[a])
        invariant
            a <= v@.len(),
            skip_whitespace(v@, a as int) == skip_whitespace(v@, 0),
        decreases v@.len() - a,
    {
        a = a + 1;
    }
    if a >= v.len() {
        return Vec::new();
    }
    let mut b: usize = v.len();
    while b > 0 && char_is_whitespace(v[b - 1])
        invariant
            b <= v@.len(),
            back_whitespace(v@, b as int) == back_whitespace(v@, v@.len() as int),
        decreases b,
    {
        b = b - 1;
    }
    proof {
        lemma_back_whitespace(v@, v@.len() as int);
        if b <= a {
            assert(whitespace(v@[a as int]));
        }
    }
    sub_chars(v, a, b)
}

/// The chars of `v` without trailing whitespace.
pub fn trim_end_chars(v: &Vec<char>) -> (r: Vec<char>)
    ensures
        r@ == trim_end(v@),
{
    let mut b: usize = v.len();
    while b > 0 && char_is_whitespace(v[b - 1])
        invariant
            b <= v@.len(),
            back_whitespace(v@, b as int) == back_whitespace(v@, v@.len() as int),
        decreases b,
    {
        b = b - 1;
    }
    proof {
        assert(v@.subrange(0, b as int) =~= v@.take(b as int));
    }
    sub_chars(v, 0, b)
}

/// What `str::to_lowercase` returns for `s`.
pub uninterp spec fn lowercase(s: Seq<char>) -> Seq<char>;

/// Calls `str::to_lowercase`, Unicode lowercasing. The contract names its
/// result and states nothing more of it.
#[verifier::external_body]
pub(crate) fn to_lowercase(s: &str) -> (r: String)
    ensures
        r@ == lowercase(s@),
{
    s.to_lowercase()
}

/// Calls `str::len`: the length of `s` in bytes, which is the length of
/// its UTF-8 encoding.
#[verifier::external_body]
pub(crate) fn str_len(s: &str) -> (r: usize)
    ensures
        r == byte_len(s@),
{
    s.len()
}

} // verus!
