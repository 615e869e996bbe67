//! Character-level helpers shared by the parsers and command builders.
//!
//! Strings are modelled by their `Seq<char>` view. Every helper here is
//! verified against a spec function that says, in the most direct form
//! available, what the standard library operation it stands in for returns.
use vstd::prelude::*;

verus! {

/// The characters of `s`, in order.
pub fn str_chars(s: &str) -> (v: Vec<char>)
    ensures
        v@ == s@,
{
    let mut v: Vec<char> = Vec::new();
    for c in it: s.chars()
        invariant
            v@ == it.seq().take(it.index() as int),
    {
        v.push(c);
    }
    v
}

/// Builds an owned `String` from a character vector.
///
/// Calls `String::from_iter` over the characters; trusted to produce a
/// string whose characters are exactly `v`, in order.
#[verifier::external_body]
pub(crate) fn string_from_chars(v: &Vec<char>) -> (s: String)
    ensures
        s@ == v@,
{
    String::from_iter(v.iter())
}

/// Owned copy of `s`.
pub fn string_of(s: &str) -> (r: String)
    ensures
        r@ == s@,
{
    s.to_owned()
}

/// Appends every character of `s` to `out`.
pub fn push_str(out: &mut Vec<char>, s: &str)
    ensures
        final(out)@ == old(out)@ + s@,
{
    let v = str_chars(s);
    push_chars(out, &v);
}

/// Appends every character of `v` to `out`.
pub fn push_chars(out: &mut Vec<char>, v: &Vec<char>)
    ensures
        final(out)@ == old(out)@ + v@,
{
    let ghost start = out@;
    let mut i: usize = 0;
    while i < v.len()
        invariant
            i <= v.len(),
            out@ == start + v@.take(i as int),
        decreases v.len() - i,
    {
        out.push(v[i]);
        i = i + 1;
        assert(v@.take(i as int) =~= v@.take((i - 1) as int).push(v@[i - 1]));
    }
    assert(v@.take(i as int) =~= v@);
}

/// An owned copy of `s`.
pub fn copy_chars(s: &[char]) -> (v: Vec<char>)
    ensures
        v@ == s@,
{
    let mut v: Vec<char> = Vec::new();
    let mut i: usize = 0;
    while i < s.len()
        invariant
            i <= s.len(),
            v@ == s@.take(i as int),
        decreases s.len() - i,
    {
        v.push(s[i]);
        i = i + 1;
        assert(v@ =~= s@.take(i as int));
    }
    assert(s@.take(i as int) =~= s@);
    v
}

/// Character-wise equality.
pub fn chars_eq(a: &[char], b: &[char]) -> (r: bool)
    ensures
        r == (a@ == b@),
{
    if a.len() != b.len() {
        return false;
    }
    let mut i: usize = 0;
    while i < a.len()
        invariant
            a@.len() == b@.len(),
            i <= a.len(),
            forall|j: int| 0 <= j < i ==> a@[j] == b@[j],
        decreases a.len() - i,
    {
        if a[i] != b[i] {
            return false;
        }
        i = i + 1;
    }
    assert(a@ =~= b@);
    true
}

/// `true` iff the characters of `s` equal those of `lit`.
pub fn str_is(s: &str, lit: &str) -> (r: bool)
    ensures
        r == (s@ == lit@),
{
    let a = str_chars(s);
    let b = str_chars(lit);
    chars_eq(a.as_slice(), b.as_slice())
}

/// `true` iff `c` occurs in `s`.
pub open spec fn has_char(s: Seq<char>, c: char) -> bool {
    exists|i: int| 0 <= i < s.len() && s[i] == c
}

/// Whether `c` occurs in `s`.
pub fn contains_char(s: &[char], c: char) -> (r: bool)
    ensures
        r == has_char(s@, c),
{
    let mut i: usize = 0;
    while i < s.len()
        invariant
            i <= s.len(),
            forall|j: int| 0 <= j < i ==> s@[j] != c,
        decreases s.len() - i,
    {
        if s[i] == c {
            return true;
        }
        i = i + 1;
    }
    false
}

/// `true` iff `s` begins with `p`.
pub open spec fn starts_with(s: Seq<char>, p: Seq<char>) -> bool {
    p.len() <= s.len() && s.take(p.len() as int) == p
}

/// Whether `s` begins with the characters of `p`.
pub fn has_prefix(s: &[char], p: &[char]) -> (r: bool)
    ensures
        r == starts_with(s@, p@),
{
    if p.len() > s.len() {
        return false;
    }
    let mut i: usize = 0;
    while i < p.len()
        invariant
            p@.len() <= s@.len(),
            i <= p.len(),
            forall|j: int| 0 <= j < i ==> s@[j] == p@[j],
        decreases p.len() - i,
    {
        if s[i] != p[i] {
            assert(s@.take(p@.len() as int)[i as int] != p@[i as int]);
            return false;
        }
        i = i + 1;
    }
    assert(s@.take(p@.len() as int) =~= p@);
    true
}

// ---------------------------------------------------------------------------
// ASCII case folding
// ---------------------------------------------------------------------------
/// The code point of `c` with ASCII upper-case letters mapped to lower case.
pub open spec fn ascii_fold(c: char) -> u32 {
    let v = c as u32;
    if 65 <= v <= 90 {
        (v + 32) as u32
    } else {
        v
    }
}

/// Equality up to ASCII case, as `str::eq_ignore_ascii_case` defines it.
pub open spec fn eq_ignore_ascii_case_spec(a: Seq<char>, b: Seq<char>) -> bool {
    a.len() == b.len() && forall|i: int| 0 <= i < a.len() ==> ascii_fold(a[i]) == ascii_fold(b[i])
}

fn fold(c: char) -> (r: u32)
    ensures
        r == ascii_fold(c),
{
    let v = c as u32;
    if 65 <= v && v <= 90 {
        v + 32
    } else {
        v
    }
}

/// Compares two character sequences ignoring ASCII case.
pub fn eq_ignore_ascii_case(a: &[char], b: &[char]) -> (r: bool)
    ensures
        r == eq_ignore_ascii_case_spec(a@, b@),
{
    if a.len() != b.len() {
        return false;
    }
    let mut i: usize = 0;
    while i < a.len()
        invariant
            a@.len() == b@.len(),
            i <= a.len(),
            forall|j: int| 0 <= j < i ==> ascii_fold(a@[j]) == ascii_fold(b@[j]),
        decreases a.len() - i,
    {
        if fold(a[i]) != fold(b[i]) {
            return false;
        }
        i = i + 1;
    }
    true
}

// ---------------------------------------------------------------------------
// Decimal rendering
// ---------------------------------------------------------------------------
/// The ASCII digit for `d` (`0 <= d < 10`).
pub open spec fn digit_char(d: int) -> char {
    (48 + d) as char
}

/// Decimal digits of a natural number, without leading zeros ("0" for 0).
pub open spec fn nat_digits(n: nat) -> Seq<char>
    decreases n,
{
    if n < 10 {
        seq![digit_char(n as int)]
    } else {
        nat_digits(n / 10).push(digit_char((n % 10) as int))
    }
}

/// The text that `Display` gives for an integer: an optional `-` followed by
/// the decimal digits of its magnitude.
pub open spec fn decimal(n: int) -> Seq<char> {
    if n < 0 {
        seq!['-'] + nat_digits((-n) as nat)
    } else {
        nat_digits(n as nat)
    }
}

fn digit(d: u64) -> (c: char)
    requires
        d < 10,
    ensures
        c == digit_char(d as int),
{
    if d == 0 { '0' }
    else if d == 1 { '1' }
    else if d == 2 { '2' }
    else if d == 3 { '3' }
    else if d == 4 { '4' }
    else if d == 5 { '5' }
    else if d == 6 { '6' }
    else if d == 7 { '7' }
    else if d == 8 { '8' }
    else { '9' }
}

/// Appends the decimal digits of `n`.
pub fn push_nat_digits(out: &mut Vec<char>, n: u64)
    ensures
        final(out)@ == old(out)@ + nat_digits(n as nat),
    decreases n,
{
    if n < 10 {
        out.push(digit(n));
    } else {
        push_nat_digits(out, n / 10);
        out.push(digit(n % 10));
        assert(nat_digits(n as nat) == nat_digits((n / 10) as nat).push(digit_char((n % 10) as int)));
    }
}

/// Appends the `Display` text of `n`.
pub fn push_decimal(out: &mut Vec<char>, n: i64)
    ensures
        final(out)@ == old(out)@ + decimal(n as int),
{
    if n < 0 {
        out.push('-');
        let m: u64 = if n == i64::MIN {
            9223372036854775808u64
        } else {
            (-n) as u64
        };
        push_nat_digits(out, m);
        assert(old(out)@.push('-') + nat_digits(m as nat) =~= old(out)@ + (seq!['-'] + nat_digits(m as nat)));
    } else {
        push_nat_digits(out, n as u64);
    }
}

// ---------------------------------------------------------------------------
// Integer parsing (`FromStr` for the primitive integers)
// ---------------------------------------------------------------------------
/// `true` iff `c` is an ASCII decimal digit.
pub open spec fn is_digit(c: char) -> bool {
    '0' <= c && c <= '9'
}

/// The value of a run of decimal digits (most significant first).
pub open spec fn digits_value(d: Seq<char>) -> nat
    decreases d.len(),
{
    if d.len() == 0 {
        0
    } else {
        digits_value(d.drop_last()) * 10 + ((d.last() as u32) - 48) as nat
    }
}

/// `true` iff every character of `d` is an ASCII digit.
pub open spec fn all_digits(d: Seq<char>) -> bool {
    forall|i: int| 0 <= i < d.len() ==> is_digit(#[trigger] d[i])
}

/// Number of leading sign characters that `FromStr` accepts: a `+`, or for
/// signed types a `-`.
pub open spec fn sign_len(s: Seq<char>, signed: bool) -> int {
    if s.len() > 0 && (s[0] == '+' || (signed && s[0] == '-')) {
        1
    } else {
        0
    }
}

/// What `<iN as FromStr>::from_str` / `<uN as FromStr>::from_str` computes,
/// before the range check: an optional `+` (or, for signed types, `-`)
/// followed by one or more ASCII digits and nothing else.
pub open spec fn parse_int_spec(s: Seq<char>, signed: bool) -> Option<int> {
    let d = s.subrange(sign_len(s, signed), s.len() as int);
    if d.len() > 0 && all_digits(d) {
        Some(
            if s.len() > 0 && s[0] == '-' && signed {
                -(digits_value(d) as int)
            } else {
                digits_value(d) as int
            },
        )
    } else {
        None
    }
}

/// `parse_int_spec` with the target type's range applied.
pub open spec fn parse_in_range(s: Seq<char>, signed: bool, lo: int, hi: int) -> Option<int> {
    match parse_int_spec(s, signed) {
        Some(v) => if lo <= v <= hi { Some(v) } else { None },
        None => None,
    }
}

proof fn lemma_digits_value_prefix_step(d: Seq<char>, i: int)
    requires
        0 <= i < d.len(),
    ensures
        digits_value(d.take(i + 1)) == digits_value(d.take(i)) * 10 + ((d[i] as u32) - 48) as nat,
{
    assert(d.take(i + 1).drop_last() =~= d.take(i));
}

proof fn lemma_digits_value_monotone(d: Seq<char>, i: int)
    requires
        0 <= i <= d.len(),
    ensures
        digits_value(d.take(i)) <= digits_value(d),
    decreases d.len() - i,
{
    if i < d.len() {
        lemma_digits_value_prefix_step(d, i);
        lemma_digits_value_monotone(d, i + 1);
    } else {
        assert(d.take(i) =~= d);
    }
}

/// The decimal digits of `n` are one or more ASCII digits whose value is
/// `n`.
pub proof fn lemma_nat_digits_value(n: nat)
    ensures
        nat_digits(n).len() > 0,
        all_digits(nat_digits(n)),
        digits_value(nat_digits(n)) == n,
    decreases n,
{
    if n < 10 {
        let s = nat_digits(n);
        assert(s =~= seq![digit_char(n as int)]);
        assert(s.drop_last() =~= Seq::<char>::empty());
        assert((digit_char(n as int) as u32) == 48 + n);
        assert(digits_value(s) == digits_value(s.drop_last()) * 10 + ((s.last() as u32) - 48) as nat);
        assert(digits_value(Seq::<char>::empty()) == 0);
    } else {
        lemma_nat_digits_value(n / 10);
        let p = nat_digits(n / 10);
        let c = digit_char((n % 10) as int);
        assert((c as u32) == 48 + n % 10);
        assert(nat_digits(n).drop_last() =~= p);
        assert(nat_digits(n).last() == c);
        assert(digits_value(nat_digits(n)) == digits_value(p) * 10 + (n % 10));
        assert(n == (n / 10) * 10 + n % 10);
    }
}

/// Trimming leaves a run of decimal digits unchanged (digits are not white
/// space).
pub proof fn lemma_trim_digits(n: nat)
    ensures
        trim(nat_digits(n)) == nat_digits(n),
{
    lemma_nat_digits_value(n);
    let s = nat_digits(n);
    assert(is_digit(s[0]));
    assert(!is_unicode_ws(s[0]));
    assert(trim_start(s) == s);
    assert(is_digit(s[s.len() - 1]));
    assert(!is_unicode_ws(s.last()));
    assert(trim_end(s) == s);
}

/// Reading back the decimal text of `n` (trimmed, as an integer of any
/// type whose range holds `n`) gives `n`.
pub proof fn lemma_decimal_round_trip(n: nat, signed: bool, lo: int, hi: int)
    requires
        lo <= n <= hi,
    ensures
        parse_in_range(trim(nat_digits(n)), signed, lo, hi) == Some(n as int),
{
    lemma_trim_digits(n);
    lemma_nat_digits_value(n);
    let s = nat_digits(n);
    assert(is_digit(s[0]));
    assert(sign_len(s, signed) == 0);
    assert(s.subrange(0, s.len() as int) =~= s);
}

/// Parses `s` as a decimal integer in `[lo, hi]`, as the integer `FromStr`
/// impls of the standard library do.
pub fn parse_int(s: &[char], signed: bool, lo: i128, hi: i128) -> (r: Option<i128>)
    requires
        -18446744073709551616 <= lo <= 0,
        0 <= hi <= 18446744073709551616,
    ensures
        r == (match parse_in_range(s@, signed, lo as int, hi as int) {
            Some(v) => Some(v as i128),
            None => None::<i128>,
        }),
{
    let n = s.len();
    let neg = n > 0 && s[0] == '-' && signed;
    let skip: usize = if n > 0 && (s[0] == '+' || (signed && s[0] == '-')) { 1 } else { 0 };
    let ghost d = s@.subrange(skip as int, n as int);
    if skip >= n {
        assert(d.len() == 0);
        return None;
    }
    let limit: u128 = 18446744073709551617;
    let mut acc: u128 = 0;
    let mut overflow = false;
    let mut i: usize = skip;
    while i < n
        invariant
            skip <= i <= n,
            n == s@.len(),
            d == s@.subrange(skip as int, n as int),
            skip == sign_len(s@, signed),
            forall|j: int| 0 <= j < i - skip ==> is_digit(#[trigger] d[j]),
            !overflow ==> acc == digits_value(d.take(i - skip)),
            overflow ==> digits_value(d.take(i - skip)) >= limit,
            acc <= limit,
            limit == 18446744073709551617u128,
        decreases n - i,
    {
        let c = s[i];
        assert(d[i - skip] == c);
        if !('0' <= c && c <= '9') {
            assert(!is_digit(d[i - skip]));
            assert(!all_digits(d));
            return None;
        }
        proof {
            lemma_digits_value_prefix_step(d, i - skip);
            assert(digits_value(d.take(i - skip + 1)) >= digits_value(d.take(i - skip)));
        }
        if !overflow {
            let v = (c as u32 - 48) as u128;
            if acc > 1844674407370955161 {
                overflow = true;
            } else {
                acc = acc * 10 + v;
                if acc >= limit {
                    overflow = true;
                    acc = limit;
                }
            }
        }
        i = i + 1;
    }
    assert(d.take(d.len() as int) =~= d);
    if overflow {
        return None;
    }
    let val: i128 = if neg { -(acc as i128) } else { acc as i128 };
    if lo <= val && val <= hi {
        Some(val)
    } else {
        None
    }
}

/// `s.parse::<i32>().ok()`.
pub fn parse_i32(s: &str) -> (r: Option<i32>)
    ensures
        r == (match parse_in_range(s@, true, i32::MIN as int, i32::MAX as int) {
            Some(v) => Some(v as i32),
            None => None::<i32>,
        }),
{
    let c = str_chars(s);
    match parse_int(c.as_slice(), true, i32::MIN as i128, i32::MAX as i128) {
        Some(v) => Some(v as i32),
        None => None,
    }
}

/// `s.parse::<u64>().ok()`.
pub fn parse_u64(s: &str) -> (r: Option<u64>)
    ensures
        r == (match parse_in_range(s@, false, 0, u64::MAX as int) {
            Some(v) => Some(v as u64),
            None => None::<u64>,
        }),
{
    let c = str_chars(s);
    match parse_int(c.as_slice(), false, 0, u64::MAX as i128) {
        Some(v) => Some(v as u64),
        None => None,
    }
}

// ---------------------------------------------------------------------------
// Whitespace trimming (`str::trim`)
// ---------------------------------------------------------------------------
/// The Unicode `White_Space` property, which `char::is_whitespace` tests.
pub open spec fn is_unicode_ws(c: char) -> bool {
    let v = c as u32;
    (0x9 <= v <= 0xD) || v == 0x20 || v == 0x85 || v == 0xA0 || v == 0x1680 || (0x2000 <= v
        <= 0x200A) || v == 0x2028 || v == 0x2029 || v == 0x202F || v == 0x205F || v == 0x3000
}

fn is_ws(c: char) -> (r: bool)
    ensures
        r == is_unicode_ws(c),
{
    let v = c as u32;
    (0x9 <= v && v <= 0xD) || v == 0x20 || v == 0x85 || v == 0xA0 || v == 0x1680 || (0x2000 <= v
        && v <= 0x200A) || v == 0x2028 || v == 0x2029 || v == 0x202F || v == 0x205F || v == 0x3000
}

/// `s` without its leading white space.
pub open spec fn trim_start(s: Seq<char>) -> Seq<char>
    decreases s.len(),
{
    if s.len() > 0 && is_unicode_ws(s[0]) {
        trim_start(s.drop_first())
    } else {
        s
    }
}

/// `s` without its trailing white space.
pub open spec fn trim_end(s: Seq<char>) -> Seq<char>
    decreases s.len(),
{
    if s.len() > 0 && is_unicode_ws(s.last()) {
        trim_end(s.drop_last())
    } else {
        s
    }
}

/// What `str::trim` returns.
pub open spec fn trim(s: Seq<char>) -> Seq<char> {
    trim_end(trim_start(s))
}

/// The characters of `s` with leading and trailing white space removed.
pub fn trimmed(s: &[char]) -> (r: Vec<char>)
    ensures
        r@ == trim(s@),
{
    let n = s.len();
    let mut a: usize = 0;
    assert(s@.subrange(0, n as int) =~= s@);
    while a < n && is_ws(s[a])
        invariant
            a <= n,
            n == s@.len(),
            trim_start(s@) == trim_start(s@.subrange(a as int, n as int)),
        decreases n - a,
    {
        assert(s@.subrange(a as int, n as int).drop_first() =~= s@.subrange(a + 1, n as int));
        a = a + 1;
    }
    let ghost t = s@.subrange(a as int, n as int);
    assert(trim_start(s@) == t);
    let mut b: usize = n;
    while b > a && is_ws(s[b - 1])
        invariant
            a <= b <= n,
            n == s@.len(),
            t == s@.subrange(a as int, n as int),
            trim_end(t) == trim_end(s@.subrange(a as int, b as int)),
        decreases b,
    {
        assert(s@.subrange(a as int, b as int).drop_last() =~= s@.subrange(a as int, b - 1));
        b = b - 1;
    }
    let mut out: Vec<char> = Vec::new();
    let mut k: usize = a;
    while k < b
        invariant
            a <= k <= b,
            b <= n,
            n == s@.len(),
            out@ == s@.subrange(a as int, k as int),
        decreases b - k,
    {
        out.push(s[k]);
        k = k + 1;
        assert(out@ =~= s@.subrange(a as int, k as int));
    }
    out
}

/// How `Debug` renders a string: in double quotes, with quotes,
/// backslashes and non-printable characters escaped.
pub uninterp spec fn debug_quoted(s: Seq<char>) -> Seq<char>;

/// Renders `s` with `format!("{s:?}")`, std's `Debug` for `str`; the
/// escaping is named by [`debug_quoted`], not spelled out.
#[verifier::external_body]
pub(crate) fn debug_string(s: &str) -> (r: String)
    ensures
        r@ == debug_quoted(s@),
{
    format!("{s:?}")
}

} // verus!
