//! Text building blocks: decimal notation of integers, prefixes, trimming.
use vstd::prelude::*;

verus! {

/// The character that writes the decimal digit `d`.
pub open spec fn digit_char(d: int) -> char {
    if d == 0 {
        '0'
    } else if d == 1 {
        '1'
    } else if d == 2 {
        '2'
    } else if d == 3 {
        '3'
    } else if d == 4 {
        '4'
    } else if d == 5 {
        '5'
    } else if d == 6 {
        '6'
    } else if d == 7 {
        '7'
    } else if d == 8 {
        '8'
    } else {
        '9'
    }
}

/// Decimal notation of a natural number: no sign, no leading zeros.
pub open spec fn decimal_nat(n: nat) -> Seq<char>
    decreases n,
{
    if n < 10 {
        seq![digit_char(n as int)]
    } else {
        decimal_nat(n / 10).push(digit_char((n % 10) as int))
    }
}

/// Decimal notation of an integer, as `Display` writes it for Rust's integer types.
pub open spec fn decimal(i: int) -> Seq<char> {
    if i < 0 {
        seq!['-'] + decimal_nat((-i) as nat)
    } else {
        decimal_nat(i as nat)
    }
}

/// The number that a string of decimal digits writes.
pub open spec fn decimal_value(s: Seq<char>) -> int
    decreases s.len(),
{
    if s.len() == 0 {
        0
    } else {
        decimal_value(s.drop_last()) * 10 + ((s.last() as int) - ('0' as int))
    }
}

proof fn lemma_digit_value(d: int)
    requires
        0 <= d < 10,
    ensures
        (digit_char(d) as int) - ('0' as int) == d,
        '0' <= digit_char(d) <= '9',
{
    assert(('0' as int) == 48);
    assert(('9' as int) == 57);
}

/// Decimal notation writes exactly the number: it reads back as `n`, uses
/// only the digits `0` to `9`, and begins with `0` only when it is `0`.
pub proof fn lemma_decimal_reads_back(n: nat)
    ensures
        decimal_value(decimal_nat(n)) == n,
        forall|i: int|
            0 <= i < decimal_nat(n).len() ==> '0' <= #[trigger] decimal_nat(n)[i] <= '9',
        decimal_nat(n).len() >= 1,
        decimal_nat(n)[0] == '0' ==> n == 0,
    decreases n,
{
    if n < 10 {
        lemma_digit_value(n as int);
        assert(decimal_nat(n) =~= seq![digit_char(n as int)]);
        assert(seq![digit_char(n as int)].drop_last() =~= Seq::<char>::empty());
        assert(decimal_value(seq![digit_char(n as int)]) == decimal_value(Seq::<char>::empty()) * 10
            + ((digit_char(n as int) as int) - ('0' as int)));
    } else {
        lemma_decimal_reads_back(n / 10);
        lemma_digit_value((n % 10) as int);
        let p = decimal_nat(n / 10);
        let d = digit_char((n % 10) as int);
        assert(decimal_nat(n) == p.push(d));
        assert(p.push(d).drop_last() =~= p);
        assert(p.push(d)[0] == p[0]);
        assert(decimal_value(p.push(d)) == decimal_value(p) * 10 + ((d as int) - ('0' as int)));
        assert((n / 10) * 10 + n % 10 == n);
    }
}

/// Appends one character; `String::push`.
#[verifier::external_body]
pub fn push_char(s: &mut String, c: char)
    ensures
        final(s)@ == old(s)@.push(c),
{
    s.push(c)
}

fn digit(d: u64) -> (c: char)
    requires
        d < 10,
    ensures
        c == digit_char(d as int),
{
    if d == 0 {
        '0'
    } else if d == 1 {
        '1'
    } else if d == 2 {
        '2'
    } else if d == 3 {
        '3'
    } else if d == 4 {
        '4'
    } else if d == 5 {
        '5'
    } else if d == 6 {
        '6'
    } else if d == 7 {
        '7'
    } else if d == 8 {
        '8'
    } else {
        '9'
    }
}

/// Appends the decimal notation of `n`.
pub fn push_decimal_u128(s: &mut String, n: u128)
    ensures
        final(s)@ == old(s)@ + decimal_nat(n as nat),
    decreases n,
{
    let ghost start = s@;
    if n >= 10 {
        push_decimal_u128(s, n / 10);
        let d = digit((n % 10) as u64);
        push_char(s, d);
        assert(s@ =~= start + decimal_nat(n as nat));
    } else {
        let d = digit(n as u64);
        push_char(s, d);
        assert(s@ =~= start + decimal_nat(n as nat));
    }
}

/// Appends the decimal notation of `v`, with a leading `-` when it is negative.
pub fn push_decimal_i128(s: &mut String, v: i128)
    ensures
        final(s)@ == old(s)@ + decimal(v as int),
{
    let ghost start = s@;
    if v < 0 {
        push_char(s, '-');
        let magnitude: u128 = if v == i128::MIN {
            (i128::MAX as u128) + 1
        } else {
            (0 - v) as u128
        };
        push_decimal_u128(s, magnitude);
        assert(s@ =~= start + decimal(v as int));
    } else {
        push_decimal_u128(s, v as u128);
    }
}

/// The decimal notation of `v`, as `v.to_string()` gives it.
pub fn decimal_u64(v: u64) -> (s: String)
    ensures
        s@ == decimal(v as int),
{
    let mut s = String::new();
    push_decimal_u128(&mut s, v as u128);
    assert(s@ =~= decimal(v as int));
    s
}

/// The decimal notation of `v`, as `v.to_string()` gives it.
pub fn decimal_i64(v: i64) -> (s: String)
    ensures
        s@ == decimal(v as int),
{
    decimal_i128(v as i128)
}

/// The decimal notation of `v`, as `v.to_string()` gives it.
pub fn decimal_i128(v: i128) -> (s: String)
    ensures
        s@ == decimal(v as int),
{
    let mut s = String::new();
    push_decimal_i128(&mut s, v);
    assert(s@ =~= decimal(v as int));
    s
}

/// Unicode's `White_Space` property, which `char::is_whitespace` tests.
pub open spec fn is_white_space(c: char) -> bool {
    let u = c as u32;
    ||| 0x09 <= u <= 0x0D
    ||| u == 0x20
    ||| u == 0x85
    ||| u == 0xA0
    ||| u == 0x1680
    ||| 0x2000 <= u <= 0x200A
    ||| u == 0x2028
    ||| u == 0x2029
    ||| u == 0x202F
    ||| u == 0x205F
    ||| u == 0x3000
}

/// `s` without its leading white space.
pub open spec fn trim_start(s: Seq<char>) -> Seq<char>
    decreases s.len(),
{
    if s.len() > 0 && is_white_space(s[0]) {
        trim_start(s.drop_first())
    } else {
        s
    }
}

/// `s` without its trailing white space.
pub open spec fn trim_end(s: Seq<char>) -> Seq<char>
    decreases s.len(),
{
    if s.len() > 0 && is_white_space(s.last()) {
        trim_end(s.drop_last())
    } else {
        s
    }
}

/// `s` without leading and trailing white space.
pub open spec fn trimmed(s: Seq<char>) -> Seq<char> {
    trim_end(trim_start(s))
}

/// `str::trim`: the documentation promises the slice without leading and
/// trailing characters that have Unicode's `White_Space` property.
#[verifier::external_body]
pub fn trim(s: &str) -> (t: &str)
    ensures
        t@ == trimmed(s@),
{
    s.trim()
}

/// Whether `s` begins with `p`.
pub open spec fn has_prefix(s: Seq<char>, p: Seq<char>) -> bool {
    p.len() <= s.len() && s.subrange(0, p.len() as int) == p
}

/// Whether `s` begins with `p`, as `str::starts_with` answers it.
pub fn starts_with(s: &str, p: &str) -> (b: bool)
    ensures
        b == has_prefix(s@, p@),
{
    let n = p.unicode_len();
    let m = s.unicode_len();
    if n > m {
        return false;
    }
    let mut i: usize = 0;
    while i < n
        invariant
            n == p@.len(),
            m == s@.len(),
            n <= m,
            i <= n,
            forall|k: int| 0 <= k < i ==> s@[k] == p@[k],
        decreases n - i,
    {
        if s.get_char(i) != p.get_char(i) {
            assert(s@.subrange(0, n as int)[i as int] != p@[i as int]);
            return false;
        }
        i = i + 1;
    }
    assert(s@.subrange(0, n as int) =~= p@);
    true
}

/// The text that follows `n` characters of `s`.
pub fn skip_chars(s: &str, n: usize) -> (t: String)
    requires
        n <= s@.len(),
    ensures
        t@ == s@.skip(n as int),
{
    let m = s.unicode_len();
    let rest = s.substring_char(n, m);
    let t = rest.to_owned();
    assert(t@ =~= s@.skip(n as int));
    t
}

} // verus!
