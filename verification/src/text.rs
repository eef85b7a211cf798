//! Text helpers with exact contracts: equality, prefixes, and decimal
//! integers read from and written to strings.

use vstd::prelude::*;
use vstd::string::*;
use vstd::utf8::*;

verus! {

/// True for the ten ASCII decimal digits.
pub open spec fn is_digit(c: char) -> bool {
    '0' <= c && c <= '9'
}

/// Value of a decimal digit.
pub open spec fn digit_value(c: char) -> nat {
    (c as u32 - '0' as u32) as nat
}

/// True when every character is a decimal digit.
pub open spec fn all_digits(s: Seq<char>) -> bool {
    forall|i: int| 0 <= i < s.len() ==> is_digit(#[trigger] s[i])
}

/// Value of a string of decimal digits, most significant digit first.
pub open spec fn decimal_value(s: Seq<char>) -> nat
    decreases s.len(),
{
    if s.len() == 0 {
        0
    } else {
        decimal_value(s.drop_last()) * 10 + digit_value(s.last())
    }
}

/// What a run of digits denotes when it must not exceed `limit`: the run
/// has to be non-empty, all digits, and its value at most `limit`.
pub open spec fn bounded_decimal(s: Seq<char>, limit: nat) -> Option<nat> {
    if s.len() > 0 && all_digits(s) && decimal_value(s) <= limit {
        Some(decimal_value(s))
    } else {
        None
    }
}

/// What an unsigned decimal numeral denotes: an optional `+`, then a
/// non-empty run of digits whose value is at most `limit`.
pub open spec fn unsigned_decimal(s: Seq<char>, limit: nat) -> Option<nat> {
    if s.len() > 0 && s[0] == '+' {
        bounded_decimal(s.drop_first(), limit)
    } else {
        bounded_decimal(s, limit)
    }
}

/// What a signed decimal numeral denotes: an optional `+` or `-`, then a
/// non-empty run of digits; the value lies between `-lowest` and `highest`.
pub open spec fn signed_decimal(s: Seq<char>, lowest: nat, highest: nat) -> Option<int> {
    if s.len() > 0 && s[0] == '-' {
        match bounded_decimal(s.drop_first(), lowest) {
            Some(v) => Some(-(v as int)),
            None => None,
        }
    } else {
        match unsigned_decimal(s, highest) {
            Some(v) => Some(v as int),
            None => None,
        }
    }
}

/// The numeral `s` read as a `u64`, if it is one.
pub open spec fn u64_of(s: Seq<char>) -> Option<u64> {
    match unsigned_decimal(s, u64::MAX as nat) {
        Some(v) => Some(v as u64),
        None => None,
    }
}

/// The numeral `s` read as a `u32`, if it is one.
pub open spec fn u32_of(s: Seq<char>) -> Option<u32> {
    match unsigned_decimal(s, u32::MAX as nat) {
        Some(v) => Some(v as u32),
        None => None,
    }
}

/// The numeral `s` read as a `u16`, if it is one.
pub open spec fn u16_of(s: Seq<char>) -> Option<u16> {
    match unsigned_decimal(s, u16::MAX as nat) {
        Some(v) => Some(v as u16),
        None => None,
    }
}

/// The numeral `s` read as an `i64`, if it is one.
pub open spec fn i64_of(s: Seq<char>) -> Option<i64> {
    match signed_decimal(s, 0x8000_0000_0000_0000nat, i64::MAX as nat) {
        Some(v) => Some(v as i64),
        None => None,
    }
}

/// True when `s` begins with `prefix`.
pub open spec fn has_prefix(s: Seq<char>, prefix: Seq<char>) -> bool {
    prefix.len() <= s.len() && s.subrange(0, prefix.len() as int) == prefix
}

proof fn lemma_decimal_value_push(s: Seq<char>, c: char)
    ensures
        decimal_value(s.push(c)) == decimal_value(s) * 10 + digit_value(c),
{
    assert(s.push(c).drop_last() =~= s);
}

proof fn lemma_decimal_value_prefix(s: Seq<char>, k: int)
    requires
        0 <= k <= s.len(),
    ensures
        decimal_value(s.subrange(0, k)) <= decimal_value(s),
    decreases s.len() - k,
{
    if k < s.len() {
        lemma_decimal_value_prefix(s, k + 1);
        assert(s.subrange(0, k + 1) =~= s.subrange(0, k).push(s[k]));
        lemma_decimal_value_push(s.subrange(0, k), s[k]);
    } else {
        assert(s.subrange(0, k) =~= s);
    }
}

/// The digits written for `n` are digits, and their value is `n`.
pub proof fn lemma_decimal_digits_value(n: nat)
    ensures
        decimal_digits(n).len() > 0,
        all_digits(decimal_digits(n)),
        decimal_value(decimal_digits(n)) == n,
    decreases n,
{
    if n < 10 {
        let s = seq![digit_char(n)];
        assert(s.drop_last() =~= Seq::<char>::empty());
        assert(decimal_value(s.drop_last()) == 0);
    } else {
        lemma_decimal_digits_value(n / 10);
        lemma_decimal_value_push(decimal_digits(n / 10), digit_char(n % 10));
    }
}

/// Reading the numeral written for an `i64` gives the number back.
pub proof fn lemma_i64_text_round_trip(n: i64)
    ensures
        i64_of(decimal_text(n as int)) == Some(n),
{
    if n < 0 {
        let digits = decimal_digits((-n) as nat);
        lemma_decimal_digits_value((-n) as nat);
        assert(decimal_text(n as int).drop_first() =~= digits);
    } else {
        lemma_decimal_digits_value(n as nat);
        let digits = decimal_digits(n as nat);
        assert(is_digit(digits[0]));
    }
}

/// A string with a character outside ASCII is no numeral.
proof fn lemma_non_ascii_is_no_numeral(s: Seq<char>, lowest: nat, highest: nat)
    requires
        !is_ascii_chars(s),
    ensures
        unsigned_decimal(s, highest) is None,
        signed_decimal(s, lowest, highest) is None,
{
    let i = choose|i: int| 0 <= i < s.len() && !('\0' <= #[trigger] s[i] <= '\u{7f}');
    assert(!is_digit(s[i]));
    if s[0] == '+' || s[0] == '-' {
        assert(s.drop_first()[i - 1] == s[i]);
    }
}

/// Reads the digits of `bytes` from `start` to the end as a number of at
/// most `limit`.
fn read_digits(bytes: &[u8], start: usize, limit: u64, Ghost(chars): Ghost<Seq<char>>) -> (r:
    Option<u64>)
    requires
        start <= bytes@.len(),
        bytes@.len() == chars.len(),
        is_ascii_chars(chars),
        forall|i: int| 0 <= i < chars.len() ==> #[trigger] chars[i] as u8 == bytes@[i],
    ensures
        match r {
            Some(v) => bounded_decimal(chars.subrange(start as int, chars.len() as int), limit as nat)
                == Some(v as nat),
            None => bounded_decimal(chars.subrange(start as int, chars.len() as int), limit as nat)
                is None,
        },
{
    let n = bytes.len();
    let ghost body = chars.subrange(start as int, n as int);
    if start == n {
        return None;
    }
    let mut acc: u64 = 0;
    let mut i: usize = start;
    assert(body.subrange(0, 0) =~= Seq::<char>::empty());
    while i < n
        invariant
            start <= i <= n,
            n == bytes@.len(),
            n == chars.len(),
            body == chars.subrange(start as int, n as int),
            is_ascii_chars(chars),
            forall|j: int| 0 <= j < chars.len() ==> #[trigger] chars[j] as u8 == bytes@[j],
            all_digits(body.subrange(0, i - start)),
            acc == decimal_value(body.subrange(0, i - start)),
            acc <= limit,
        decreases n - i,
    {
        let b = bytes[i];
        let ghost c = chars[i as int];
        assert(body[i - start] == c);
        if b < 48 || b > 57 {
            assert(!is_digit(c));
            return None;
        }
        let d: u64 = (b - 48) as u64;
        proof {
            assert(body.subrange(0, i + 1 - start) =~= body.subrange(0, i - start).push(c));
            lemma_decimal_value_push(body.subrange(0, i - start), c);
            assert(digit_value(c) == d);
            lemma_decimal_value_prefix(body, i + 1 - start);
            assert forall|j: int| 0 <= j < i + 1 - start implies is_digit(
                #[trigger] body.subrange(0, i + 1 - start)[j],
            ) by {
                if j < i - start {
                    assert(body.subrange(0, i - start)[j] == body[j]);
                }
            }
        }
        if d > limit || acc > (limit - d) / 10 {
            return None;
        }
        acc = acc * 10 + d;
        i += 1;
    }
    assert(body.subrange(0, n - start) =~= body);
    Some(acc)
}

/// Reads an unsigned numeral of at most `limit`.
fn read_unsigned(s: &str, limit: u64) -> (r: Option<u64>)
    ensures
        match r {
            Some(v) => unsigned_decimal(s@, limit as nat) == Some(v as nat),
            None => unsigned_decimal(s@, limit as nat) is None,
        },
{
    if !s.is_ascii() {
        proof {
            lemma_non_ascii_is_no_numeral(s@, 0, limit as nat);
        }
        return None;
    }
    let bytes = s.as_bytes();
    proof {
        is_ascii_spec_bytes(s);
    }
    if bytes.len() > 0 && bytes[0] == 43 {
        assert(s@[0] == '+');
        assert(s@.drop_first() =~= s@.subrange(1, s@.len() as int));
        read_digits(bytes, 1, limit, Ghost(s@))
    } else {
        assert(s@.len() > 0 ==> s@[0] != '+');
        assert(s@ =~= s@.subrange(0, s@.len() as int));
        read_digits(bytes, 0, limit, Ghost(s@))
    }
}

/// Reads a decimal `u64`: an optional `+`, then digits, no other character.
pub fn parse_u64(s: &str) -> (r: Option<u64>)
    ensures
        r == u64_of(s@),
{
    read_unsigned(s, u64::MAX)
}

/// Reads a decimal `u32`: an optional `+`, then digits, no other character.
pub fn parse_u32(s: &str) -> (r: Option<u32>)
    ensures
        r == u32_of(s@),
{
    match read_unsigned(s, 0xffff_ffff) {
        Some(v) => Some(v as u32),
        None => None,
    }
}

/// Reads a decimal `u16`: an optional `+`, then digits, no other character.
pub fn parse_u16(s: &str) -> (r: Option<u16>)
    ensures
        r == u16_of(s@),
{
    match read_unsigned(s, 0xffff) {
        Some(v) => Some(v as u16),
        None => None,
    }
}

/// Reads a decimal `i64`: an optional sign, then digits, no other character.
pub fn parse_i64(s: &str) -> (r: Option<i64>)
    ensures
        r == i64_of(s@),
{
    if !s.is_ascii() {
        proof {
            lemma_non_ascii_is_no_numeral(s@, 0x8000_0000_0000_0000nat, i64::MAX as nat);
        }
        return None;
    }
    let bytes = s.as_bytes();
    proof {
        is_ascii_spec_bytes(s);
    }
    if bytes.len() > 0 && bytes[0] == 45 {
        assert(s@[0] == '-');
        assert(s@.drop_first() =~= s@.subrange(1, s@.len() as int));
        match read_digits(bytes, 1, 0x8000_0000_0000_0000, Ghost(s@)) {
            Some(v) => {
                if v == 0x8000_0000_0000_0000 {
                    Some(i64::MIN)
                } else {
                    Some(-(v as i64))
                }
            },
            None => None,
        }
    } else {
        assert(s@.len() > 0 ==> s@[0] != '-');
        match read_unsigned(s, 0x7fff_ffff_ffff_ffff) {
            Some(v) => Some(v as i64),
            None => None,
        }
    }
}

/// Tells whether `s` begins with `prefix`.
pub fn starts_with(s: &str, prefix: &str) -> (r: bool)
    ensures
        r == has_prefix(s@, prefix@),
{
    let n = prefix.unicode_len();
    if s.unicode_len() < n {
        return false;
    }
    let mut i: usize = 0;
    while i < n
        invariant
            i <= n,
            n == prefix@.len(),
            n <= s@.len(),
            forall|j: int| 0 <= j < i ==> s@[j] == prefix@[j],
        decreases n - i,
    {
        if s.get_char(i) != prefix.get_char(i) {
            assert(s@.subrange(0, n as int)[i as int] != prefix@[i as int]);
            return false;
        }
        i += 1;
    }
    assert(s@.subrange(0, n as int) =~= prefix@);
    true
}

/// The character of a decimal digit.
pub open spec fn digit_char(d: nat) -> char {
    if d == 0 {
        '0'
    } else if d == 1 {
        '1'
    } else if d == 2 {
        '2'
    } else if d == 3 {
        '3'
    } else if d == 4 {
        '4'
    } else if d == 5 {
        '5'
    } else if d == 6 {
        '6'
    } else if d == 7 {
        '7'
    } else if d == 8 {
        '8'
    } else {
        '9'
    }
}

/// The decimal digits of `n`, without leading zeros.
pub open spec fn decimal_digits(n: nat) -> Seq<char>
    decreases n,
{
    if n < 10 {
        seq![digit_char(n)]
    } else {
        decimal_digits(n / 10).push(digit_char(n % 10))
    }
}

/// The decimal numeral of `n`, with `-` in front of a negative number.
pub open spec fn decimal_text(n: int) -> Seq<char> {
    if n < 0 {
        seq!['-'] + decimal_digits((-n) as nat)
    } else {
        decimal_digits(n as nat)
    }
}

fn digit_str(d: u64) -> (s: &'static str)
    requires
        d < 10,
    ensures
        s@ == seq![digit_char(d as nat)],
{
    proof {
        reveal_strlit("0");
        reveal_strlit("1");
        reveal_strlit("2");
        reveal_strlit("3");
        reveal_strlit("4");
        reveal_strlit("5");
        reveal_strlit("6");
        reveal_strlit("7");
        reveal_strlit("8");
        reveal_strlit("9");
    }
    let s = match d {
        0 => "0",
        1 => "1",
        2 => "2",
        3 => "3",
        4 => "4",
        5 => "5",
        6 => "6",
        7 => "7",
        8 => "8",
        _ => "9",
    };
    assert(s@ =~= seq![digit_char(d as nat)]);
    s
}

/// Writes `n` in decimal.
pub fn u64_to_string(n: u64) -> (s: String)
    ensures
        s@ == decimal_digits(n as nat),
    decreases n,
{
    if n < 10 {
        String::from_str(digit_str(n))
    } else {
        let mut s = u64_to_string(n / 10);
        s.append(digit_str(n % 10));
        assert(s@ =~= decimal_digits(n as nat / 10).push(digit_char(n as nat % 10)));
        s
    }
}

/// Writes `n` in decimal, with `-` in front of a negative number.
pub fn i64_to_string(n: i64) -> (s: String)
    ensures
        s@ == decimal_text(n as int),
{
    if n < 0 {
        let magnitude: u64 = if n == i64::MIN {
            0x8000_0000_0000_0000
        } else {
            (-n) as u64
        };
        proof {
            reveal_strlit("-");
        }
        let mut s = String::from_str("-");
        let digits = u64_to_string(magnitude);
        s.append(digits.as_str());
        assert(s@ =~= seq!['-'] + decimal_digits((-n) as nat));
        s
    } else {
        u64_to_string(n as u64)
    }
}

/// Two strings are equal exactly when their characters are.
pub fn str_eq(a: &str, b: &str) -> (equal: bool)
    ensures
        equal == (a@ == b@),
{
    let x = a.as_bytes();
    let y = b.as_bytes();
    proof {
        encode_utf8_decode_utf8(a@);
        encode_utf8_decode_utf8(b@);
    }
    if x.len() != y.len() {
        return false;
    }
    let mut i: usize = 0;
    while i < x.len()
        invariant
            i <= x.len(),
            x.len() == y.len(),
            forall|j: int| 0 <= j < i ==> x@[j] == y@[j],
            x@ == encode_utf8(a@),
            y@ == encode_utf8(b@),
            decode_utf8(encode_utf8(a@)) == a@,
            decode_utf8(encode_utf8(b@)) == b@,
        decreases x.len() - i,
    {
        if x[i] != y[i] {
            return false;
        }
        i += 1;
    }
    assert(x@ =~= y@);
    true
}

} // verus!
