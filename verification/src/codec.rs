//! Text-format value codecs.
//!
//! Every value crosses the boundary in the driver's text format. This
//! module gives the textual renderings the bridge relies on — decimal
//! integers, the engine's one-letter booleans, and lowercase hex for byte
//! arrays — together with their parsers, so that reading a written value
//! back yields the value itself.

use crate::text::str_eq;
use vstd::prelude::*;

verus! {

// ---------------------------------------------------------------------------
// Decimal integers
// ---------------------------------------------------------------------------
/// The digit character of one decimal digit.
pub open spec fn dec_digit(d: nat) -> char
    recommends
        d < 10,
{
    if d == 0 {
        '0'
    } else if d == 1 {
        '1'
    } else if d == 2 {
        '2'
    } else if d == 3 {
        '3'
    } else if d == 4 {
        '4'
    } else if d == 5 {
        '5'
    } else if d == 6 {
        '6'
    } else if d == 7 {
        '7'
    } else if d == 8 {
        '8'
    } else {
        '9'
    }
}

/// Decimal rendering of a natural number, most significant digit first.
pub open spec fn spec_dec_nat(n: nat) -> Seq<char>
    decreases n,
{
    if n < 10 {
        seq![dec_digit(n)]
    } else {
        spec_dec_nat(n / 10).push(dec_digit(n % 10))
    }
}

/// Decimal rendering of an integer: a minus sign before the magnitude for
/// negative values.
pub open spec fn spec_dec_int(v: int) -> Seq<char> {
    if v < 0 {
        seq!['-'] + spec_dec_nat((-v) as nat)
    } else {
        spec_dec_nat(v as nat)
    }
}

/// Whether a character is a decimal digit.
pub open spec fn is_dec_digit(c: char) -> bool {
    '0' <= c <= '9'
}

/// Numeric value of a decimal digit character.
pub open spec fn dec_digit_val(c: char) -> nat
    recommends
        is_dec_digit(c),
{
    ((c as int) - ('0' as int)) as nat
}

/// Whether every character of a sequence is a decimal digit.
pub open spec fn all_dec_digits(s: Seq<char>) -> bool {
    forall|i: int| 0 <= i < s.len() ==> is_dec_digit(#[trigger] s[i])
}

/// Value of a digit sequence read as a decimal number.
pub open spec fn dec_val(s: Seq<char>) -> nat
    recommends
        all_dec_digits(s),
    decreases s.len(),
{
    if s.len() == 0 {
        0
    } else {
        dec_val(s.drop_last()) * 10 + dec_digit_val(s.last())
    }
}

/// What a digit string (no sign) denotes, if it is one: at least one
/// digit, digits only.
pub open spec fn spec_parse_dec_nat(s: Seq<char>) -> Option<nat> {
    if s.len() >= 1 && all_dec_digits(s) {
        Option::Some(dec_val(s))
    } else {
        Option::None
    }
}

/// What a decimal string with an optional leading minus sign denotes, if
/// anything.
pub open spec fn spec_parse_dec_int(s: Seq<char>) -> Option<int> {
    if s.len() >= 1 && s[0] == '-' {
        match spec_parse_dec_nat(s.skip(1)) {
            Option::Some(n) => Option::Some(-(n as int)),
            Option::None => Option::None,
        }
    } else {
        match spec_parse_dec_nat(s) {
            Option::Some(n) => Option::Some(n as int),
            Option::None => Option::None,
        }
    }
}

/// The single-digit strings used to assemble decimal renderings.
fn digit_str(d: u8) -> (s: String)
    requires
        d < 10,
    ensures
        s@ =~= seq![dec_digit(d as nat)],
{
    proof {
        reveal_strlit("0");
        reveal_strlit("1");
        reveal_strlit("2");
        reveal_strlit("3");
        reveal_strlit("4");
        reveal_strlit("5");
        reveal_strlit("6");
        reveal_strlit("7");
        reveal_strlit("8");
        reveal_strlit("9");
    }
    match d {
        0 => String::from_str("0"),
        1 => String::from_str("1"),
        2 => String::from_str("2"),
        3 => String::from_str("3"),
        4 => String::from_str("4"),
        5 => String::from_str("5"),
        6 => String::from_str("6"),
        7 => String::from_str("7"),
        8 => String::from_str("8"),
        _ => String::from_str("9"),
    }
}

/// Renders a natural number in decimal.
pub fn format_u64(n: u64) -> (s: String)
    ensures
        s@ == spec_dec_nat(n as nat),
    decreases n,
{
    if n < 10 {
        let s = digit_str(n as u8);
        proof {
            assert(s@ =~= spec_dec_nat(n as nat));
        }
        s
    } else {
        let mut s = format_u64(n / 10);
        let d = digit_str((n % 10) as u8);
        s.append(d.as_str());
        proof {
            assert(s@ =~= spec_dec_nat(n as nat));
        }
        s
    }
}

/// Renders a signed integer in decimal.
pub fn format_i64(v: i64) -> (s: String)
    ensures
        s@ == spec_dec_int(v as int),
{
    if v >= 0 {
        format_u64(v as u64)
    } else {
        let magnitude: u64 = (-(v as i128)) as u64;
        let mut s = String::from_str("-");
        let digits = format_u64(magnitude);
        s.append(digits.as_str());
        proof {
            reveal_strlit("-");
            assert(s@ =~= spec_dec_int(v as int));
        }
        s
    }
}

/// A longer run of digits denotes at least as large a number.
proof fn lemma_dec_val_prefix(s: Seq<char>, i: int)
    requires
        0 <= i <= s.len(),
    ensures
        dec_val(s) >= dec_val(s.take(i)),
    decreases s.len() - i,
{
    if i < s.len() {
        assert(s.take(i + 1).drop_last() =~= s.take(i));
        assert(dec_val(s.take(i + 1)) == dec_val(s.take(i)) * 10 + dec_digit_val(s.take(i + 1).last()));
        lemma_dec_val_prefix(s, i + 1);
        assert(s.take(s.len() as int) =~= s);
    } else {
        assert(s.take(i) =~= s);
    }
}

/// Parses an unsigned decimal string: at least one digit, digits only,
/// value within range.
pub fn parse_u64(s: &str) -> (r: Option<u64>)
    ensures
        match r {
            Option::Some(n) => spec_parse_dec_nat(s@) == Option::Some(n as nat),
            Option::None => spec_parse_dec_nat(s@) is None || spec_parse_dec_nat(s@)->Some_0
                > u64::MAX,
        },
{
    let len = s.unicode_len();
    if len == 0 {
        return Option::None;
    }
    let mut acc: u64 = 0;
    let mut i: usize = 0;
    while i < len
        invariant
            0 < len == s@.len(),
            i <= len,
            all_dec_digits(s@.take(i as int)),
            acc as nat == dec_val(s@.take(i as int)),
        decreases len - i,
    {
        let c = s.get_char(i);
        let cv = c as u32;
        if cv < 48 || cv > 57 {
            assert(!is_dec_digit(s@[i as int]));
            return Option::None;
        }
        let d = (cv - 48) as u64;
        let wide: u128 = (acc as u128) * 10 + (d as u128);
        proof {
            assert(s@.take(i + 1).drop_last() =~= s@.take(i as int));
        }
        if wide > u64::MAX as u128 {
            proof {
                lemma_dec_val_prefix(s@, i + 1);
            }
            return Option::None;
        }
        acc = wide as u64;
        i = i + 1;
    }
    proof {
        assert(s@.take(len as int) =~= s@);
    }
    Option::Some(acc)
}

/// Parses a signed decimal string.
pub fn parse_i64(s: &str) -> (r: Option<i64>)
    ensures
        match r {
            Option::Some(v) => spec_parse_dec_int(s@) == Option::Some(v as int),
            Option::None => spec_parse_dec_int(s@) is None || spec_parse_dec_int(s@)->Some_0
                > i64::MAX || spec_parse_dec_int(s@)->Some_0 < i64::MIN,
        },
{
    let len = s.unicode_len();
    if len == 0 {
        return Option::None;
    }
    let c0 = s.get_char(0);
    if c0 == '-' {
        let rest = s.substring_char(1, len);
        match parse_u64(rest) {
            Option::Some(n) => {
                if n <= 9223372036854775808u64 {
                    let v: i64 = if n == 9223372036854775808u64 {
                        i64::MIN
                    } else {
                        -(n as i64)
                    };
                    Option::Some(v)
                } else {
                    Option::None
                }
            },
            Option::None => Option::None,
        }
    } else {
        match parse_u64(s) {
            Option::Some(n) => {
                if n <= i64::MAX as u64 {
                    assert(s@[0] != '-');
                    Option::Some(n as i64)
                } else {
                    assert(s@[0] != '-');
                    Option::None
                }
            },
            Option::None => {
                assert(s@.len() >= 1);
                Option::None
            },
        }
    }
}

/// The decimal rendering of a natural number is all digits, is nonempty,
/// and denotes the number itself.
pub proof fn lemma_dec_nat_round_trip(n: nat)
    ensures
        spec_dec_nat(n).len() >= 1,
        all_dec_digits(spec_dec_nat(n)),
        dec_val(spec_dec_nat(n)) == n,
    decreases n,
{
    if n < 10 {
        assert(spec_dec_nat(n) =~= seq![dec_digit(n)]);
        assert(spec_dec_nat(n).drop_last() =~= Seq::<char>::empty());
        assert(dec_digit_val(dec_digit(n)) == n);
        assert(dec_val(Seq::<char>::empty()) == 0);
        assert(spec_dec_nat(n).last() == dec_digit(n));
        assert(dec_val(spec_dec_nat(n)) == n);
        assert(all_dec_digits(spec_dec_nat(n)));
    } else {
        lemma_dec_nat_round_trip(n / 10);
        let s = spec_dec_nat(n);
        assert(s == spec_dec_nat(n / 10).push(dec_digit(n % 10)));
        assert(s.drop_last() =~= spec_dec_nat(n / 10));
        assert(s.last() == dec_digit(n % 10));
        assert(dec_digit_val(dec_digit(n % 10)) == n % 10);
        assert(forall|i: int|
            0 <= i < s.len() ==> is_dec_digit(#[trigger] s[i])) by {
            assert(forall|i: int|
                0 <= i < s.len() - 1 ==> s[i] == #[trigger] spec_dec_nat(n / 10)[i]);
        }
        assert(dec_val(s) == dec_val(spec_dec_nat(n / 10)) * 10 + (n % 10));
        vstd::arithmetic::div_mod::lemma_fundamental_div_mod(n as int, 10);
        assert(dec_val(spec_dec_nat(n)) == n);
        assert(all_dec_digits(spec_dec_nat(n)));
    }
}

/// Parsing the decimal rendering of an integer yields the integer back.
pub proof fn lemma_dec_int_round_trip(v: int)
    ensures
        spec_parse_dec_int(spec_dec_int(v)) == Option::Some(v),
{
    if v < 0 {
        lemma_dec_nat_round_trip((-v) as nat);
        let s = spec_dec_int(v);
        assert(s[0] == '-');
        assert(s.skip(1) =~= spec_dec_nat((-v) as nat));
    } else {
        lemma_dec_nat_round_trip(v as nat);
        let s = spec_dec_int(v);
        assert(s == spec_dec_nat(v as nat));
        assert(s[0] != '-') by {
            if (v as nat) < 10 {
                assert(s =~= seq![dec_digit(v as nat)]);
            } else {
                lemma_dec_nat_round_trip(v as nat / 10);
            }
            assert(is_dec_digit(s[0]));
        }
    }
}

// ---------------------------------------------------------------------------
// Booleans
// ---------------------------------------------------------------------------
/// Text-format rendering of a boolean: the engine's one-letter form.
pub open spec fn spec_encode_bool(b: bool) -> Seq<char> {
    if b {
        "t"@
    } else {
        "f"@
    }
}

/// What a boolean text-format string denotes, if anything.
pub open spec fn spec_parse_bool(s: Seq<char>) -> Option<bool> {
    if s == "t"@ {
        Option::Some(true)
    } else if s == "f"@ {
        Option::Some(false)
    } else {
        Option::None
    }
}

/// Renders a boolean in text format.
pub fn encode_bool(b: bool) -> (s: String)
    ensures
        s@ == spec_encode_bool(b),
{
    if b {
        String::from_str("t")
    } else {
        String::from_str("f")
    }
}

/// Parses a boolean text-format string.
pub fn parse_bool(s: &str) -> (r: Option<bool>)
    ensures
        r == spec_parse_bool(s@),
{
    if str_eq(s, "t") {
        Option::Some(true)
    } else if str_eq(s, "f") {
        Option::Some(false)
    } else {
        Option::None
    }
}

/// Parsing the rendering of a boolean yields the boolean back.
pub proof fn lemma_bool_round_trip(b: bool)
    ensures
        spec_parse_bool(spec_encode_bool(b)) == Option::Some(b),
{
    reveal_strlit("t");
    reveal_strlit("f");
    assert("t"@[0] == 't' && "f"@[0] == 'f');
    assert("t"@ != "f"@);
}

// ---------------------------------------------------------------------------
// Lowercase hex for byte arrays
// ---------------------------------------------------------------------------
/// The lowercase hex character of one nibble.
pub open spec fn hex_digit(d: nat) -> char
    recommends
        d < 16,
{
    if d < 10 {
        dec_digit(d)
    } else if d == 10 {
        'a'
    } else if d == 11 {
        'b'
    } else if d == 12 {
        'c'
    } else if d == 13 {
        'd'
    } else if d == 14 {
        'e'
    } else {
        'f'
    }
}

/// Lowercase hex rendering of a byte array: two digits per byte, high
/// nibble first.
pub open spec fn hex_of(b: Seq<u8>) -> Seq<char>
    decreases b.len(),
{
    if b.len() == 0 {
        Seq::empty()
    } else {
        hex_of(b.drop_last()) + seq![
            hex_digit((b.last() as nat) / 16),
            hex_digit((b.last() as nat) % 16),
        ]
    }
}

/// Renders a byte array as lowercase hex.
///
/// Relies on `hex::encode` of the hex crate: every input byte becomes two
/// lowercase hex digits, high nibble first, in input order.
#[verifier::external_body]
pub fn hex_encode(bytes: &Vec<u8>) -> (r: String)
    ensures
        r@ == hex_of(bytes@),
{
    hex::encode(bytes.as_slice())
}

/// Whether a character is a lowercase hex digit.
pub open spec fn is_hex_digit(c: char) -> bool {
    ('0' <= c <= '9') || ('a' <= c <= 'f')
}

/// Numeric value of a lowercase hex digit character.
pub open spec fn hex_digit_val(c: char) -> nat
    recommends
        is_hex_digit(c),
{
    if '0' <= c <= '9' {
        ((c as int) - ('0' as int)) as nat
    } else {
        (10 + (c as int) - ('a' as int)) as nat
    }
}

/// What a lowercase hex string denotes, if anything: an even number of
/// hex digits, two per byte.
pub open spec fn spec_parse_hex(s: Seq<char>) -> Option<Seq<u8>>
    decreases s.len(),
{
    if s.len() == 0 {
        Option::Some(Seq::empty())
    } else if s.len() == 1 {
        Option::None
    } else {
        let c1 = s[s.len() - 2];
        let c2 = s[s.len() - 1];
        if is_hex_digit(c1) && is_hex_digit(c2) {
            match spec_parse_hex(s.take(s.len() - 2)) {
                Option::Some(p) => Option::Some(
                    p.push((hex_digit_val(c1) * 16 + hex_digit_val(c2)) as u8),
                ),
                Option::None => Option::None,
            }
        } else {
            Option::None
        }
    }
}

/// Numeric value of a lowercase hex digit character, or `None`.
fn hex_val_of(c: char) -> (r: Option<u8>)
    ensures
        match r {
            Option::Some(v) => is_hex_digit(c) && v == hex_digit_val(c) && v < 16,
            Option::None => !is_hex_digit(c),
        },
{
    let cv = c as u32;
    if 48 <= cv && cv <= 57 {
        Option::Some((cv - 48) as u8)
    } else if 97 <= cv && cv <= 102 {
        Option::Some((cv - 87) as u8)
    } else {
        Option::None
    }
}

/// An odd number of characters never parses as hex.
proof fn lemma_parse_hex_odd(s: Seq<char>)
    requires
        s.len() % 2 == 1,
    ensures
        spec_parse_hex(s) is None,
    decreases s.len(),
{
    if s.len() > 1 {
        lemma_parse_hex_odd(s.take(s.len() - 2));
    }
}

/// A prefix that fails to parse makes the whole string fail, as long as
/// the remainder has even length.
proof fn lemma_parse_hex_none_propagates(s: Seq<char>, i: int)
    requires
        0 <= i <= s.len(),
        (s.len() - i) % 2 == 0,
        spec_parse_hex(s.take(i)) is None,
    ensures
        spec_parse_hex(s) is None,
    decreases s.len() - i,
{
    if i == s.len() {
        assert(s.take(i) =~= s);
    } else {
        assert(s.take(s.len() - 2).take(i) =~= s.take(i));
        lemma_parse_hex_none_propagates(s.take(s.len() - 2), i);
    }
}

/// Parses a lowercase hex string into the byte array it denotes.
pub fn hex_decode(s: &str) -> (r: Option<Vec<u8>>)
    ensures
        match r {
            Option::Some(v) => spec_parse_hex(s@) == Option::Some(v@),
            Option::None => spec_parse_hex(s@) is None,
        },
{
    let len = s.unicode_len();
    if len % 2 != 0 {
        proof {
            lemma_parse_hex_odd(s@);
        }
        return Option::None;
    }
    let mut out: Vec<u8> = Vec::new();
    let mut i: usize = 0;
    while i < len
        invariant
            len == s@.len(),
            len % 2 == 0,
            i <= len,
            i % 2 == 0,
            spec_parse_hex(s@.take(i as int)) == Option::Some(out@),
        decreases len - i,
    {
        let c1 = s.get_char(i);
        let c2 = s.get_char(i + 1);
        let v1 = hex_val_of(c1);
        let v2 = hex_val_of(c2);
        proof {
            assert(s@.take(i + 2).take(i as int) =~= s@.take(i as int));
            assert(s@.take(i + 2)[i as int] == s@[i as int]);
            assert(s@.take(i + 2)[i + 1] == s@[i + 1]);
        }
        match (v1, v2) {
            (Option::Some(h), Option::Some(l)) => {
                out.push(h * 16 + l);
                i = i + 2;
            },
            _ => {
                proof {
                    assert(spec_parse_hex(s@.take(i + 2)) is None);
                    lemma_parse_hex_none_propagates(s@, i + 2);
                }
                return Option::None;
            },
        }
    }
    proof {
        assert(s@.take(len as int) =~= s@);
    }
    Option::Some(out)
}

/// A nibble's hex character is a hex digit denoting the nibble itself.
proof fn lemma_hex_digit_val(d: nat)
    requires
        d < 16,
    ensures
        is_hex_digit(hex_digit(d)),
        hex_digit_val(hex_digit(d)) == d,
{
}

/// Parsing the hex rendering of a byte array yields the array back.
pub proof fn lemma_hex_round_trip(b: Seq<u8>)
    ensures
        spec_parse_hex(hex_of(b)) == Option::Some(b),
    decreases b.len(),
{
    if b.len() == 0 {
        assert(hex_of(b).len() == 0);
        assert(spec_parse_hex(hex_of(b))->Some_0 =~= b);
    } else {
        lemma_hex_round_trip(b.drop_last());
        let s = hex_of(b);
        let hi = (b.last() as nat) / 16;
        let lo = (b.last() as nat) % 16;
        assert(hi < 16 && lo < 16);
        lemma_hex_digit_val(hi);
        lemma_hex_digit_val(lo);
        assert(s.len() == hex_of(b.drop_last()).len() + 2);
        assert(s[s.len() - 2] == hex_digit(hi));
        assert(s[s.len() - 1] == hex_digit(lo));
        assert(s.take(s.len() - 2) =~= hex_of(b.drop_last()));
        vstd::arithmetic::div_mod::lemma_fundamental_div_mod(b.last() as int, 16);
        assert(hi * 16 + lo == b.last());
        assert(spec_parse_hex(s)->Some_0 =~= b);
    }
}

} // verus!
