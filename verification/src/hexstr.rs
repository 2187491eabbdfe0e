//! Hex formatting and parsing of byte strings, as used for digests and
//! signatures in the JSON documents: lowercase hex with a `0x` prefix on
//! output, an optional `0x` prefix and either letter case on input.

use vstd::prelude::*;

use vstd::string::StrSliceExecFns;
use vstd::string::StringExecFns;
use vstd::string::StringSliceAdditionalSpecFns;

use crate::types::HexError;

verus! {

/// The lowercase hex digit for a nibble.
pub open spec fn spec_hex_char(n: u8) -> char
    recommends
        n < 16,
{
    if n == 0 {
        '0'
    } else if n == 1 {
        '1'
    } else if n == 2 {
        '2'
    } else if n == 3 {
        '3'
    } else if n == 4 {
        '4'
    } else if n == 5 {
        '5'
    } else if n == 6 {
        '6'
    } else if n == 7 {
        '7'
    } else if n == 8 {
        '8'
    } else if n == 9 {
        '9'
    } else if n == 10 {
        'a'
    } else if n == 11 {
        'b'
    } else if n == 12 {
        'c'
    } else if n == 13 {
        'd'
    } else if n == 14 {
        'e'
    } else {
        'f'
    }
}

/// The lowercase hex rendering of a byte string: two digits per byte, high
/// nibble first.
pub open spec fn hex_chars(bs: Seq<u8>) -> Seq<char>
    decreases bs.len(),
{
    if bs.len() == 0 {
        Seq::empty()
    } else {
        seq![spec_hex_char(bs[0] / 16), spec_hex_char(bs[0] % 16)] + hex_chars(bs.drop_first())
    }
}

proof fn lemma_hex_chars_snoc(bs: Seq<u8>, b: u8)
    ensures
        hex_chars(bs.push(b)) == hex_chars(bs) + seq![
            spec_hex_char(b / 16),
            spec_hex_char(b % 16),
        ],
    decreases bs.len(),
{
    let pair = seq![spec_hex_char(b / 16), spec_hex_char(b % 16)];
    assert(hex_chars(bs.push(b)) == seq![
        spec_hex_char(bs.push(b)[0] / 16),
        spec_hex_char(bs.push(b)[0] % 16),
    ] + hex_chars(bs.push(b).drop_first()));
    if bs.len() == 0 {
        assert(bs.push(b)[0] == b);
        assert(bs.push(b).drop_first() =~= Seq::<u8>::empty());
        assert(pair + Seq::<char>::empty() =~= pair);
        assert(Seq::<char>::empty() + pair =~= pair);
    } else {
        assert(bs.push(b)[0] == bs[0]);
        assert(bs.push(b).drop_first() =~= bs.drop_first().push(b));
        lemma_hex_chars_snoc(bs.drop_first(), b);
        let head = seq![spec_hex_char(bs[0] / 16), spec_hex_char(bs[0] % 16)];
        assert(head + (hex_chars(bs.drop_first()) + pair) =~= (head + hex_chars(bs.drop_first()))
            + pair);
    }
}

/// Hands back the one-character string for a nibble.
fn hex_digit_str(n: u8) -> (r: &'static str)
    requires
        n < 16,
    ensures
        r@ == seq![spec_hex_char(n)],
{
    proof {
        reveal_strlit("0");
        reveal_strlit("1");
        reveal_strlit("2");
        reveal_strlit("3");
        reveal_strlit("4");
        reveal_strlit("5");
        reveal_strlit("6");
        reveal_strlit("7");
        reveal_strlit("8");
        reveal_strlit("9");
        reveal_strlit("a");
        reveal_strlit("b");
        reveal_strlit("c");
        reveal_strlit("d");
        reveal_strlit("e");
        reveal_strlit("f");
    }
    let r: &'static str = if n == 0 {
        "0"
    } else if n == 1 {
        "1"
    } else if n == 2 {
        "2"
    } else if n == 3 {
        "3"
    } else if n == 4 {
        "4"
    } else if n == 5 {
        "5"
    } else if n == 6 {
        "6"
    } else if n == 7 {
        "7"
    } else if n == 8 {
        "8"
    } else if n == 9 {
        "9"
    } else if n == 10 {
        "a"
    } else if n == 11 {
        "b"
    } else if n == 12 {
        "c"
    } else if n == 13 {
        "d"
    } else if n == 14 {
        "e"
    } else {
        "f"
    };
    proof {
        assert(r@ =~= seq![spec_hex_char(n)]);
    }
    r
}

/// Renders bytes as lowercase hex with a `0x` prefix.
pub fn to_hex_string(bytes: &Vec<u8>) -> (r: String)
    ensures
        r@ == seq!['0', 'x'] + hex_chars(bytes@),
{
    proof {
        reveal_strlit("0x");
        assert("0x"@ =~= seq!['0', 'x']);
    }
    let mut r = String::from_str("0x");
    let n = bytes.len();
    let mut i: usize = 0;
    while i < n
        invariant
            i <= n,
            n == bytes@.len(),
            r@ == seq!['0', 'x'] + hex_chars(bytes@.take(i as int)),
        decreases n - i,
    {
        let b = bytes[i];
        r.append(hex_digit_str(b / 16));
        r.append(hex_digit_str(b % 16));
        proof {
            lemma_hex_chars_snoc(bytes@.take(i as int), b);
            assert(bytes@.take(i + 1) =~= bytes@.take(i as int).push(b));
            assert((seq!['0', 'x'] + hex_chars(bytes@.take(i as int))) + seq![
                spec_hex_char(b / 16),
            ] + seq![spec_hex_char(b % 16)] =~= seq!['0', 'x'] + hex_chars(bytes@.take(i + 1)));
        }
        i = i + 1;
    }
    proof {
        assert(bytes@.take(n as int) =~= bytes@);
    }
    r
}

/// True of the ASCII code of a hex digit, either letter case.
pub open spec fn is_hex_digit(b: u8) -> bool {
    (48 <= b <= 57) || (97 <= b <= 102) || (65 <= b <= 70)
}

/// The value of a hex digit given by its ASCII code.
pub open spec fn hex_digit_val(b: u8) -> u8
    recommends
        is_hex_digit(b),
{
    if 48 <= b <= 57 {
        (b - 48) as u8
    } else if 97 <= b <= 102 {
        (b - 87) as u8
    } else if 65 <= b <= 70 {
        (b - 55) as u8
    } else {
        0
    }
}

/// The bytes a run of hex digits decodes to, two digits per byte.
pub open spec fn hex_decoded(bs: Seq<u8>) -> Seq<u8>
    decreases bs.len(),
{
    if bs.len() < 2 {
        Seq::empty()
    } else {
        seq![(16 * hex_digit_val(bs[0]) + hex_digit_val(bs[1])) as u8] + hex_decoded(bs.skip(2))
    }
}

/// The hex digits after an optional `0x` prefix (ASCII `0` then `x`).
pub open spec fn strip_hex_prefix(bs: Seq<u8>) -> Seq<u8> {
    if bs.len() >= 2 && bs[0] == 48 && bs[1] == 120 {
        bs.skip(2)
    } else {
        bs
    }
}

proof fn lemma_hex_decoded_snoc2(t: Seq<u8>, l: int)
    requires
        0 <= l,
        l + 2 <= t.len(),
        l % 2 == 0,
    ensures
        hex_decoded(t.take(l + 2)) == hex_decoded(t.take(l)) + seq![
            (16 * hex_digit_val(t[l]) + hex_digit_val(t[l + 1])) as u8,
        ],
    decreases l,
{
    let pair = seq![(16 * hex_digit_val(t[l]) + hex_digit_val(t[l + 1])) as u8];
    if l == 0 {
        assert(t.take(0) =~= Seq::<u8>::empty());
        assert(t.take(2)[0] == t[0]);
        assert(t.take(2)[1] == t[1]);
        assert(t.take(2).skip(2) =~= Seq::<u8>::empty());
        assert(pair + Seq::<u8>::empty() =~= pair);
        assert(Seq::<u8>::empty() + pair =~= pair);
    } else {
        let head = seq![(16 * hex_digit_val(t[0]) + hex_digit_val(t[1])) as u8];
        assert(t.take(l + 2)[0] == t[0]);
        assert(t.take(l + 2)[1] == t[1]);
        assert(t.take(l + 2).skip(2) =~= t.skip(2).take(l));
        assert(t.take(l)[0] == t[0]);
        assert(t.take(l)[1] == t[1]);
        assert(t.take(l).skip(2) =~= t.skip(2).take(l - 2));
        lemma_hex_decoded_snoc2(t.skip(2), l - 2);
        assert(t.skip(2)[l - 2] == t[l]);
        assert(t.skip(2)[l - 1] == t[l + 1]);
        assert(head + (hex_decoded(t.skip(2).take(l - 2)) + pair) =~= (head + hex_decoded(
            t.skip(2).take(l - 2),
        )) + pair);
    }
}

/// The value of one hex digit byte.
fn hex_digit_value(b: u8) -> (r: u8)
    requires
        is_hex_digit(b),
    ensures
        r == hex_digit_val(b),
        r < 16,
{
    if 48 <= b && b <= 57 {
        b - 48
    } else if 97 <= b && b <= 102 {
        b - 87
    } else {
        b - 55
    }
}

/// Parses a hex string, with an optional `0x` prefix and either letter
/// case, into its bytes.  Succeeds exactly when, after the prefix, the
/// digit count is even and every character is a hex digit; an odd count is
/// `OddLength`, anything besides a hex digit is `InvalidDigit`.
pub fn from_hex_string(s: &str) -> (r: Result<Vec<u8>, HexError>)
    ensures
        ({
            let stripped = strip_hex_prefix(s.spec_bytes());
            &&& (r is Ok <==> (stripped.len() % 2 == 0 && (forall|i: int|
                0 <= i < stripped.len() ==> is_hex_digit(#[trigger] stripped[i]))))
            &&& (r is Ok ==> r->Ok_0@ == hex_decoded(stripped))
            &&& (stripped.len() % 2 != 0 ==> r == Err::<Vec<u8>, HexError>(HexError::OddLength))
            &&& ((stripped.len() % 2 == 0 && (exists|i: int|
                0 <= i < stripped.len() && !is_hex_digit(#[trigger] stripped[i]))) ==> r == Err::<
                Vec<u8>,
                HexError,
            >(HexError::InvalidDigit))
        }),
{
    let bytes = s.as_bytes_vec();
    let ghost all = s.spec_bytes();
    let start: usize = if bytes.len() >= 2 && bytes[0] == 48 && bytes[1] == 120 {
        2
    } else {
        0
    };
    let ghost stripped = strip_hex_prefix(all);
    proof {
        assert(stripped =~= bytes@.skip(start as int));
    }
    let n = bytes.len();
    if (n - start) % 2 != 0 {
        return Err(HexError::OddLength);
    }
    let mut out: Vec<u8> = Vec::new();
    let mut i: usize = start;
    while i < n
        invariant
            start <= i <= n,
            n == bytes@.len(),
            bytes@ == s.spec_bytes(),
            stripped == strip_hex_prefix(s.spec_bytes()),
            stripped == bytes@.skip(start as int),
            (n - start) % 2 == 0,
            (i - start) % 2 == 0,
            forall|j: int| start <= j < i ==> is_hex_digit(#[trigger] bytes@[j]),
            out@ == hex_decoded(stripped.take((i - start) as int)),
        decreases n - i,
    {
        let hi = bytes[i];
        let lo = bytes[i + 1];
        if !((48 <= hi && hi <= 57) || (97 <= hi && hi <= 102) || (65 <= hi && hi <= 70)) {
            proof {
                assert(stripped[(i - start) as int] == bytes@[i as int]);
                assert(!is_hex_digit(stripped[(i - start) as int]));
                assert(!(forall|j: int|
                    0 <= j < stripped.len() ==> is_hex_digit(#[trigger] stripped[j])));
            }
            return Err(HexError::InvalidDigit);
        }
        if !((48 <= lo && lo <= 57) || (97 <= lo && lo <= 102) || (65 <= lo && lo <= 70)) {
            proof {
                assert(stripped[(i + 1 - start) as int] == bytes@[i as int + 1]);
                assert(!is_hex_digit(stripped[(i + 1 - start) as int]));
                assert(!(forall|j: int|
                    0 <= j < stripped.len() ==> is_hex_digit(#[trigger] stripped[j])));
            }
            return Err(HexError::InvalidDigit);
        }
        let v = 16 * hex_digit_value(hi) + hex_digit_value(lo);
        out.push(v);
        proof {
            lemma_hex_decoded_snoc2(stripped, (i - start) as int);
            assert(stripped[(i - start) as int] == hi);
            assert(stripped[(i - start) + 1] == lo);
        }
        i = i + 2;
    }
    proof {
        assert(stripped.take((n - start) as int) =~= stripped);
    }
    Ok(out)
}

} // verus!
