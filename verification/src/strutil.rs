//! Verified string utilities: comparison, decimal parsing and formatting,
//! percent-encoding for URL query parameters, and case normalization.
use vstd::prelude::*;
use vstd::string::*;

verus! {

/// Character-wise equality of two string slices.
pub fn str_eq(a: &str, b: &str) -> (r: bool)
    ensures
        r == (a@ == b@),
{
    let la = a.unicode_len();
    let lb = b.unicode_len();
    if la != lb {
        return false;
    }
    let mut i: usize = 0;
    while i < la
        invariant
            la == a@.len(),
            lb == b@.len(),
            la == lb,
            i <= la,
            forall|j: int| 0 <= j < i ==> a@[j] == b@[j],
        decreases la - i,
    {
        if a.get_char(i) != b.get_char(i) {
            return false;
        }
        i += 1;
    }
    proof {
        assert(a@ =~= b@);
    }
    true
}

/// The ten decimal digit characters.
pub open spec fn is_decimal_digit(c: char) -> bool {
    '0' <= c && c <= '9'
}

/// The numeric value of a decimal digit character.
pub open spec fn digit_value(c: char) -> int {
    (c as u32) as int - 48
}

pub open spec fn all_decimal_digits(s: Seq<char>) -> bool {
    forall|i: int| 0 <= i < s.len() ==> is_decimal_digit(#[trigger] s[i])
}

/// The number denoted by a sequence of decimal digit characters.
pub open spec fn decimal_value(s: Seq<char>) -> int
    decreases s.len(),
{
    if s.len() == 0 {
        0
    } else {
        decimal_value(s.drop_last()) * 10 + digit_value(s.last())
    }
}

/// How `str::parse::<u16>` reads a string: an optional leading `+`,
/// then one or more decimal digits whose value fits in a `u16`.
pub open spec fn spec_parse_u16(s: Seq<char>) -> Option<u16> {
    let body = if s.len() > 0 && s[0] == '+' {
        s.skip(1)
    } else {
        s
    };
    if body.len() > 0 && all_decimal_digits(body) && decimal_value(body) <= u16::MAX {
        Some(decimal_value(body) as u16)
    } else {
        None
    }
}

proof fn lemma_decimal_value_nonneg(s: Seq<char>)
    requires
        all_decimal_digits(s),
    ensures
        decimal_value(s) >= 0,
    decreases s.len(),
{
    if s.len() > 0 {
        assert(all_decimal_digits(s.drop_last()));
        lemma_decimal_value_nonneg(s.drop_last());
    }
}

proof fn lemma_decimal_value_prefix_bound(s: Seq<char>, i: int)
    requires
        all_decimal_digits(s),
        0 <= i <= s.len(),
    ensures
        decimal_value(s) >= decimal_value(s.take(i)),
    decreases s.len() - i,
{
    if i < s.len() {
        let t = s.take(i + 1);
        assert(t.drop_last() =~= s.take(i));
        assert(all_decimal_digits(s.take(i)));
        lemma_decimal_value_nonneg(s.take(i));
        assert(decimal_value(t) == decimal_value(s.take(i)) * 10 + digit_value(s[i]));
        lemma_decimal_value_prefix_bound(s, i + 1);
    } else {
        assert(s.take(i) =~= s);
    }
}

/// Parses a decimal `u16`, accepting exactly the strings `str::parse::<u16>`
/// accepts.
pub fn parse_u16(s: &str) -> (r: Option<u16>)
    ensures
        r == spec_parse_u16(s@),
{
    let len = s.unicode_len();
    let start: usize = if len > 0 && s.get_char(0) == '+' {
        1
    } else {
        0
    };
    let ghost body = if start == 1 {
        s@.skip(1)
    } else {
        s@
    };
    if len <= start {
        return None;
    }
    let mut acc: u32 = 0;
    let mut i: usize = start;
    while i < len
        invariant
            len == s@.len(),
            start <= i <= len,
            start <= 1,
            (start == 1) == (s@.len() > 0 && s@[0] == '+'),
            start as int + body.len() == len,
            body == if start == 1 { s@.skip(1) } else { s@ },
            forall|j: int| 0 <= j < body.len() ==> body[j] == s@[j + start],
            all_decimal_digits(body.take(i - start)),
            acc == decimal_value(body.take(i - start)),
            acc <= 65535,
        decreases len - i,
    {
        let c = s.get_char(i);
        if !('0' <= c && c <= '9') {
            assert(!is_decimal_digit(body[i - start]));
            return None;
        }
        let d: u32 = (c as u32) - 48;
        let next: u32 = acc * 10 + d;
        proof {
            assert(body.take(i - start + 1).drop_last() =~= body.take(i - start));
            assert(body.take(i - start + 1).last() == body[i - start]);
        }
        if next > 65535 {
            proof {
                if all_decimal_digits(body) {
                    lemma_decimal_value_prefix_bound(body, i - start + 1);
                    assert(decimal_value(body) >= decimal_value(body.take(i - start + 1)));
                }
            }
            return None;
        }
        acc = next;
        i += 1;
    }
    proof {
        assert(body.take(i - start) =~= body);
    }
    Some(acc as u16)
}

/// The decimal digit character for a value below ten, and the uppercase
/// hexadecimal digit character for a value below sixteen.
pub open spec fn hex_digit_char(n: int) -> char {
    if n < 10 {
        ((48 + n) as u8) as char
    } else {
        ((55 + n) as u8) as char
    }
}

fn hex_digit_byte(n: u8) -> (b: u8)
    requires
        n < 16,
    ensures
        b < 128,
        b as char == hex_digit_char(n as int),
{
    if n < 10 {
        48 + n
    } else {
        55 + n
    }
}

/// The decimal notation of a non-negative number.
pub open spec fn decimal_digits(n: int) -> Seq<char>
    recommends
        n >= 0,
    decreases n,
{
    if n < 10 {
        seq![hex_digit_char(n)]
    } else {
        decimal_digits(n / 10).push(hex_digit_char(n % 10))
    }
}

/// Relies on `String::from_utf8`: ASCII bytes are valid UTF-8 and decode to
/// one character per byte.
#[verifier::external_body]
pub(crate) fn ascii_to_string(bytes: Vec<u8>) -> (r: String)
    requires
        forall|i: int| 0 <= i < bytes@.len() ==> bytes@[i] < 128,
    ensures
        r@ == bytes@.map_values(|b: u8| b as char),
{
    String::from_utf8(bytes).unwrap()
}

fn u16_decimal_bytes(n: u16) -> (v: Vec<u8>)
    ensures
        v@.map_values(|b: u8| b as char) == decimal_digits(n as int),
        forall|i: int| 0 <= i < v@.len() ==> v@[i] < 128,
    decreases n,
{
    if n < 10 {
        let mut v: Vec<u8> = Vec::new();
        v.push(48 + (n as u8));
        proof {
            assert(v@.map_values(|b: u8| b as char) =~= decimal_digits(n as int));
        }
        v
    } else {
        let mut v = u16_decimal_bytes(n / 10);
        v.push(48 + ((n % 10) as u8));
        proof {
            assert(v@.map_values(|b: u8| b as char) =~= decimal_digits(n as int));
        }
        v
    }
}

/// Formats a number in decimal notation.
pub fn u16_to_string(n: u16) -> (r: String)
    ensures
        r@ == decimal_digits(n as int),
{
    ascii_to_string(u16_decimal_bytes(n))
}

/// The characters a URL query component may carry unencoded.
pub open spec fn is_unreserved(c: char) -> bool {
    ('A' <= c && c <= 'Z') || ('a' <= c && c <= 'z') || ('0' <= c && c <= '9') || c == '-' || c
        == '.' || c == '_' || c == '~'
}

/// How one character appears in a percent-encoded query component.
pub open spec fn encoded_char(c: char) -> Seq<char> {
    if is_unreserved(c) {
        seq![c]
    } else {
        seq!['%', hex_digit_char((c as u32) as int / 16), hex_digit_char((c as u32) as int % 16)]
    }
}

/// The percent-encoding of a character sequence.
pub open spec fn percent_encoded(s: Seq<char>) -> Seq<char>
    decreases s.len(),
{
    if s.len() == 0 {
        Seq::empty()
    } else {
        percent_encoded(s.drop_last()) + encoded_char(s.last())
    }
}

/// Percent-encodes a string for use as a URL query parameter value.
pub fn urlencode(s: &str) -> (r: String)
    requires
        is_ascii(s),
    ensures
        r@ == percent_encoded(s@),
{
    let len = s.unicode_len();
    let mut out: Vec<u8> = Vec::new();
    let mut i: usize = 0;
    while i < len
        invariant
            is_ascii(s),
            len == s@.len(),
            i <= len,
            out@.map_values(|b: u8| b as char) == percent_encoded(s@.take(i as int)),
            forall|j: int| 0 <= j < out@.len() ==> out@[j] < 128,
        decreases len - i,
    {
        let c = s.get_char(i);
        let code = c as u32;
        assert(code < 128);
        proof {
            assert(s@.take(i + 1).drop_last() =~= s@.take(i as int));
            assert(s@.take(i + 1).last() == s@[i as int]);
        }
        if (65 <= code && code <= 90) || (97 <= code && code <= 122) || (48 <= code && code <= 57)
            || code == 45 || code == 46 || code == 95 || code == 126 {
            out.push(code as u8);
            proof {
                assert(out@.map_values(|b: u8| b as char) =~= percent_encoded(s@.take(i + 1)));
            }
        } else {
            out.push(37);
            out.push(hex_digit_byte((code / 16) as u8));
            out.push(hex_digit_byte((code % 16) as u8));
            proof {
                assert(out@.map_values(|b: u8| b as char) =~= percent_encoded(s@.take(i + 1)));
            }
        }
        i += 1;
    }
    proof {
        assert(s@.take(len as int) =~= s@);
    }
    ascii_to_string(out)
}

/// What `str::to_uppercase` returns: a function of the input characters
/// alone.
pub uninterp spec fn upper_of(s: Seq<char>) -> Seq<char>;

/// Relies on `str::to_uppercase`: the result depends on the input characters
/// alone.
#[verifier::external_body]
pub(crate) fn to_upper(s: &str) -> (r: String)
    ensures
        r@ == upper_of(s@),
{
    s.to_uppercase()
}

} // verus!
