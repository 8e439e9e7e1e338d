//! Decimal rendering and parsing of integers, and small string builders.
use vstd::prelude::*;
use vstd::string::*;
use vstd::utf8::*;

verus! {

broadcast use vstd::utf8::group_utf8_lib;

/// The ASCII digit for `d < 10`.
pub open spec fn digit_char(d: nat) -> char {
    ((48 + d) as u8) as char
}

/// Decimal digits of a natural number, most significant first, no leading zeros.
pub open spec fn decimal_digits(n: nat) -> Seq<char>
    decreases n,
{
    if n < 10 {
        seq![digit_char(n)]
    } else {
        decimal_digits(n / 10).push(digit_char(n % 10))
    }
}

/// Whether `needle` stands somewhere in `text` as one contiguous run.
pub open spec fn occurs_in(needle: Seq<char>, text: Seq<char>) -> bool {
    exists|i: int| 0 <= i && i + needle.len() <= text.len()
        && #[trigger] text.subrange(i, i + needle.len()) == needle
}

/// A run that stands in `m` stands in any text that has `m` between two others.
pub proof fn lemma_occurs_within(needle: Seq<char>, a: Seq<char>, m: Seq<char>, b: Seq<char>)
    requires
        occurs_in(needle, m),
    ensures
        occurs_in(needle, a + m + b),
{
    let i = choose|i: int| 0 <= i && i + needle.len() <= m.len()
        && #[trigger] m.subrange(i, i + needle.len()) == needle;
    let t = a + m + b;
    let j = a.len() + i;
    assert(t.subrange(j, j + needle.len()) =~= m.subrange(i, i + needle.len()));
}

/// Every text holds itself.
pub proof fn lemma_occurs_self(text: Seq<char>)
    ensures
        occurs_in(text, text),
{
    let i: int = 0;
    assert(text.subrange(i, i + text.len()) =~= text);
}

/// Decimal rendering of an integer: a `-` before the digits of a negative value.
pub open spec fn signed_decimal(n: int) -> Seq<char> {
    if n < 0 {
        seq!['-'] + decimal_digits((-n) as nat)
    } else {
        decimal_digits(n as nat)
    }
}

/// Appends one character.
#[verifier::external_body]
pub(crate) fn push_char(s: &mut String, c: char)
    ensures
        final(s)@ == old(s)@.push(c),
{
    s.push(c);
}

fn digit_of(d: u128) -> (c: char)
    requires
        d < 10,
    ensures
        c == digit_char(d as nat),
{
    let b: u8 = 48u8 + (d as u8);
    b as char
}

/// Appends the decimal digits of `n`.
pub fn push_decimal(out: &mut String, n: u128)
    ensures
        final(out)@ == old(out)@ + decimal_digits(n as nat),
    decreases n,
{
    if n >= 10 {
        push_decimal(out, n / 10);
    }
    let c = digit_of(n % 10);
    push_char(out, c);
    assert(old(out)@ + decimal_digits(n as nat) =~= final(out)@) by {
        if n >= 10 {
            assert(decimal_digits(n as nat) == decimal_digits((n / 10) as nat).push(digit_char((n % 10) as nat)));
        }
    }
}


/// Is `b` an ASCII decimal digit?
pub open spec fn is_digit_byte(b: u8) -> bool {
    48 <= b <= 57
}

/// Every byte is a digit and there is at least one.
pub open spec fn all_digit_bytes(s: Seq<u8>) -> bool {
    s.len() > 0 && forall|i: int| 0 <= i < s.len() ==> is_digit_byte(#[trigger] s[i])
}

/// The value of a run of decimal digits.
pub open spec fn digits_value(s: Seq<u8>) -> nat
    decreases s.len(),
{
    if s.len() == 0 {
        0
    } else {
        digits_value(s.drop_last()) * 10 + (s.last() - 48) as nat
    }
}

/// The digits after an optional leading `+`, as read by `str::parse` for an unsigned type.
pub open spec fn unsigned_text_value(s: Seq<u8>) -> Option<nat> {
    let body = if s.len() > 0 && s[0] == 43u8 { s.drop_first() } else { s };
    if all_digit_bytes(body) {
        Some(digits_value(body))
    } else {
        None
    }
}

/// The value read by `str::parse` for a signed type: an optional `+` or `-` and digits.
pub open spec fn signed_text_value(s: Seq<u8>) -> Option<int> {
    if s.len() > 0 && s[0] == 45u8 {
        if all_digit_bytes(s.drop_first()) {
            Some(-(digits_value(s.drop_first()) as int))
        } else {
            None
        }
    } else {
        match unsigned_text_value(s) {
            Some(v) => Some(v as int),
            None => None,
        }
    }
}

/// `str::parse::<usize>`: the value when it is well formed and fits.
pub open spec fn parsed_usize(s: Seq<u8>) -> Option<nat> {
    match unsigned_text_value(s) {
        Some(v) => if v <= usize::MAX { Some(v) } else { None },
        None => None,
    }
}

/// `str::parse::<i64>`: the value when it is well formed and fits.
pub open spec fn parsed_i64(s: Seq<u8>) -> Option<int> {
    match signed_text_value(s) {
        Some(v) => if i64::MIN <= v <= i64::MAX { Some(v) } else { None },
        None => None,
    }
}

proof fn lemma_digits_value_prefix(s: Seq<u8>, k: int)
    requires
        0 <= k <= s.len(),
        forall|i: int| 0 <= i < s.len() ==> is_digit_byte(#[trigger] s[i]),
    ensures
        digits_value(s.subrange(0, k)) <= digits_value(s),
    decreases s.len(),
{
    if k < s.len() {
        assert(s.drop_last().subrange(0, k) =~= s.subrange(0, k));
        lemma_digits_value_prefix(s.drop_last(), k);
    } else {
        assert(s.subrange(0, k) =~= s);
    }
}

/// Value of the digit run `bytes[start..]`, if every byte is a digit, the run is
/// non-empty and the value stays within `u64::MAX`.
fn digit_run_value(bytes: &[u8], start: usize) -> (r: Option<u64>)
    requires
        start <= bytes@.len(),
    ensures
        match r {
            Some(v) => all_digit_bytes(bytes@.skip(start as int))
                && digits_value(bytes@.skip(start as int)) == v as nat,
            None => !(all_digit_bytes(bytes@.skip(start as int))
                && digits_value(bytes@.skip(start as int)) <= u64::MAX),
        },
{
    let len = bytes.len();
    if start >= len {
        return None;
    }
    let ghost body = bytes@.skip(start as int);
    let mut value: u64 = 0;
    let mut i = start;
    while i < len
        invariant
            start <= i <= len,
            len == bytes@.len(),
            body == bytes@.skip(start as int),
            forall|j: int| start <= j < i ==> is_digit_byte(#[trigger] bytes@[j]),
            value as nat == digits_value(bytes@.subrange(start as int, i as int)),
        decreases len - i,
    {
        let b = bytes[i];
        if b < 48 || b > 57 {
            assert(!is_digit_byte(body[i - start]));
            return None;
        }
        let ghost prev = bytes@.subrange(start as int, i as int);
        assert(bytes@.subrange(start as int, i + 1).drop_last() =~= prev);
        let d = (b - 48) as u64;
        if value > 1844674407370955161u64 || (value == 1844674407370955161u64 && d > 5) {
            proof {
                let next = bytes@.subrange(start as int, i + 1);
                assert(digits_value(next) > u64::MAX);
                if all_digit_bytes(body) {
                    assert(body.subrange(0, i + 1 - start) =~= next);
                    lemma_digits_value_prefix(body, i + 1 - start);
                }
            }
            return None;
        }
        value = value * 10 + d;
        i = i + 1;
    }
    assert(bytes@.subrange(start as int, len as int) =~= body);
    Some(value)
}

/// `str::parse::<usize>` on text.
pub fn parse_usize_text(s: &str) -> (r: Option<usize>)
    ensures
        match r {
            Some(v) => parsed_usize(s.spec_bytes()) == Some(v as nat),
            None => parsed_usize(s.spec_bytes()) is None,
        },
{
    let bytes = s.as_bytes();
    let start: usize = if bytes.len() > 0 && bytes[0] == 43u8 { 1 } else { 0 };
    assert(bytes@.skip(0) =~= bytes@);
    assert(bytes@.len() > 0 ==> bytes@.skip(1) =~= bytes@.drop_first());
    match digit_run_value(bytes, start) {
        Some(v) => {
            if v as u128 <= usize::MAX as u128 {
                Some(v as usize)
            } else {
                None
            }
        },
        None => None,
    }
}

/// `str::parse::<i64>` on text.
pub fn parse_i64_text(s: &str) -> (r: Option<i64>)
    ensures
        match r {
            Some(v) => parsed_i64(s.spec_bytes()) == Some(v as int),
            None => parsed_i64(s.spec_bytes()) is None,
        },
{
    let bytes = s.as_bytes();
    let negative = bytes.len() > 0 && bytes[0] == 45u8;
    let start: usize = if bytes.len() > 0 && (bytes[0] == 43u8 || bytes[0] == 45u8) { 1 } else { 0 };
    assert(bytes@.skip(0) =~= bytes@);
    assert(bytes@.len() > 0 ==> bytes@.skip(1) =~= bytes@.drop_first());
    match digit_run_value(bytes, start) {
        Some(v) => {
            if negative {
                if v <= 9223372036854775808u64 {
                    if v == 9223372036854775808u64 {
                        Some(-9223372036854775807i64 - 1)
                    } else {
                        Some(-(v as i64))
                    }
                } else {
                    None
                }
            } else if v <= 9223372036854775807u64 {
                Some(v as i64)
            } else {
                None
            }
        },
        None => None,
    }
}


/// Decimal text of a signed integer.
pub fn signed_decimal_text(n: i128) -> (s: String)
    ensures
        s@ == signed_decimal(n as int),
{
    let mut s = String::new();
    if n < 0 {
        push_char(&mut s, '-');
        let magnitude: u128 = if n == i128::MIN { 170141183460469231731687303715884105728u128 } else { (-n) as u128 };
        push_decimal(&mut s, magnitude);
        assert(s@ =~= seq!['-'] + decimal_digits((-n) as nat));
    } else {
        push_decimal(&mut s, n as u128);
        assert(s@ =~= decimal_digits(n as nat));
    }
    s
}

/// Decimal text of an unsigned integer.
pub fn decimal_text(n: u128) -> (s: String)
    ensures
        s@ == decimal_digits(n as nat),
{
    let mut s = String::new();
    push_decimal(&mut s, n);
    assert(s@ =~= decimal_digits(n as nat));
    s
}

/// The decimal digits are ASCII, and their UTF-8 bytes read back as the same number.
pub proof fn lemma_decimal_digits_read_back(n: nat)
    ensures
        is_ascii_chars(decimal_digits(n)),
        all_digit_bytes(encode_utf8(decimal_digits(n))),
        digits_value(encode_utf8(decimal_digits(n))) == n,
        encode_utf8(decimal_digits(n)).len() == decimal_digits(n).len(),
        is_digit_byte(encode_utf8(decimal_digits(n))[0]),
    decreases n,
{
    let ds = decimal_digits(n);
    if n < 10 {
        assert(is_ascii_chars(ds));
        is_ascii_chars_encode_utf8(ds);
        let b = encode_utf8(ds);
        assert(b.len() == 1);
        assert(b[0] == (48 + n) as u8);
        assert(b.drop_last() =~= Seq::<u8>::empty());
        assert(digits_value(b.drop_last()) == 0);
    } else {
        lemma_decimal_digits_read_back(n / 10);
        let prev = decimal_digits(n / 10);
        assert(is_ascii_chars(ds));
        is_ascii_chars_encode_utf8(ds);
        is_ascii_chars_encode_utf8(prev);
        let b = encode_utf8(ds);
        let pb = encode_utf8(prev);
        assert(b.drop_last() =~= pb);
        assert(b.last() == (48 + n % 10) as u8);
        assert(n == (n / 10) * 10 + n % 10);
        assert(digits_value(b) == digits_value(pb) * 10 + (n % 10));
        assert(forall|i: int| 0 <= i < b.len() ==> is_digit_byte(#[trigger] b[i])) by {
            assert forall|i: int| 0 <= i < b.len() implies is_digit_byte(#[trigger] b[i]) by {
                if i < pb.len() {
                    assert(b[i] == pb[i]);
                }
            }
        }
    }
}

/// A positive number's decimal text parses back as that number.
pub proof fn lemma_decimal_parses_as_i64(n: int)
    requires
        0 <= n <= i64::MAX,
    ensures
        parsed_i64(encode_utf8(decimal_digits(n as nat))) == Some(n),
{
    lemma_decimal_digits_read_back(n as nat);
}


/// `std::str::from_utf8`: the text whose UTF-8 bytes are `bytes`, when they are valid UTF-8.
#[verifier::external_body]
pub(crate) fn utf8_text(bytes: &[u8]) -> (r: Result<&str, std::str::Utf8Error>)
    ensures
        r is Ok <==> valid_utf8(bytes@),
        r matches Ok(t) ==> t.spec_bytes() == bytes@,
{
    std::str::from_utf8(bytes)
}

/// UTF-8 encoding distributes over concatenation.
pub proof fn lemma_encode_utf8_concat(a: Seq<char>, b: Seq<char>)
    ensures
        encode_utf8(a + b) == encode_utf8(a) + encode_utf8(b),
    decreases a.len(),
{
    if a.len() == 0 {
        assert(a + b =~= b);
        assert(encode_utf8(a) =~= Seq::<u8>::empty());
        assert(encode_utf8(a) + encode_utf8(b) =~= encode_utf8(b));
    } else {
        assert((a + b).drop_first() =~= a.drop_first() + b);
        assert((a + b)[0] == a[0]);
        lemma_encode_utf8_concat(a.drop_first(), b);
        assert(encode_utf8(a + b) =~= encode_utf8(a) + encode_utf8(b));
    }
}

/// Two texts are equal exactly when their UTF-8 bytes are.
pub proof fn lemma_same_bytes_same_text(a: Seq<char>, b: Seq<char>)
    requires
        encode_utf8(a) == encode_utf8(b),
    ensures
        a == b,
{
    encode_utf8_decode_utf8(a);
    encode_utf8_decode_utf8(b);
}

/// Do two texts hold the same characters?
pub fn same_text(a: &str, b: &str) -> (r: bool)
    ensures
        r == (a@ == b@),
{
    let ab = a.as_bytes();
    let bb = b.as_bytes();
    if ab.len() != bb.len() {
        return false;
    }
    let n = ab.len();
    let mut i: usize = 0;
    while i < n
        invariant
            n == ab@.len(),
            n == bb@.len(),
            ab@ == a.spec_bytes(),
            bb@ == b.spec_bytes(),
            i <= n,
            forall|j: int| 0 <= j < i ==> ab@[j] == bb@[j],
        decreases n - i,
    {
        if ab[i] != bb[i] {
            return false;
        }
        i = i + 1;
    }
    assert(ab@ =~= bb@);
    proof { lemma_same_bytes_same_text(a@, b@); }
    true
}

} // verus!
