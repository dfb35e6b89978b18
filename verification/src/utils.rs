//! Hexadecimal text, decimal text of unsigned integers, and the time in
//! milliseconds.

use crate::clock::{epoch_millis, read_system_clock, whole_millis, NANOS_PER_SECOND};
use vstd::prelude::*;

verus! {

/// The upper-case hexadecimal digit that stands for `n`, for `n` below 16:
/// `0` to `9`, then `A` to `F`.
pub open spec fn hex_digit(n: int) -> char {
    if 0 <= n < 10 {
        (n + 48) as u8 as char
    } else if 10 <= n < 16 {
        (n + 55) as u8 as char
    } else {
        '0'
    }
}

/// The value of an upper-case hexadecimal digit, or `None` for any other
/// character.
pub open spec fn hex_value(c: char) -> Option<int> {
    if '0' <= c <= '9' {
        Some(c as int - 48)
    } else if 'A' <= c <= 'F' {
        Some(c as int - 55)
    } else {
        None
    }
}

/// The hexadecimal text of a byte sequence: two upper-case digits per byte,
/// the high half first, nothing between the bytes.
pub open spec fn hex_encode(bytes: Seq<u8>) -> Seq<char> {
    Seq::new(
        2 * bytes.len(),
        |i: int|
            if i % 2 == 0 {
                hex_digit(bytes[i / 2] as int / 16)
            } else {
                hex_digit(bytes[i / 2] as int % 16)
            },
    )
}

/// Whether `text` is the hexadecimal text of some byte sequence: an even
/// number of upper-case hexadecimal digits.
pub open spec fn is_hex_text(text: Seq<char>) -> bool {
    &&& text.len() % 2 == 0
    &&& forall|i: int| 0 <= i < text.len() ==> (#[trigger] hex_value(text[i])) is Some
}

/// The bytes that a hexadecimal text stands for, or `None` where the text is
/// no hexadecimal text.
pub open spec fn hex_decode(text: Seq<char>) -> Option<Seq<u8>> {
    if is_hex_text(text) {
        Some(
            Seq::new(
                text.len() / 2,
                |k: int|
                    (hex_value(text[2 * k]).unwrap() * 16 + hex_value(
                        text[2 * k + 1],
                    ).unwrap()) as u8,
            ),
        )
    } else {
        None
    }
}

/// `String::push` appends one character to the text.
pub assume_specification[ String::push ](text: &mut String, c: char)
    ensures
        final(text)@ == old(text)@.push(c),
;

/// The digit for a value below 16.
fn hex_digit_of(n: u8) -> (c: char)
    requires
        n < 16,
    ensures
        c == hex_digit(n as int),
{
    if n < 10 {
        (n + 48) as char
    } else {
        (n + 55) as char
    }
}

/// Writes `bytes` as upper-case hexadecimal text, two digits per byte.
pub fn to_hex(bytes: &[u8]) -> (out: String)
    ensures
        out@ == hex_encode(bytes@),
{
    let mut out = String::new();
    let mut i: usize = 0;
    while i < bytes.len()
        invariant
            i <= bytes.len(),
            out@ == hex_encode(bytes@.take(i as int)),
        decreases bytes.len() - i,
    {
        let byte: u8 = bytes[i];
        out.push(hex_digit_of(byte / 16));
        out.push(hex_digit_of(byte % 16));
        i += 1;
        assert(out@ =~= hex_encode(bytes@.take(i as int)));
    }
    assert(bytes@.take(i as int) =~= bytes@);
    out
}

/// The value of an upper-case hexadecimal digit given by its code.
fn hex_value_of(b: u8, Ghost(c): Ghost<char>) -> (v: Option<u8>)
    requires
        c as int == b as int,
    ensures
        match v {
            Some(n) => hex_value(c) == Some(n as int) && n < 16,
            None => hex_value(c) is None,
        },
{
    if 48 <= b && b <= 57 {
        Some(b - 48)
    } else if 65 <= b && b <= 70 {
        Some(b - 55)
    } else {
        None
    }
}

/// Reads upper-case hexadecimal text back into bytes. Text of odd length, or
/// with a character that is no upper-case hexadecimal digit, gives `None`.
pub fn from_hex(text: &str) -> (out: Option<Vec<u8>>)
    ensures
        match out {
            Some(bytes) => hex_decode(text@) == Some(bytes@),
            None => hex_decode(text@) is None,
        },
{
    if !text.is_ascii() {
        proof {
            if is_hex_text(text@) {
                assert forall|i: int| 0 <= i < text@.len() implies '\0' <= #[trigger] text@[i]
                    <= '\u{7f}' by {
                    assert(hex_value(text@[i]) is Some);
                }
                assert(vstd::utf8::is_ascii_chars(text@));
            }
        }
        return None;
    }
    let raw = text.as_bytes();
    proof {
        vstd::utf8::is_ascii_chars_encode_utf8(text@);
        vstd::utf8::is_ascii_chars_nat_bound(text@);
    }
    let n = raw.len();
    if n % 2 != 0 {
        return None;
    }
    let mut bytes: Vec<u8> = Vec::new();
    let mut k: usize = 0;
    while k < n / 2
        invariant
            n == raw@.len(),
            n == text@.len(),
            n % 2 == 0,
            k <= n / 2,
            forall|i: int| 0 <= i < n ==> raw@[i] as int == text@[i] as int,
            forall|i: int| 0 <= i < 2 * k ==> (#[trigger] hex_value(text@[i])) is Some,
            bytes@.len() == k,
            forall|j: int|
                0 <= j < k ==> bytes@[j] == (hex_value(text@[2 * j]).unwrap() * 16 + hex_value(
                    text@[2 * j + 1],
                ).unwrap()) as u8,
        decreases n / 2 - k,
    {
        let high_byte: u8 = raw[2 * k];
        let low_byte: u8 = raw[2 * k + 1];
        let high = hex_value_of(high_byte, Ghost(text@[2 * k]));
        let low = hex_value_of(low_byte, Ghost(text@[2 * k + 1]));
        match (high, low) {
            (Some(h), Some(l)) => {
                bytes.push(h * 16 + l);
            },
            _ => {
                return None;
            },
        }
        k += 1;
    }
    proof {
        assert(is_hex_text(text@));
        assert(bytes@ =~= hex_decode(text@).unwrap());
    }
    Some(bytes)
}

/// Every digit that `hex_digit` writes is read back by `hex_value`.
pub proof fn lemma_hex_digit_value(n: int)
    requires
        0 <= n < 16,
    ensures
        hex_value(hex_digit(n)) == Some(n),
{
}

/// Every digit that `hex_value` reads is written back by `hex_digit`.
pub proof fn lemma_hex_value_digit(c: char)
    requires
        hex_value(c) is Some,
    ensures
        0 <= hex_value(c).unwrap() < 16,
        hex_digit(hex_value(c).unwrap()) == c,
{
}

/// The two digits of a byte are read back as the byte.
pub proof fn lemma_hex_byte_round_trip(b: u8)
    ensures
        hex_value(hex_digit(b as int / 16)) == Some(b as int / 16),
        hex_value(hex_digit(b as int % 16)) == Some(b as int % 16),
        (b as int / 16) * 16 + b as int % 16 == b,
{
    lemma_hex_digit_value(b as int / 16);
    lemma_hex_digit_value(b as int % 16);
}

/// The byte that two digits stand for is written back as those digits.
pub proof fn lemma_hex_pair_round_trip(high: char, low: char)
    requires
        hex_value(high) is Some,
        hex_value(low) is Some,
    ensures
        0 <= hex_value(high).unwrap() * 16 + hex_value(low).unwrap() < 256,
        hex_digit((hex_value(high).unwrap() * 16 + hex_value(low).unwrap()) / 16) == high,
        hex_digit((hex_value(high).unwrap() * 16 + hex_value(low).unwrap()) % 16) == low,
{
    lemma_hex_value_digit(high);
    lemma_hex_value_digit(low);
    let h = hex_value(high).unwrap();
    let l = hex_value(low).unwrap();
    assert((h * 16 + l) / 16 == h && (h * 16 + l) % 16 == l);
}

/// Decoding the hexadecimal text of a byte sequence gives the bytes back.
pub proof fn lemma_hex_round_trip(bytes: Seq<u8>)
    ensures
        is_hex_text(hex_encode(bytes)),
        hex_decode(hex_encode(bytes)) == Some(bytes),
{
    let text = hex_encode(bytes);
    assert forall|i: int| 0 <= i < text.len() implies (#[trigger] hex_value(text[i])) is Some by {
        lemma_hex_byte_round_trip(bytes[i / 2]);
    }
    assert(is_hex_text(text));
    let back = hex_decode(text).unwrap();
    assert forall|k: int| 0 <= k < bytes.len() implies back[k] == bytes[k] by {
        lemma_hex_byte_round_trip(bytes[k]);
        assert((2 * k) % 2 == 0 && (2 * k) / 2 == k);
        assert((2 * k + 1) % 2 == 1 && (2 * k + 1) / 2 == k);
        assert(text[2 * k] == hex_digit(bytes[k] as int / 16));
        assert(text[2 * k + 1] == hex_digit(bytes[k] as int % 16));
    }
    assert(back =~= bytes);
}

/// Encoding the bytes that a hexadecimal text stands for gives the text back.
pub proof fn lemma_hex_text_round_trip(text: Seq<char>)
    requires
        is_hex_text(text),
    ensures
        hex_encode(hex_decode(text).unwrap()) == text,
{
    let bytes = hex_decode(text).unwrap();
    let again = hex_encode(bytes);
    assert forall|i: int| 0 <= i < text.len() implies again[i] == text[i] by {
        let k = i / 2;
        assert(i == 2 * k || i == 2 * k + 1);
        assert(hex_value(text[2 * k]) is Some);
        assert(hex_value(text[2 * k + 1]) is Some);
        lemma_hex_pair_round_trip(text[2 * k], text[2 * k + 1]);
        assert(bytes[k] as int == hex_value(text[2 * k]).unwrap() * 16 + hex_value(
            text[2 * k + 1],
        ).unwrap());
    }
    assert(again =~= text);
}

/// Two byte sequences with the same hexadecimal text are the same sequence.
pub proof fn lemma_hex_encode_injective(a: Seq<u8>, b: Seq<u8>)
    requires
        hex_encode(a) == hex_encode(b),
    ensures
        a == b,
{
    lemma_hex_round_trip(a);
    lemma_hex_round_trip(b);
}

/// The decimal text of a natural number: its digits, the highest first, with
/// no sign and no leading zero; `0` for zero.
pub open spec fn decimal_digits(n: nat) -> Seq<char>
    decreases n,
{
    if n < 10 {
        seq![hex_digit(n as int)]
    } else {
        decimal_digits(n / 10).push(hex_digit((n % 10) as int))
    }
}

/// Decimal text is never empty.
pub proof fn lemma_decimal_digits_len(n: nat)
    ensures
        decimal_digits(n).len() >= 1,
        n >= 10 ==> decimal_digits(n).len() >= 2,
    decreases n,
{
    if n >= 10 {
        lemma_decimal_digits_len(n / 10);
    }
}

/// Two numbers with the same decimal text are the same number.
pub proof fn lemma_decimal_digits_injective(a: nat, b: nat)
    requires
        decimal_digits(a) == decimal_digits(b),
    ensures
        a == b,
    decreases a,
{
    lemma_decimal_digits_len(a);
    lemma_decimal_digits_len(b);
    if a < 10 {
        assert(decimal_digits(a).len() == 1);
        assert(b < 10);
        assert(decimal_digits(a)[0] == decimal_digits(b)[0]);
        lemma_hex_digit_value(a as int);
        lemma_hex_digit_value(b as int);
        assert(decimal_digits(a)[0] == hex_digit(a as int));
        assert(decimal_digits(b)[0] == hex_digit(b as int));
        assert(Some(a as int) == Some(b as int));
    } else {
        assert(b >= 10);
        let da = decimal_digits(a / 10);
        let db = decimal_digits(b / 10);
        let ca = hex_digit((a % 10) as int);
        let cb = hex_digit((b % 10) as int);
        assert(da.push(ca) == db.push(cb));
        assert(da =~= da.push(ca).drop_last());
        assert(db =~= db.push(cb).drop_last());
        assert(ca == da.push(ca).last());
        assert(cb == db.push(cb).last());
        lemma_hex_digit_value((a % 10) as int);
        lemma_hex_digit_value((b % 10) as int);
        lemma_decimal_digits_injective(a / 10, b / 10);
        assert(Some((a % 10) as int) == Some((b % 10) as int));
        assert(a == 10 * (a / 10) + a % 10);
        assert(b == 10 * (b / 10) + b % 10);
    }
}

/// Appends the decimal text of `n` to `out`.
pub fn push_decimal(out: &mut String, n: u128)
    ensures
        final(out)@ == old(out)@ + decimal_digits(n as nat),
    decreases n,
{
    if n >= 10 {
        push_decimal(out, n / 10);
    }
    let last: u8 = (n % 10) as u8;
    out.push(hex_digit_of(last));
    proof {
        if n < 10 {
            assert(final(out)@ =~= old(out)@ + decimal_digits(n as nat));
        } else {
            assert(old(out)@ + decimal_digits(n as nat) =~= (old(out)@ + decimal_digits(
                (n / 10) as nat,
            )).push(hex_digit((n % 10) as int)));
        }
    }
}

/// The system clock's time in whole milliseconds since the Unix epoch, or
/// `None` where the clock stands before the epoch.
///
/// The number is the whole milliseconds of some time of whole seconds and
/// less than a second of nanoseconds: the time that the clock showed. Which
/// time that is, no contract can say; `epoch_millis` says which number comes
/// of which reading.
pub fn get_unix_epoch_millis() -> (millis: Option<u128>)
    ensures
        millis is Some ==> exists|seconds: u64, nanos: u32|
            nanos < NANOS_PER_SECOND && millis.unwrap() == #[trigger] whole_millis(seconds, nanos),
        millis is Some ==> millis.unwrap() <= 18_446_744_073_709_551_615_999,
{
    epoch_millis(read_system_clock())
}

} // verus!
