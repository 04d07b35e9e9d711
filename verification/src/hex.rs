//! Lowercase hexadecimal text for byte sequences, and its inverse.

use vstd::prelude::*;
use vstd::string::*;

verus! {

/// Why a text could not be decoded into bytes.
#[derive(Debug, Clone, Copy, PartialEq, Eq, Structural)]
pub enum DecodeHexError {
    /// The text has an odd number of characters.
    OddLength,
    /// The text has an even number of characters, one of which is no
    /// hexadecimal digit.
    InvalidDigit,
}

impl DecodeHexError {
    /// The text that [`DecodeHexError::message`] gives.
    pub open spec fn message_text(self) -> Seq<char> {
        match self {
            DecodeHexError::OddLength => "input string has an odd number of bytes"@,
            DecodeHexError::InvalidDigit => "invalid digit found in string"@,
        }
    }

    /// A sentence for the user that says what was wrong with the text.
    pub fn message(&self) -> (text: String)
        ensures
            text@ == self.message_text(),
    {
        match self {
            DecodeHexError::OddLength => String::from_str(
                "input string has an odd number of bytes",
            ),
            DecodeHexError::InvalidDigit => String::from_str("invalid digit found in string"),
        }
    }
}

/// The lowercase hexadecimal digit for a value below sixteen.
pub open spec fn hex_digit(value: int) -> char {
    if value < 10 {
        ('0' as u8 + value) as u8 as char
    } else {
        ('a' as u8 + value - 10) as u8 as char
    }
}

/// The value of a hexadecimal digit of either case, `None` for any other
/// character.
pub open spec fn hex_value(c: char) -> Option<int> {
    if '0' <= c <= '9' {
        Some(c as int - '0' as int)
    } else if 'a' <= c <= 'f' {
        Some(c as int - 'a' as int + 10)
    } else if 'A' <= c <= 'F' {
        Some(c as int - 'A' as int + 10)
    } else {
        None
    }
}

/// Whether every character of `text` is a hexadecimal digit.
pub open spec fn is_hex(text: Seq<char>) -> bool {
    forall|i: int| 0 <= i < text.len() ==> (#[trigger] hex_value(text[i])) is Some
}

/// Whether every character of `text` is a digit or a lowercase letter from
/// `a` to `f`: the alphabet that encoding produces.
pub open spec fn is_lower_hex(text: Seq<char>) -> bool {
    forall|i: int|
        0 <= i < text.len() ==> {
            let c = #[trigger] text[i];
            '0' <= c <= '9' || 'a' <= c <= 'f'
        }
}

/// The text that encodes `bytes`: two digits per byte, high nibble first,
/// bytes in order.
pub open spec fn encoded(bytes: Seq<u8>) -> Seq<char> {
    Seq::new(
        2 * bytes.len(),
        |i: int|
            if i % 2 == 0 {
                hex_digit(bytes[i / 2] as int / 16)
            } else {
                hex_digit(bytes[i / 2] as int % 16)
            },
    )
}

/// The byte that the two digits at positions `2 * k` and `2 * k + 1` of
/// `text` stand for.
pub open spec fn byte_at(text: Seq<char>, k: int) -> u8 {
    (16 * hex_value(text[2 * k])->0 + hex_value(text[2 * k + 1])->0) as u8
}

/// The bytes that a text of hexadecimal digits stands for, one per pair of
/// digits.
pub open spec fn decoded_bytes(text: Seq<char>) -> Seq<u8> {
    Seq::new(text.len() / 2, |k: int| byte_at(text, k))
}

/// What decoding `text` gives: an odd length is reported first, then a
/// character that is no digit; any other text decodes.
pub open spec fn decoded(text: Seq<char>) -> Result<Seq<u8>, DecodeHexError> {
    if text.len() % 2 != 0 {
        Err(DecodeHexError::OddLength)
    } else if !is_hex(text) {
        Err(DecodeHexError::InvalidDigit)
    } else {
        Ok(decoded_bytes(text))
    }
}

/// The view of a decoding result: the bytes as a sequence, or the error.
pub open spec fn decode_result(r: Result<Vec<u8>, DecodeHexError>) -> Result<
    Seq<u8>,
    DecodeHexError,
> {
    match r {
        Ok(bytes) => Ok(bytes@),
        Err(e) => Err(e),
    }
}

/// Encodes `bytes` as lowercase hexadecimal text, two digits per byte.
pub fn encode_hex(bytes: &[u8]) -> (text: String)
    ensures
        text@ == encoded(bytes@),
{
    let digits = "0123456789abcdef";
    proof {
        reveal_strlit("0123456789abcdef");
    }
    let mut text = String::new();
    let mut i: usize = 0;
    while i < bytes.len()
        invariant
            i <= bytes.len(),
            digits.is_ascii(),
            digits@.len() == 16,
            forall|v: int| 0 <= v < 16 ==> digits@[v] == hex_digit(v),
            text@ == encoded(bytes@.take(i as int)),
        decreases bytes.len() - i,
    {
        let byte = bytes[i];
        let high: usize = (byte / 16) as usize;
        let low: usize = (byte % 16) as usize;
        text.append(digits.substring_ascii(high, high + 1));
        text.append(digits.substring_ascii(low, low + 1));
        i += 1;
        assert(text@ =~= encoded(bytes@.take(i as int)));
    }
    assert(bytes@.take(i as int) =~= bytes@);
    text
}

/// The value of the hexadecimal digit whose ASCII code is `code`.
fn digit_value(code: u8) -> (value: Option<u8>)
    ensures
        match value {
            Some(v) => hex_value(code as char) == Some(v as int) && v < 16,
            None => hex_value(code as char) is None,
        },
{
    if 48 <= code && code <= 57 {
        Some(code - 48)
    } else if 97 <= code && code <= 102 {
        Some(code - 87)
    } else if 65 <= code && code <= 70 {
        Some(code - 55)
    } else {
        None
    }
}

/// Decodes hexadecimal text into bytes, one per pair of digits; digits of
/// either case are read.
///
/// A text with an odd number of characters gives `OddLength`, whatever it
/// holds; a text of even length with a character that is no hexadecimal
/// digit gives `InvalidDigit`.
pub fn decode_hex(s: &str) -> (r: Result<Vec<u8>, DecodeHexError>)
    ensures
        decode_result(r) == decoded(s@),
{
    if !s.is_ascii() {
        // Some character lies outside ASCII, so it is no digit.
        let count = s.unicode_len();
        proof {
            let i = choose|i: int| 0 <= i < s@.len() && !('\0' <= #[trigger] s@[i] <= '\u{7f}');
            assert(hex_value(s@[i]) is None);
        }
        return if count % 2 != 0 {
            Err(DecodeHexError::OddLength)
        } else {
            Err(DecodeHexError::InvalidDigit)
        };
    }
    let codes = s.as_bytes();
    proof {
        is_ascii_spec_bytes(s);
    }
    let n = codes.len();
    assert forall|i: int| 0 <= i < n implies (#[trigger] codes@[i]) as char == s@[i] by {
        assert(s@[i] <= '\u{7f}');
    }
    if n % 2 != 0 {
        return Err(DecodeHexError::OddLength);
    }
    let mut bytes: Vec<u8> = Vec::new();
    let mut k: usize = 0;
    while k < n / 2
        invariant
            n == s@.len(),
            n == codes@.len(),
            n % 2 == 0,
            k <= n / 2,
            forall|i: int| 0 <= i < n ==> (#[trigger] codes@[i]) as char == s@[i],
            bytes@.len() == k,
            forall|i: int| 0 <= i < 2 * k ==> (#[trigger] hex_value(s@[i])) is Some,
            forall|j: int| 0 <= j < k ==> bytes@[j] == byte_at(s@, j),
        decreases n / 2 - k,
    {
        let high = digit_value(codes[2 * k]);
        let low = digit_value(codes[2 * k + 1]);
        assert(codes@[2 * k as int] as char == s@[2 * k as int]);
        assert(codes@[2 * k + 1] as char == s@[2 * k + 1]);
        match (high, low) {
            (Some(h), Some(l)) => {
                bytes.push(16 * h + l);
            },
            _ => {
                assert(hex_value(s@[2 * k as int]) is None || hex_value(s@[2 * k + 1]) is None);
                return Err(DecodeHexError::InvalidDigit);
            },
        }
        k += 1;
    }
    assert(bytes@ =~= decoded_bytes(s@));
    Ok(bytes)
}

/// Decoding undoes encoding: the text that encodes any byte sequence decodes,
/// and gives those bytes back.
pub proof fn decode_inverts_encode(bytes: Seq<u8>)
    ensures
        is_lower_hex(encoded(bytes)),
        decoded(encoded(bytes)) == Ok::<Seq<u8>, DecodeHexError>(bytes),
{
    let text = encoded(bytes);
    assert forall|i: int| 0 <= i < text.len() implies (#[trigger] hex_value(text[i])) is Some by {
        let byte = bytes[i / 2];
        assert(0 <= byte as int / 16 < 16);
        assert(0 <= byte as int % 16 < 16);
    }
    assert forall|k: int| 0 <= k < bytes.len() implies byte_at(text, k) == bytes[k] by {
        let byte = bytes[k];
        assert((2 * k) / 2 == k && (2 * k) % 2 == 0);
        assert((2 * k + 1) / 2 == k && (2 * k + 1) % 2 == 1);
        assert(text[2 * k] == hex_digit(byte as int / 16));
        assert(text[2 * k + 1] == hex_digit(byte as int % 16));
        assert(hex_value(hex_digit(byte as int / 16)) == Some(byte as int / 16));
        assert(hex_value(hex_digit(byte as int % 16)) == Some(byte as int % 16));
    }
    assert(decoded_bytes(text) =~= bytes);
}

/// Encoding undoes decoding on the alphabet that encoding writes: a text of
/// even length made of digits and the lowercase letters `a` to `f` decodes,
/// and its bytes encode to the same text.
pub proof fn encode_inverts_decode(text: Seq<char>)
    requires
        text.len() % 2 == 0,
        is_lower_hex(text),
    ensures
        decoded(text) == Ok::<Seq<u8>, DecodeHexError>(decoded_bytes(text)),
        encoded(decoded_bytes(text)) == text,
{
    assert forall|i: int| 0 <= i < text.len() implies (#[trigger] hex_value(text[i])) is Some by {
        let c = text[i];
        assert('0' <= c <= '9' || 'a' <= c <= 'f');
    }
    let bytes = decoded_bytes(text);
    assert forall|i: int| 0 <= i < text.len() implies encoded(bytes)[i] == text[i] by {
        let k = i / 2;
        let high = text[2 * k];
        let low = text[2 * k + 1];
        assert('0' <= high <= '9' || 'a' <= high <= 'f');
        assert('0' <= low <= '9' || 'a' <= low <= 'f');
        let h = hex_value(high)->0;
        let l = hex_value(low)->0;
        assert(0 <= h < 16 && 0 <= l < 16);
        assert(bytes[k] as int == 16 * h + l);
        assert((16 * h + l) / 16 == h && (16 * h + l) % 16 == l);
        assert(hex_digit(h) == high);
        assert(hex_digit(l) == low);
    }
    assert(encoded(bytes) =~= text);
}

/// Which texts decoding rejects, and how: every text of odd length with
/// `OddLength`, and every text of even length that holds a character that is
/// no hexadecimal digit with `InvalidDigit`.
pub proof fn decode_rejects_malformed(text: Seq<char>)
    ensures
        text.len() % 2 != 0 ==> decoded(text) == Err::<Seq<u8>, DecodeHexError>(
            DecodeHexError::OddLength,
        ),
        text.len() % 2 == 0 && (exists|i: int| 0 <= i < text.len() && hex_value(text[i]) is None)
            ==> decoded(text) == Err::<Seq<u8>, DecodeHexError>(DecodeHexError::InvalidDigit),
        decoded(text) is Ok <==> text.len() % 2 == 0 && is_hex(text),
{
}

} // verus!
