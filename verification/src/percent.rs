//! Percent-encoding of one segment of a URL's path.
use vstd::prelude::*;
use vstd::string::*;
use vstd::utf8::encode_utf8;

verus! {

/// An unreserved byte: an ASCII letter or digit, `-`, `_`, `.` or `~`.
pub open spec fn unreserved(byte: u8) -> bool {
    ||| 'a' as u8 <= byte <= 'z' as u8
    ||| 'A' as u8 <= byte <= 'Z' as u8
    ||| '0' as u8 <= byte <= '9' as u8
    ||| byte == '-' as u8
    ||| byte == '_' as u8
    ||| byte == '.' as u8
    ||| byte == '~' as u8
}

/// The hexadecimal digit that stands for `n`, in upper case.
pub open spec fn hex_digit(n: int) -> char {
    if n < 10 {
        ('0' as int + n) as char
    } else {
        ('A' as int + n - 10) as char
    }
}

/// How one byte is written: itself where it is unreserved, otherwise a percent sign and its
/// two hexadecimal digits.
pub open spec fn encoded_byte(byte: u8) -> Seq<char> {
    if unreserved(byte) {
        seq![byte as char]
    } else {
        seq!['%', hex_digit(byte as int / 16), hex_digit(byte as int % 16)]
    }
}

/// How the bytes are written, one after the other.
pub open spec fn encoded_bytes(bytes: Seq<u8>) -> Seq<char>
    decreases bytes.len(),
{
    if bytes.len() == 0 {
        Seq::empty()
    } else {
        encoded_byte(bytes[0]) + encoded_bytes(bytes.skip(1))
    }
}

/// The percent-encoding of a text, by its UTF-8 bytes.
pub open spec fn percent_encoded(text: Seq<char>) -> Seq<char> {
    encoded_bytes(encode_utf8(text))
}

fn is_unreserved(byte: u8) -> (result: bool)
    ensures
        result == unreserved(byte),
{
    ('a' as u8 <= byte && byte <= 'z' as u8) || ('A' as u8 <= byte && byte <= 'Z' as u8) || (
    '0' as u8 <= byte && byte <= '9' as u8) || byte == '-' as u8 || byte == '_' as u8 || byte
        == '.' as u8 || byte == '~' as u8
}

fn hex_of(n: u8) -> (digit: char)
    requires
        n < 16,
    ensures
        digit == hex_digit(n as int),
{
    if n < 10 {
        ('0' as u8 + n) as char
    } else {
        ('A' as u8 + (n - 10)) as char
    }
}

/// Percent-encodes a text as one segment of a path.
pub fn percent_encode_path(value: &str) -> (encoded: String)
    ensures
        encoded@ == percent_encoded(value@),
{
    let bytes = value.as_bytes();
    let mut encoded = String::new();
    let mut i: usize = 0;
    assert(bytes@.skip(0) =~= bytes@);
    while i < bytes.len()
        invariant
            i <= bytes@.len(),
            encoded_bytes(bytes@) == encoded@ + encoded_bytes(bytes@.skip(i as int)),
        decreases bytes@.len() - i,
    {
        let byte: u8 = bytes[i];
        let ghost before = encoded@;
        if is_unreserved(byte) {
            encoded.push(byte as char);
        } else {
            encoded.push('%');
            encoded.push(hex_of(byte / 16));
            encoded.push(hex_of(byte % 16));
        }
        assert(encoded@ =~= before + encoded_byte(byte));
        assert(bytes@.skip(i as int).skip(1) =~= bytes@.skip(i + 1));
        assert(before + (encoded_byte(byte) + encoded_bytes(bytes@.skip(i + 1))) =~= encoded@
            + encoded_bytes(bytes@.skip(i + 1)));
        i = i + 1;
    }
    assert(encoded@ + encoded_bytes(bytes@.skip(i as int)) =~= encoded@);
    encoded
}

/// A character that an encoded segment may hold.
pub open spec fn segment_char(c: char) -> bool {
    c == '%' || ((c as int) < 128 && unreserved(c as u8))
}

proof fn lemma_encoded_chars(bytes: Seq<u8>)
    ensures
        forall|i: int|
            0 <= i < encoded_bytes(bytes).len() ==> segment_char(
                #[trigger] encoded_bytes(bytes)[i],
            ),
    decreases bytes.len(),
{
    if bytes.len() > 0 {
        lemma_encoded_chars(bytes.skip(1));
        let first = encoded_byte(bytes[0]);
        let rest = encoded_bytes(bytes.skip(1));
        assert forall|i: int| 0 <= i < encoded_bytes(bytes).len() implies segment_char(
            #[trigger] encoded_bytes(bytes)[i],
        ) by {
            if i < first.len() {
                assert(encoded_bytes(bytes)[i] == first[i]);
            } else {
                assert(encoded_bytes(bytes)[i] == rest[i - first.len()]);
            }
        }
    }
}

/// An encoded text holds percent signs and unreserved characters only: nothing that could end
/// the segment of the path that it stands in.
pub proof fn law_encoded_text_stays_one_segment(text: Seq<char>, i: int)
    requires
        0 <= i < percent_encoded(text).len(),
    ensures
        segment_char(percent_encoded(text)[i]),
        percent_encoded(text)[i] != '/',
        percent_encoded(text)[i] != '?',
        percent_encoded(text)[i] != '#',
{
    lemma_encoded_chars(encode_utf8(text));
}

/// The number that a hexadecimal digit stands for.
pub open spec fn hex_value(c: char) -> int {
    if '0' as int <= c as int <= '9' as int {
        c as int - '0' as int
    } else {
        c as int - 'A' as int + 10
    }
}

/// The bytes that an encoded text stands for.
pub open spec fn decoded_bytes(text: Seq<char>) -> Seq<u8>
    decreases text.len(),
{
    if text.len() == 0 {
        Seq::empty()
    } else if text[0] == '%' && text.len() >= 3 {
        seq![(hex_value(text[1]) * 16 + hex_value(text[2])) as u8] + decoded_bytes(text.skip(3))
    } else {
        seq![text[0] as u8] + decoded_bytes(text.skip(1))
    }
}

proof fn lemma_decode(bytes: Seq<u8>)
    ensures
        decoded_bytes(encoded_bytes(bytes)) == bytes,
    decreases bytes.len(),
{
    if bytes.len() > 0 {
        let rest = encoded_bytes(bytes.skip(1));
        let whole = encoded_byte(bytes[0]) + rest;
        lemma_decode(bytes.skip(1));
        if unreserved(bytes[0]) {
            assert(whole.skip(1) =~= rest);
            assert(whole[0] == bytes[0] as char);
            assert(whole[0] != '%');
        } else {
            assert(whole.skip(3) =~= rest);
            let high = bytes[0] as int / 16;
            let low = bytes[0] as int % 16;
            assert(0 <= high < 16 && 0 <= low < 16);
            assert(hex_value(hex_digit(high)) == high);
            assert(hex_value(hex_digit(low)) == low);
        }
        assert(decoded_bytes(whole) =~= seq![bytes[0]] + bytes.skip(1));
        assert(seq![bytes[0]] + bytes.skip(1) =~= bytes);
    }
}

/// No two texts have one encoding.
pub proof fn law_encoding_is_injective(a: Seq<char>, b: Seq<char>)
    requires
        percent_encoded(a) == percent_encoded(b),
    ensures
        a == b,
{
    lemma_decode(encode_utf8(a));
    lemma_decode(encode_utf8(b));
    vstd::utf8::encode_utf8_decode_utf8(a);
    vstd::utf8::encode_utf8_decode_utf8(b);
}

/// A byte is written as itself where it is an ASCII letter or digit, `-`, `_`, `.` or `~`, and
/// else as a percent sign with its high and its low hexadecimal digit, in upper case.
pub proof fn law_each_byte_is_written_so(byte: u8)
    ensures
        ({
            let plain = 0x61 <= byte <= 0x7a || 0x41 <= byte <= 0x5a || 0x30 <= byte <= 0x39 || byte
                == 0x2d || byte == 0x5f || byte == 0x2e || byte == 0x7e;
            let written = encoded_bytes(seq![byte]);
            &&& plain ==> written.len() == 1 && written[0] as int == byte
            &&& !plain ==> {
                &&& written.len() == 3
                &&& written[0] == '%'
                &&& written[1] == "0123456789ABCDEF"@[byte as int / 16]
                &&& written[2] == "0123456789ABCDEF"@[byte as int % 16]
            }
        }),
{
    let one = seq![byte];
    assert(one.skip(1) =~= Seq::<u8>::empty());
    assert(encoded_bytes(one.skip(1)) =~= Seq::<char>::empty());
    assert(encoded_bytes(one) =~= encoded_byte(byte));
    reveal_strlit("0123456789ABCDEF");
    let digits = "0123456789ABCDEF"@;
    assert(digits[0] == '0' && digits[1] == '1' && digits[2] == '2' && digits[3] == '3');
    assert(digits[4] == '4' && digits[5] == '5' && digits[6] == '6' && digits[7] == '7');
    assert(digits[8] == '8' && digits[9] == '9' && digits[10] == 'A' && digits[11] == 'B');
    assert(digits[12] == 'C' && digits[13] == 'D' && digits[14] == 'E' && digits[15] == 'F');
    let high = byte as int / 16;
    let low = byte as int % 16;
    assert(0 <= high < 16 && 0 <= low < 16);
    lemma_hex_digits(high);
    lemma_hex_digits(low);
}

proof fn lemma_hex_digits(n: int)
    requires
        0 <= n < 16,
    ensures
        n == 0 || n == 1 || n == 2 || n == 3 || n == 4 || n == 5 || n == 6 || n == 7 || n == 8 || n
            == 9 || n == 10 || n == 11 || n == 12 || n == 13 || n == 14 || n == 15,
        n < 10 ==> hex_digit(n) as int == 48 + n,
        n >= 10 ==> hex_digit(n) as int == 55 + n,
{
}

/// A text is written by the bytes of its UTF-8 encoding, one after the other.
pub proof fn law_bytes_are_written_in_turn(text: Seq<char>, a: Seq<u8>, b: Seq<u8>)
    ensures
        encode_utf8(text) == a + b ==> percent_encoded(text) == encoded_bytes(a) + encoded_bytes(b),
        encoded_bytes(a + b) == encoded_bytes(a) + encoded_bytes(b),
        encoded_bytes(Seq::<u8>::empty()) == Seq::<char>::empty(),
    decreases a.len(),
{
    if a.len() == 0 {
        assert(a + b =~= b);
        assert(encoded_bytes(a) + encoded_bytes(b) =~= encoded_bytes(b));
    } else {
        law_bytes_are_written_in_turn(text, a.skip(1), b);
        assert((a + b).skip(1) =~= a.skip(1) + b);
        assert(encoded_bytes(a + b) =~= encoded_bytes(a) + encoded_bytes(b));
    }
}

} // verus!
