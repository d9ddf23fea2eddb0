//! String primitives: equality, lower-casing and percent-encoding.
use vstd::prelude::*;
use vstd::string::StringSliceAdditionalSpecFns;
use vstd::utf8::encode_utf8_decode_utf8;

verus! {

/// The lowercase form of `text` under the Unicode case mapping, as
/// `str::to_lowercase` computes it.
pub uninterp spec fn lowercase(text: Seq<char>) -> Seq<char>;

/// The outcome of percent-decoding `text` and reading the decoded bytes as
/// UTF-8, as `urlencoding::decode` computes it.
pub uninterp spec fn percent_decoded(text: Seq<char>) -> Result<
    Seq<char>,
    std::string::FromUtf8Error,
>;

/// Whether percent-encoding leaves `byte` as it is: ASCII letters, digits and
/// `-`, `.`, `_`, `~`.
pub open spec fn is_unreserved(byte: u8) -> bool {
    ||| 0x30 <= byte <= 0x39
    ||| 0x41 <= byte <= 0x5a
    ||| 0x61 <= byte <= 0x7a
    ||| byte == 0x2d
    ||| byte == 0x2e
    ||| byte == 0x5f
    ||| byte == 0x7e
}

/// The upper-case hexadecimal digit for a value below 16.
pub open spec fn hex_digit(nibble: int) -> char
    recommends
        0 <= nibble < 16,
{
    if nibble < 10 {
        ((0x30 + nibble) as u8) as char
    } else {
        ((0x37 + nibble) as u8) as char
    }
}

/// The percent-encoding of one byte: the byte itself where it is unreserved,
/// else `%` and its two hexadecimal digits.
pub open spec fn percent_encoded_byte(byte: u8) -> Seq<char> {
    if is_unreserved(byte) {
        seq![byte as char]
    } else {
        seq!['%', hex_digit(byte as int / 16), hex_digit(byte as int % 16)]
    }
}

/// The percent-encoding of a byte string: the encodings of its bytes, in order.
pub open spec fn percent_encoded(bytes: Seq<u8>) -> Seq<char> {
    bytes.map_values(|byte: u8| percent_encoded_byte(byte)).flatten()
}

/// Whether `c` can stand in percent-encoded text: `%`, or a character that
/// is left as it is.
pub open spec fn is_encoded_char(c: char) -> bool {
    c == '%' || (c as u32 <= 0x7f && is_unreserved(c as u8))
}

/// Percent-encoded text holds nothing but `%` and unreserved characters. So
/// it holds none of the delimiters of a URI, whatever was encoded.
pub proof fn lemma_percent_encoded_chars(bytes: Seq<u8>, index: int)
    requires
        0 <= index < percent_encoded(bytes).len(),
    ensures
        is_encoded_char(percent_encoded(bytes)[index]),
        percent_encoded(bytes)[index] != '&',
        percent_encoded(bytes)[index] != '=',
        percent_encoded(bytes)[index] != '?',
        percent_encoded(bytes)[index] != '#',
        percent_encoded(bytes)[index] != '/',
        percent_encoded(bytes)[index] != ':',
    decreases bytes.len(),
{
    let each = bytes.map_values(|byte: u8| percent_encoded_byte(byte));
    if bytes.len() == 0 {
        assert(each =~= Seq::<Seq<char>>::empty());
    } else {
        let head = percent_encoded_byte(bytes.first());
        let tail = bytes.drop_first();
        assert(each.first() == head);
        assert(each.drop_first() =~= tail.map_values(|byte: u8| percent_encoded_byte(byte)));
        assert(percent_encoded(bytes) == head + percent_encoded(tail));
        if index < head.len() {
            assert(percent_encoded(bytes)[index] == head[index]);
            assert(is_encoded_char(head[index]));
        } else {
            lemma_percent_encoded_chars(tail, index - head.len());
            assert(percent_encoded(bytes)[index] == percent_encoded(tail)[index - head.len()]);
        }
    }
}

/// `std::string::FromUtf8Error`, the error of a failed percent-decoding. The
/// library only hands it on.
#[verifier::external_type_specification]
#[verifier::external_body]
pub struct ExFromUtf8Error(std::string::FromUtf8Error);

/// Calls `str::to_lowercase`. The contract gives the result its name and
/// claims nothing else about it.
#[verifier::external_body]
pub(crate) fn to_lowercase(text: &str) -> (lowered: String)
    ensures
        lowered@ == lowercase(text@),
{
    text.to_lowercase()
}

/// Calls `urlencoding::decode`. The contract gives the outcome its name:
/// the decoded text on success, the UTF-8 error otherwise.
#[verifier::external_body]
pub(crate) fn percent_decode(text: &str) -> (outcome: Result<String, std::string::FromUtf8Error>)
    ensures
        match outcome {
            Ok(decoded) => percent_decoded(text@) == Ok::<Seq<char>, std::string::FromUtf8Error>(
                decoded@,
            ),
            Err(error) => percent_decoded(text@) == Err::<Seq<char>, std::string::FromUtf8Error>(
                error,
            ),
        },
{
    match urlencoding::decode(text) {
        Ok(decoded) => Ok(decoded.into_owned()),
        Err(error) => Err(error),
    }
}

/// Calls `urlencoding::encode`, which percent-encodes every byte of the
/// UTF-8 form of `text` except ASCII letters, digits and `-`, `.`, `_`, `~`,
/// writing the escapes with upper-case hexadecimal digits.
#[verifier::external_body]
pub(crate) fn percent_encode(text: &str) -> (encoded: String)
    ensures
        encoded@ == percent_encoded(text.spec_bytes()),
{
    urlencoding::encode(text).into_owned()
}

/// Whether two string slices hold the same text.
pub fn str_eq(a: &str, b: &str) -> (equal: bool)
    ensures
        equal == (a@ == b@),
{
    let x = a.as_bytes();
    let y = b.as_bytes();
    proof {
        // Equal byte strings decode to equal texts.
        encode_utf8_decode_utf8(a@);
        encode_utf8_decode_utf8(b@);
    }
    if x.len() != y.len() {
        return false;
    }
    let mut i: usize = 0;
    while i < x.len()
        invariant
            i <= x.len(),
            x.len() == y.len(),
            x@ == a.spec_bytes(),
            y@ == b.spec_bytes(),
            forall|j: int| 0 <= j < i ==> x@[j] == y@[j],
        decreases x.len() - i,
    {
        if x[i] != y[i] {
            return false;
        }
        i = i + 1;
    }
    assert(x@ =~= y@);
    true
}

} // verus!
