//! The structured signature that a device returns, and its canonical text:
//! `0x`, then `r`, `s` and `v` in lowercase hex, nothing in between.

use vstd::prelude::*;
use vstd::string::StringSliceAdditionalSpecFns;
use vstd::utf8::{encode_utf8, is_ascii_chars, is_ascii_chars_encode_utf8};

verus! {

/// A recoverable ECDSA signature as the device hands it out.
#[derive(Clone, Copy, Debug, PartialEq, Eq)]
pub struct Signature {
    /// The component `r`, big-endian.
    pub r: [u8; 32],
    /// The component `s`, big-endian.
    pub s: [u8; 32],
    /// The recovery and version tag.
    pub v: u8,
}

/// The lowercase hex digit of a value below 16.
pub open spec fn hex_digit(nibble: int) -> char {
    if nibble < 10 {
        (0x30 + nibble) as char
    } else {
        (0x57 + nibble) as char
    }
}

/// Two lowercase hex digits for each byte, high digit first.
pub open spec fn hex_encoding(bytes: Seq<u8>) -> Seq<char> {
    Seq::new(
        2 * bytes.len(),
        |i: int|
            if i % 2 == 0 {
                hex_digit(bytes[i / 2] as int / 16)
            } else {
                hex_digit(bytes[i / 2] as int % 16)
            },
    )
}

/// The canonical text of a signature: the prefix `0x`, then the hex of `r`,
/// of `s` and of `v`.
pub open spec fn signature_text(signature: Signature) -> Seq<char> {
    seq!['0', 'x'] + hex_encoding(signature.r@) + hex_encoding(signature.s@) + hex_encoding(
        seq![signature.v],
    )
}

/// The bytes of the canonical text of a signature: one ASCII byte for each
/// character.
pub open spec fn signature_bytes(signature: Signature) -> Seq<u8> {
    Seq::new(signature_text(signature).len(), |i: int| signature_text(signature)[i] as u8)
}

/// The canonical text of a signature has 132 characters, all of them ASCII, so
/// its UTF-8 bytes are its characters one by one.
pub proof fn lemma_signature_text_is_ascii(signature: Signature)
    ensures
        signature_text(signature).len() == 132,
        is_ascii_chars(signature_text(signature)),
        encode_utf8(signature_text(signature)) == signature_bytes(signature),
{
    let text = signature_text(signature);
    assert forall|i: int| 0 <= i < text.len() implies '\0' <= #[trigger] text[i] <= '\u{7f}' by {
        if i < 2 {
        } else if i < 66 {
        } else if i < 130 {
        } else {
        }
    }
    is_ascii_chars_encode_utf8(text);
}

/// The 65 bytes of a signature in the order in which they are written:
/// `r`, then `s`, then `v`.
pub open spec fn signature_fields(signature: Signature) -> Seq<u8> {
    signature.r@ + signature.s@ + seq![signature.v]
}

/// Whether `a` and `b` agree before position `at` and `a` holds the smaller
/// byte there.
pub open spec fn bytes_part_at(a: Seq<u8>, b: Seq<u8>, at: int) -> bool {
    &&& 0 <= at < a.len()
    &&& at < b.len()
    &&& a[at] < b[at]
    &&& forall|j: int| 0 <= j < at ==> a[j] == b[j]
}

/// Whether `a` comes before `b` in lexicographic order, by a byte in which
/// they differ.
pub open spec fn bytes_before(a: Seq<u8>, b: Seq<u8>) -> bool {
    exists|at: int| bytes_part_at(a, b, at)
}

/// Whether `a` and `b` agree before position `at` and `a` holds the smaller
/// character there.
pub open spec fn text_parts_at(a: Seq<char>, b: Seq<char>, at: int) -> bool {
    &&& 0 <= at < a.len()
    &&& at < b.len()
    &&& a[at] < b[at]
    &&& forall|j: int| 0 <= j < at ==> a[j] == b[j]
}

/// Whether `a` comes before `b` in lexicographic order, by a character in
/// which they differ.
pub open spec fn text_before(a: Seq<char>, b: Seq<char>) -> bool {
    exists|at: int| text_parts_at(a, b, at)
}

/// The hex digits are in the order of their values, and no two values share a
/// digit.
pub proof fn lemma_hex_digit_order(a: int, b: int)
    requires
        0 <= a < 16,
        0 <= b < 16,
    ensures
        (a < b) == (hex_digit(a) < hex_digit(b)),
        (a == b) == (hex_digit(a) == hex_digit(b)),
{
}

/// The hex text of two byte strings in a row is the hex text of the first
/// followed by that of the second: nothing stands between them.
pub proof fn lemma_hex_encoding_concat(a: Seq<u8>, b: Seq<u8>)
    ensures
        hex_encoding(a + b) == hex_encoding(a) + hex_encoding(b),
{
}

/// Hex encoding is injective: byte strings with the same hex text are equal.
pub proof fn lemma_hex_encoding_injective(a: Seq<u8>, b: Seq<u8>)
    requires
        hex_encoding(a) == hex_encoding(b),
    ensures
        a == b,
{
    assert(hex_encoding(b).len() == 2 * b.len());
    assert forall|i: int| 0 <= i < a.len() implies a[i] == b[i] by {
        assert(hex_encoding(b)[2 * i] == hex_digit(b[i] as int / 16));
        assert(hex_encoding(b)[2 * i + 1] == hex_digit(b[i] as int % 16));
        lemma_hex_digit_order(a[i] as int / 16, b[i] as int / 16);
        lemma_hex_digit_order(a[i] as int % 16, b[i] as int % 16);
    }
}

/// Hex encoding keeps the order: of two byte strings of one length, the
/// first comes before the second exactly if its hex text comes before the
/// other's.
pub proof fn lemma_hex_encoding_keeps_order(a: Seq<u8>, b: Seq<u8>)
    requires
        a.len() == b.len(),
    ensures
        bytes_before(a, b) == text_before(hex_encoding(a), hex_encoding(b)),
{
    let ha = hex_encoding(a);
    let hb = hex_encoding(b);
    if bytes_before(a, b) {
        let i = choose|at: int| bytes_part_at(a, b, at);
        let at = if a[i] as int / 16 < b[i] as int / 16 {
            2 * i
        } else {
            2 * i + 1
        };
        lemma_hex_digit_order(a[i] as int / 16, b[i] as int / 16);
        lemma_hex_digit_order(a[i] as int % 16, b[i] as int % 16);
        assert forall|j: int| 0 <= j < at implies ha[j] == hb[j] by {
            if j < 2 * i {
            }
        }
        assert(text_parts_at(ha, hb, at));
    }
    if text_before(ha, hb) {
        let at = choose|at: int| text_parts_at(ha, hb, at);
        let i = at / 2;
        assert forall|j: int| 0 <= j < i implies a[j] == b[j] by {
            assert(ha[2 * j] == hb[2 * j]);
            assert(ha[2 * j + 1] == hb[2 * j + 1]);
            lemma_hex_digit_order(a[j] as int / 16, b[j] as int / 16);
            lemma_hex_digit_order(a[j] as int % 16, b[j] as int % 16);
        }
        lemma_hex_digit_order(a[i] as int / 16, b[i] as int / 16);
        lemma_hex_digit_order(a[i] as int % 16, b[i] as int % 16);
        if at % 2 == 1 {
            assert(ha[2 * i] == hb[2 * i]);
        }
        assert(bytes_part_at(a, b, i));
    }
}

/// The canonical text of a signature is `0x` and the hex text of its 65
/// bytes.
pub proof fn lemma_signature_text_of_fields(signature: Signature)
    ensures
        signature_text(signature) == seq!['0', 'x'] + hex_encoding(signature_fields(signature)),
        signature_fields(signature).len() == 65,
{
    lemma_hex_encoding_concat(signature.r@, signature.s@);
    lemma_hex_encoding_concat(signature.r@ + signature.s@, seq![signature.v]);
    assert(signature_text(signature) =~= seq!['0', 'x'] + hex_encoding(
        signature_fields(signature),
    ));
}

/// The canonical text is injective: signatures with the same text are equal.
pub proof fn lemma_signature_text_injective(a: Signature, b: Signature)
    requires
        signature_text(a) == signature_text(b),
    ensures
        a == b,
{
    lemma_signature_text_of_fields(a);
    lemma_signature_text_of_fields(b);
    let ta = signature_text(a);
    let tb = signature_text(b);
    assert(hex_encoding(signature_fields(a)) =~= ta.subrange(2, ta.len() as int));
    assert(hex_encoding(signature_fields(b)) =~= tb.subrange(2, tb.len() as int));
    lemma_hex_encoding_injective(signature_fields(a), signature_fields(b));
    let fa = signature_fields(a);
    let fb = signature_fields(b);
    assert(b.r@ =~= fb.subrange(0, 32));
    assert(b.s@ =~= fb.subrange(32, 64));
    assert(b.v == fb[64]);
    assert(a.r =~= b.r);
    assert(a.s =~= b.s);
}

/// The canonical text keeps the order of signatures: one signature comes
/// before another, by `r`, then `s`, then `v`, exactly if its text comes
/// before the other's.
pub proof fn lemma_signature_text_keeps_order(a: Signature, b: Signature)
    ensures
        bytes_before(signature_fields(a), signature_fields(b)) == text_before(
            signature_text(a),
            signature_text(b),
        ),
{
    lemma_signature_text_of_fields(a);
    lemma_signature_text_of_fields(b);
    let ha = hex_encoding(signature_fields(a));
    let hb = hex_encoding(signature_fields(b));
    let ta = signature_text(a);
    let tb = signature_text(b);
    lemma_hex_encoding_keeps_order(signature_fields(a), signature_fields(b));
    if text_before(ha, hb) {
        let at = choose|at: int| text_parts_at(ha, hb, at);
        assert forall|j: int| 0 <= j < at + 2 implies ta[j] == tb[j] by {
            if j >= 2 {
            }
        }
        assert(text_parts_at(ta, tb, at + 2));
    }
    if text_before(ta, tb) {
        let at = choose|at: int| text_parts_at(ta, tb, at);
        assert forall|j: int| 0 <= j < at - 2 implies ha[j] == hb[j] by {
            assert(ta[j + 2] == tb[j + 2]);
        }
        assert(text_parts_at(ha, hb, at - 2));
    }
}

/// `String::push` appends one character to the end of the string.
pub assume_specification[ String::push ](text: &mut String, c: char)
    ensures
        final(text)@ == old(text)@.push(c),
;

/// The hex digit of `nibble` as a character.
fn hex_digit_char(nibble: u8) -> (c: char)
    requires
        nibble < 16,
    ensures
        c == hex_digit(nibble as int),
{
    if nibble < 10 {
        (0x30 + nibble) as char
    } else {
        (0x57 + nibble) as char
    }
}

/// Appends the two hex digits of `byte` to `out`.
fn push_hex_byte(out: &mut String, byte: u8)
    ensures
        final(out)@ == old(out)@ + hex_encoding(seq![byte]),
{
    out.push(hex_digit_char(byte / 16));
    out.push(hex_digit_char(byte % 16));
}

/// Appends the hex digits of `bytes` to `out`.
fn push_hex(out: &mut String, bytes: &[u8])
    ensures
        final(out)@ == old(out)@ + hex_encoding(bytes@),
{
    let n: usize = bytes.len();
    let mut i: usize = 0;
    while i < n
        invariant
            n == bytes@.len(),
            i <= n,
            out@ == old(out)@ + hex_encoding(bytes@.subrange(0, i as int)),
        decreases n - i,
    {
        push_hex_byte(out, bytes[i]);
        assert(out@ =~= old(out)@ + hex_encoding(bytes@.subrange(0, i + 1)));
        i += 1;
    }
}

/// Writes a signature as text: `0x`, then 64 hex digits of `r`, 64 of `s` and
/// 2 of `v`, lowercase and without separators.
pub fn signature_to_hex_string(signature: &Signature) -> (text: String)
    ensures
        text@ == signature_text(*signature),
        text@.len() == 132,
{
    let mut text = String::new();
    text.push('0');
    text.push('x');
    push_hex(&mut text, signature.r.as_slice());
    push_hex(&mut text, signature.s.as_slice());
    push_hex_byte(&mut text, signature.v);
    text
}

/// The canonical text of a signature as bytes: what is stored as the raw
/// signature and hashed into the seed.
pub fn signature_to_hex_bytes(signature: &Signature) -> (bytes: Vec<u8>)
    ensures
        bytes@ == signature_bytes(*signature),
        bytes@.len() == 132,
{
    let mut text = signature_to_hex_string(signature);
    let bytes = text.as_str().as_bytes_vec();
    proof {
        lemma_signature_text_is_ascii(*signature);
    }
    crate::secret::zeroize_text(&mut text);
    bytes
}

} // verus!
