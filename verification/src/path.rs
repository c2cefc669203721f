//! Derivation paths: from `m/44h/60h/0h/0/12` to the index list that a
//! signing device takes.
//!
//! A path is read as bytes. It is cut at every `/`; the piece before the first
//! `/` is the root marker and is dropped, whatever it holds. Each further piece
//! is a decimal 32-bit index, optionally followed by `h` or `'`, which sets the
//! top bit of the index.

use crate::error::KeyError;
use vstd::prelude::*;
use vstd::string::StringSliceAdditionalSpecFns;

verus! {

/// The bit that marks an index as hardened.
pub const HARDENED_BIT: u32 = 0x8000_0000;

/// The byte `/`, which separates the segments of a path.
pub const SLASH: u8 = 0x2f;

/// The byte `+`, which may stand in front of the digits of an index.
pub const PLUS: u8 = 0x2b;

/// The byte `h`, one of the two hardening markers.
pub const MARK_H: u8 = 0x68;

/// The byte `'`, the other hardening marker.
pub const MARK_TICK: u8 = 0x27;

/// The byte `m`, the usual root marker.
pub const ROOT_MARK: u8 = 0x6d;

/// The byte `0`.
pub const DIGIT_ZERO: u8 = 0x30;

/// The byte `9`.
pub const DIGIT_NINE: u8 = 0x39;

/// How many bytes of `text` stand before its first `/`; `text.len()` where it
/// holds none.
pub open spec fn first_slash(text: Seq<u8>) -> nat
    decreases text.len(),
{
    if text.len() == 0 || text[0] == SLASH {
        0
    } else {
        1 + first_slash(text.drop_first())
    }
}

/// The pieces of `text` between its `/` bytes, in order. A text without `/`
/// is one piece; a `/` at the end leaves an empty last piece.
pub open spec fn split_on_slash(text: Seq<u8>) -> Seq<Seq<u8>>
    decreases text.len(),
{
    let k = first_slash(text);
    if k >= text.len() {
        seq![text]
    } else {
        seq![text.subrange(0, k as int)] + split_on_slash(
            text.subrange(k as int + 1, text.len() as int),
        )
    }
}

/// Whether `byte` is one of `0` to `9`.
pub open spec fn is_digit(byte: u8) -> bool {
    DIGIT_ZERO <= byte <= DIGIT_NINE
}

/// Whether every byte of `text` is a decimal digit.
pub open spec fn all_digits(text: Seq<u8>) -> bool {
    forall|i: int| 0 <= i < text.len() ==> is_digit(#[trigger] text[i])
}

/// The number that the decimal digits `digits` spell, most significant first.
pub open spec fn decimal_value(digits: Seq<u8>) -> nat
    decreases digits.len(),
{
    if digits.len() == 0 {
        0
    } else {
        decimal_value(digits.drop_last()) * 10 + (digits.last() - DIGIT_ZERO) as nat
    }
}

/// `text` without one leading `+`, if it has one.
pub open spec fn unsigned_digits(text: Seq<u8>) -> Seq<u8> {
    if text.len() > 0 && text[0] == PLUS {
        text.drop_first()
    } else {
        text
    }
}

/// The 32-bit number that `text` spells in decimal: an optional `+`, then one
/// digit or more, leading zeros allowed. `None` where `text` has another
/// shape or the number does not fit in 32 bits.
pub open spec fn parse_decimal(text: Seq<u8>) -> Option<u32> {
    let digits = unsigned_digits(text);
    if digits.len() > 0 && all_digits(digits) && decimal_value(digits) <= u32::MAX {
        Some(decimal_value(digits) as u32)
    } else {
        None
    }
}

/// Whether `segment` ends in a hardening marker, `h` or `'`.
pub open spec fn is_hardened(segment: Seq<u8>) -> bool {
    segment.len() > 0 && (segment.last() == MARK_H || segment.last() == MARK_TICK)
}

/// The index that one path segment stands for: its decimal number, with the
/// top bit set where the segment ends in a hardening marker.
pub open spec fn parse_segment(segment: Seq<u8>) -> Option<u32> {
    if is_hardened(segment) {
        match parse_decimal(segment.drop_last()) {
            Some(index) => Some(index | HARDENED_BIT),
            None => None,
        }
    } else {
        parse_decimal(segment)
    }
}

/// The segments of a path: its pieces without the root marker.
pub open spec fn path_segments(text: Seq<u8>) -> Seq<Seq<u8>> {
    split_on_slash(text).drop_first()
}

/// Whether every segment of the path `text` is a valid index.
pub open spec fn is_valid_path(text: Seq<u8>) -> bool {
    forall|i: int|
        0 <= i < path_segments(text).len() ==> (#[trigger] parse_segment(
            path_segments(text)[i],
        )).is_some()
}

/// The index list of the path `text`: one index per segment, in order; `None`
/// as soon as one segment is not a valid index.
pub open spec fn path_indices(text: Seq<u8>) -> Option<Seq<u32>> {
    if is_valid_path(text) {
        Some(
            Seq::new(
                path_segments(text).len(),
                |i: int| parse_segment(path_segments(text)[i]).unwrap(),
            ),
        )
    } else {
        None
    }
}

/// The decimal digits of `n`, without leading zeros.
pub open spec fn decimal_digits(n: nat) -> Seq<u8>
    decreases n,
{
    if n < 10 {
        seq![(DIGIT_ZERO + n) as u8]
    } else {
        decimal_digits(n / 10).push((DIGIT_ZERO + n % 10) as u8)
    }
}

/// An index written as a path segment: the index without its top bit in
/// decimal, followed by `h` where the top bit is set.
pub open spec fn render_segment(index: u32) -> Seq<u8> {
    if index >= HARDENED_BIT {
        decimal_digits((index - HARDENED_BIT) as nat).push(MARK_H)
    } else {
        decimal_digits(index as nat)
    }
}

/// An index list written as segments, each with a `/` in front of it.
pub open spec fn render_segments(indices: Seq<u32>) -> Seq<u8>
    decreases indices.len(),
{
    if indices.len() == 0 {
        Seq::empty()
    } else {
        seq![SLASH] + render_segment(indices[0]) + render_segments(indices.drop_first())
    }
}

/// An index list written as a path: the root marker `m`, then the segments.
pub open spec fn render_path(indices: Seq<u32>) -> Seq<u8> {
    seq![ROOT_MARK] + render_segments(indices)
}

/// Whether `text` holds no `/`.
pub open spec fn has_no_slash(text: Seq<u8>) -> bool {
    forall|i: int| 0 <= i < text.len() ==> #[trigger] text[i] != SLASH
}

/// Cutting a text at its first `/` gives its first piece, and the pieces of
/// what follows that `/`.
proof fn lemma_split_step(text: Seq<u8>, from: int, to: int)
    requires
        0 <= from <= to <= text.len(),
        to - from == first_slash(text.subrange(from, text.len() as int)),
    ensures
        split_on_slash(text.subrange(from, text.len() as int)) == if to == text.len() {
            seq![text.subrange(from, to)]
        } else {
            seq![text.subrange(from, to)] + split_on_slash(
                text.subrange(to + 1, text.len() as int),
            )
        },
{
    let suffix = text.subrange(from, text.len() as int);
    let k = first_slash(suffix);
    if to < text.len() {
        assert(suffix.subrange(0, k as int) =~= text.subrange(from, to));
        assert(suffix.subrange(k as int + 1, suffix.len() as int) =~= text.subrange(
            to + 1,
            text.len() as int,
        ));
    }
}

/// The value of a digit string grows with each digit that is appended.
proof fn lemma_decimal_prefix(digits: Seq<u8>, n: int)
    requires
        0 <= n <= digits.len(),
        all_digits(digits),
    ensures
        decimal_value(digits.subrange(0, n)) <= decimal_value(digits),
    decreases digits.len() - n,
{
    if n == digits.len() {
        assert(digits.subrange(0, n) =~= digits);
    } else {
        lemma_decimal_prefix(digits, n + 1);
        let longer = digits.subrange(0, n + 1);
        assert(longer.drop_last() =~= digits.subrange(0, n));
    }
}

/// The decimal digits of a number are digits, at least one, and spell that
/// number.
pub proof fn lemma_decimal_digits(n: nat)
    ensures
        decimal_digits(n).len() > 0,
        all_digits(decimal_digits(n)),
        decimal_value(decimal_digits(n)) == n,
    decreases n,
{
    let digits = decimal_digits(n);
    if n < 10 {
        assert(digits.drop_last() =~= Seq::<u8>::empty());
        assert(decimal_value(Seq::<u8>::empty()) == 0);
    } else {
        lemma_decimal_digits(n / 10);
        assert(digits.drop_last() =~= decimal_digits(n / 10));
    }
}

/// A written segment holds no `/` and reads back as its index.
pub proof fn lemma_render_segment(index: u32)
    ensures
        has_no_slash(render_segment(index)),
        parse_segment(render_segment(index)) == Some(index),
{
    let segment = render_segment(index);
    if index >= HARDENED_BIT {
        let low = (index - HARDENED_BIT) as u32;
        let digits = decimal_digits(low as nat);
        lemma_decimal_digits(low as nat);
        assert(segment.drop_last() =~= digits);
        assert(low | 0x8000_0000u32 == index) by (bit_vector)
            requires
                index >= 0x8000_0000u32,
                low == index - 0x8000_0000u32,
        ;
    } else {
        lemma_decimal_digits(index as nat);
    }
}

/// A text without `/` that is followed by nothing, or by a `/`, ends at the
/// first `/` of the whole.
proof fn lemma_first_slash_after(head: Seq<u8>, tail: Seq<u8>)
    requires
        has_no_slash(head),
        tail.len() == 0 || tail[0] == SLASH,
    ensures
        first_slash(head + tail) == head.len(),
    decreases head.len(),
{
    if head.len() > 0 {
        assert((head + tail).drop_first() =~= head.drop_first() + tail);
        lemma_first_slash_after(head.drop_first(), tail);
    }
}

/// A text without `/`, followed by written segments, splits into that text
/// and the segments.
proof fn lemma_split_rendered(head: Seq<u8>, indices: Seq<u32>)
    requires
        has_no_slash(head),
    ensures
        split_on_slash(head + render_segments(indices)) == seq![head] + Seq::new(
            indices.len(),
            |i: int| render_segment(indices[i]),
        ),
    decreases indices.len(),
{
    let tail = render_segments(indices);
    let text = head + tail;
    lemma_first_slash_after(head, tail);
    if indices.len() > 0 {
        let first = render_segment(indices[0]);
        let rest = indices.drop_first();
        lemma_render_segment(indices[0]);
        lemma_split_rendered(first, rest);
        assert(text.subrange(0, head.len() as int) =~= head);
        assert(text.subrange(head.len() as int + 1, text.len() as int) =~= first + render_segments(
            rest,
        ));
        assert(split_on_slash(text) == seq![head] + split_on_slash(
            first + render_segments(rest),
        ));
    }
}

/// Writing an index list as a path and reading the path gives the list
/// back: every index list has a path, and `m`, `/`, decimal digits and `h`
/// are enough to write it.
pub proof fn lemma_path_round_trip(indices: Seq<u32>)
    ensures
        path_indices(render_path(indices)) == Some(indices),
{
    let text = render_path(indices);
    lemma_split_rendered(seq![ROOT_MARK], indices);
    let segments = path_segments(text);
    assert forall|i: int| 0 <= i < segments.len() implies parse_segment(segments[i]) == Some(
        indices[i],
    ) by {
        lemma_render_segment(indices[i]);
    }
}

/// The position of the first `/` at or after `from`, or the end of `text`.
fn find_slash(text: &[u8], from: usize) -> (at: usize)
    requires
        from <= text@.len(),
    ensures
        from <= at <= text@.len(),
        at - from == first_slash(text@.subrange(from as int, text@.len() as int)),
{
    let n: usize = text.len();
    let mut at: usize = from;
    while at < n && text[at] != SLASH
        invariant
            n == text@.len(),
            from <= at <= n,
            first_slash(text@.subrange(from as int, n as int)) == (at - from) + first_slash(
                text@.subrange(at as int, n as int),
            ),
        decreases n - at,
    {
        assert(text@.subrange(at as int, n as int).drop_first() =~= text@.subrange(
            at + 1,
            n as int,
        ));
        at += 1;
    }
    at
}

/// Reads the bytes from `start` to `end` as a decimal 32-bit number.
fn parse_decimal_at(text: &[u8], start: usize, end: usize) -> (number: Option<u32>)
    requires
        start <= end <= text@.len(),
    ensures
        number == parse_decimal(text@.subrange(start as int, end as int)),
{
    let first: usize = if start < end && text[start] == PLUS {
        start + 1
    } else {
        start
    };
    let ghost digits = unsigned_digits(text@.subrange(start as int, end as int));
    if first == end {
        return None;
    }
    let mut value: u64 = 0;
    let mut at: usize = first;
    while at < end
        invariant
            start <= first <= at <= end <= text@.len(),
            first < end,
            digits == unsigned_digits(text@.subrange(start as int, end as int)),
            digits == text@.subrange(first as int, end as int),
            all_digits(digits.subrange(0, at - first)),
            value == decimal_value(digits.subrange(0, at - first)),
            value <= u32::MAX,
        decreases end - at,
    {
        let byte: u8 = text[at];
        if byte < DIGIT_ZERO || byte > DIGIT_NINE {
            assert(!is_digit(digits[at - first]));
            return None;
        }
        let ghost longer = digits.subrange(0, at - first + 1);
        assert(longer.drop_last() =~= digits.subrange(0, at - first));
        assert(all_digits(longer));
        value = value * 10 + (byte - DIGIT_ZERO) as u64;
        if value > 0xffff_ffff {
            proof {
                if all_digits(digits) {
                    lemma_decimal_prefix(digits, at - first + 1);
                }
            }
            return None;
        }
        at += 1;
    }
    assert(digits.subrange(0, at - first) =~= digits);
    Some(value as u32)
}

/// Reads the bytes from `start` to `end` as one path segment.
fn parse_segment_at(text: &[u8], start: usize, end: usize) -> (index: Option<u32>)
    requires
        start <= end <= text@.len(),
    ensures
        index == parse_segment(text@.subrange(start as int, end as int)),
{
    let ghost segment = text@.subrange(start as int, end as int);
    let hardened: bool = start < end && (text[end - 1] == MARK_H || text[end - 1] == MARK_TICK);
    if hardened {
        assert(segment.drop_last() =~= text@.subrange(start as int, end - 1));
        match parse_decimal_at(text, start, end - 1) {
            Some(index) => Some(index | HARDENED_BIT),
            None => None,
        }
    } else {
        parse_decimal_at(text, start, end)
    }
}

/// Turns the bytes of a derivation path into its index list.
///
/// The path is cut at every `/`, the piece before the first `/` is dropped,
/// and each further piece is read as a decimal 32-bit index with an optional
/// hardening marker. The first piece that is not such an index makes the whole
/// path fail with [`KeyError::PathParse`].
pub fn parse_bip32_path(text: &[u8]) -> (indices: Result<Vec<u32>, KeyError>)
    ensures
        match indices {
            Ok(list) => path_indices(text@) == Some(list@),
            Err(e) => e == KeyError::PathParse && path_indices(text@).is_none(),
        },
{
    let n: usize = text.len();
    let ghost segments = path_segments(text@);
    let mut list: Vec<u32> = Vec::new();
    let mut at: usize = find_slash(text, 0);
    let ghost mut seen: Seq<Seq<u8>> = Seq::empty();
    proof {
        assert(text@.subrange(0, n as int) =~= text@);
        lemma_split_step(text@, 0, at as int);
    }
    while at < n
        invariant
            n == text@.len(),
            at <= n,
            segments == path_segments(text@),
            segments == seen + if at < n {
                split_on_slash(text@.subrange(at + 1, n as int))
            } else {
                Seq::<Seq<u8>>::empty()
            },
            list@.len() == seen.len(),
            forall|i: int| 0 <= i < seen.len() ==> parse_segment(seen[i]) == Some(#[trigger] list@[i]),
        decreases n - at,
    {
        let start: usize = at + 1;
        let end: usize = find_slash(text, start);
        proof {
            lemma_split_step(text@, start as int, end as int);
            seen = seen.push(text@.subrange(start as int, end as int));
        }
        match parse_segment_at(text, start, end) {
            Some(index) => {
                list.push(index);
            },
            None => {
                assert(parse_segment(segments[seen.len() - 1]).is_none());
                return Err(KeyError::PathParse);
            },
        }
        at = end;
    }
    proof {
        assert forall|i: int| 0 <= i < segments.len() implies (#[trigger] parse_segment(
            segments[i],
        )).is_some() by {
            assert(parse_segment(seen[i]) == Some(list@[i]));
        }
    }
    Ok(list)
}

/// Converts a derivation path such as `m/44h/60h/0h/0/12` to the index list
/// `[0x8000002c, 0x8000003c, 0x80000000, 0, 12]`.
///
/// The path is taken by its UTF-8 bytes; see [`parse_bip32_path`].
pub fn bip32_path_to_vec(s: &str) -> (indices: Result<Vec<u32>, KeyError>)
    ensures
        match indices {
            Ok(list) => path_indices(s.spec_bytes()) == Some(list@),
            Err(e) => e == KeyError::PathParse && path_indices(s.spec_bytes()).is_none(),
        },
{
    parse_bip32_path(s.as_bytes())
}

} // verus!
