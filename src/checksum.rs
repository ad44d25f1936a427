//! The Internet checksum (one's complement sum of big-endian 16-bit words)
//! over a transport segment and its IPv4 pseudo-header.

use vstd::prelude::*;
use vstd::arithmetic::div_mod::{lemma_fundamental_div_mod, lemma_mod_multiples_vanish};

verus! {

/// Byte `i` of `b`, or zero past its end (the padding of an odd-length segment).
pub open spec fn byte_or_zero(b: Seq<u8>, i: int) -> nat {
    if 0 <= i < b.len() {
        b[i] as nat
    } else {
        0
    }
}

/// The big-endian 16-bit word number `j` of `b`.
pub open spec fn word_at(b: Seq<u8>, j: int) -> nat {
    byte_or_zero(b, 2 * j) * 256 + byte_or_zero(b, 2 * j + 1)
}

/// Plain sum of the first `k` words of `b`.
pub open spec fn words_sum(b: Seq<u8>, k: nat) -> nat
    decreases k,
{
    if k == 0 {
        0
    } else {
        words_sum(b, (k - 1) as nat) + word_at(b, k - 1)
    }
}

/// Plain sum of all words of `b`, an odd trailing byte padded with zero.
pub open spec fn segment_sum(b: Seq<u8>) -> nat {
    words_sum(b, ((b.len() + 1) / 2) as nat)
}

/// Plain sum of the words of the IPv4 pseudo-header.
pub open spec fn pseudo_header_sum(source: u32, destination: u32, protocol_number: nat, length: nat) -> nat {
    source as nat / 65536 + source as nat % 65536 + destination as nat / 65536
        + destination as nat % 65536 + protocol_number + length
}

/// Plain sum of the pseudo-header and the segment.
pub open spec fn transport_sum(source: u32, destination: u32, protocol_number: nat, segment: Seq<u8>) -> nat {
    pseudo_header_sum(source, destination, protocol_number, segment.len()) + segment_sum(segment)
}

/// The one's complement (end-around carry) sum of a plain sum: zero only for
/// zero, otherwise in `1..=0xFFFF` and congruent to it modulo `0xFFFF`.
pub open spec fn folded(s: nat) -> nat {
    if s == 0 {
        0
    } else {
        ((s - 1) % 65535 + 1) as nat
    }
}

/// The checksum field value for a plain sum taken with the field zeroed.
pub open spec fn checksum_of(s: nat) -> nat {
    (65535 - folded(s)) as nat
}

/// A segment checks: its one's complement sum with the pseudo-header is all ones.
pub open spec fn checksum_is_valid(source: u32, destination: u32, protocol_number: nat, segment: Seq<u8>) -> bool {
    folded(transport_sum(source, destination, protocol_number, segment)) == 65535
}

/// `b` with the word at even offset `offset` set to `w`.
pub open spec fn with_word(b: Seq<u8>, offset: int, w: nat) -> Seq<u8> {
    b.update(offset, (w / 256) as u8).update(offset + 1, (w % 256) as u8)
}

proof fn lemma_words_sum_bound(b: Seq<u8>, k: nat)
    ensures
        words_sum(b, k) <= 65535 * k,
    decreases k,
{
    if k > 0 {
        lemma_words_sum_bound(b, (k - 1) as nat);
    }
}

proof fn lemma_words_sum_with_word(b: Seq<u8>, j: int, w: nat, k: nat)
    requires
        0 <= j,
        2 * j + 1 < b.len(),
        b[2 * j] == 0,
        b[2 * j + 1] == 0,
        w < 65536,
    ensures
        words_sum(with_word(b, 2 * j, w), k) == words_sum(b, k) + if j < k {
            w
        } else {
            0
        },
    decreases k,
{
    if k > 0 {
        lemma_words_sum_with_word(b, j, w, (k - 1) as nat);
        let c = with_word(b, 2 * j, w);
        let i = k - 1;
        if i == j {
            assert(word_at(c, i) == (w / 256) * 256 + w % 256);
            assert(word_at(b, i) == 0);
        } else {
            assert(byte_or_zero(c, 2 * i) == byte_or_zero(b, 2 * i));
            assert(byte_or_zero(c, 2 * i + 1) == byte_or_zero(b, 2 * i + 1));
        }
    }
}

proof fn lemma_fold_step(a: nat)
    requires
        a > 65535,
    ensures
        0 < a % 65536 + a / 65536 < a,
        folded(a % 65536 + a / 65536) == folded(a),
{
    let q = a / 65536;
    let r = a % 65536;
    lemma_fundamental_div_mod(a as int, 65536);
    assert(q >= 1);
    let b = q + r;
    assert(a - 1 == 65535 * q + (b - 1));
    lemma_mod_multiples_vanish(q as int, b - 1, 65535);
}

proof fn lemma_checksum_completes(s: nat)
    requires
        s > 0,
    ensures
        folded(s + checksum_of(s)) == 65535,
{
    let q = (s - 1) / 65535;
    let r = (s - 1) % 65535;
    lemma_fundamental_div_mod(s - 1, 65535);
    assert(s + checksum_of(s) - 1 == 65535 * q + 65534);
    lemma_mod_multiples_vanish(q, 65534, 65535);
}

/// Byte `i` of the first `header_length` bytes of `raw` followed by `payload`.
fn byte_of(raw: &[u8], header_length: usize, payload: &[u8], i: usize) -> (r: u8)
    requires
        header_length <= raw@.len(),
    ensures
        r as nat == byte_or_zero(raw@.subrange(0, header_length as int) + payload@, i as int),
{
    if i < header_length {
        raw[i]
    } else if i - header_length < payload.len() {
        payload[i - header_length]
    } else {
        0
    }
}

/// Plain sum of the words of the header (the first `header_length` bytes of
/// `raw`) followed by `payload`.
fn sum_segment(raw: &[u8], header_length: usize, payload: &[u8]) -> (r: u64)
    requires
        header_length <= raw@.len(),
        header_length + payload@.len() <= 65535,
    ensures
        r as nat == segment_sum(raw@.subrange(0, header_length as int) + payload@),
{
    let ghost seg = raw@.subrange(0, header_length as int) + payload@;
    let n: usize = header_length + payload.len();
    let words: usize = (n + 1) / 2;
    let mut acc: u64 = 0;
    let mut j: usize = 0;
    while j < words
        invariant
            j <= words,
            words == (seg.len() + 1) / 2,
            header_length <= raw@.len(),
            seg == raw@.subrange(0, header_length as int) + payload@,
            n == seg.len() <= 65535,
            acc as nat == words_sum(seg, j as nat),
        decreases words - j,
    {
        proof {
            lemma_words_sum_bound(seg, j as nat);
        }
        let hi = byte_of(raw, header_length, payload, 2 * j);
        let lo = byte_of(raw, header_length, payload, 2 * j + 1);
        acc = acc + (hi as u64) * 256 + lo as u64;
        j = j + 1;
    }
    acc
}

/// Folds a plain sum into its one's complement sum.
fn fold(total: u64) -> (r: u64)
    ensures
        r as nat == folded(total as nat),
{
    let mut sum: u64 = total;
    while sum > 65535
        invariant
            folded(sum as nat) == folded(total as nat),
        decreases sum,
    {
        proof {
            lemma_fold_step(sum as nat);
        }
        sum = sum % 65536 + sum / 65536;
    }
    sum
}

/// Zeroes the 16-bit checksum field at `offset` of the header (the first
/// `header_length` bytes of `raw`), computes the checksum of the header
/// followed by `payload` under the pseudo-header, and writes it into that
/// field.
pub fn write_checksum(
    raw: &mut [u8],
    header_length: usize,
    offset: usize,
    payload: &[u8],
    source: u32,
    destination: u32,
    protocol_number: u8,
)
    requires
        offset % 2 == 0,
        offset + 1 < header_length <= old(raw)@.len(),
        header_length + payload@.len() <= 65535,
        protocol_number > 0,
    ensures
        final(raw)@ == with_word(
            with_word(old(raw)@, offset as int, 0),
            offset as int,
            checksum_of(
                transport_sum(
                    source,
                    destination,
                    protocol_number as nat,
                    with_word(old(raw)@, offset as int, 0).subrange(0, header_length as int) + payload@,
                ),
            ),
        ),
        checksum_is_valid(
            source,
            destination,
            protocol_number as nat,
            final(raw)@.subrange(0, header_length as int) + payload@,
        ),
{
    raw[offset] = 0;
    raw[offset + 1] = 0;
    let ghost zeroed = raw@;
    let ghost seg = zeroed.subrange(0, header_length as int) + payload@;
    assert(zeroed == with_word(old(raw)@, offset as int, 0));
    let seg_sum = sum_segment(raw, header_length, payload);
    proof {
        lemma_words_sum_bound(seg, ((seg.len() + 1) / 2) as nat);
    }
    let length: u64 = (header_length + payload.len()) as u64;
    let pseudo: u64 = (source / 65536) as u64 + (source % 65536) as u64 + (destination / 65536) as u64
        + (destination % 65536) as u64 + protocol_number as u64 + length;
    let total: u64 = pseudo + seg_sum;
    let ghost s = total as nat;
    assert(s == transport_sum(source, destination, protocol_number as nat, seg));
    let c: u64 = 65535 - fold(total);
    raw[offset] = (c / 256) as u8;
    raw[offset + 1] = (c % 256) as u8;
    proof {
        let j = offset as int / 2;
        assert(raw@ =~= with_word(zeroed, offset as int, c as nat));
        assert(raw@.subrange(0, header_length as int) + payload@ =~= with_word(seg, 2 * j, c as nat));
        lemma_words_sum_with_word(seg, j, c as nat, ((seg.len() + 1) / 2) as nat);
        lemma_checksum_completes(s);
    }
}

} // verus!
