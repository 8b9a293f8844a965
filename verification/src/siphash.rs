//! SipHash-2-4 over a byte sequence, with the zero key.
//!
//! The toolchain derives cache directory suffixes from this hash, so the
//! exact primitive — two compression rounds per 8-byte word, four
//! finalization rounds, the message length folded into the last word — is
//! part of the on-disk interface and is implemented here in full.

use vstd::prelude::*;
use vstd::wrapping::u64_specs;

verus! {

/// The four 64-bit lanes of the hasher.
#[derive(Clone, Copy, PartialEq, Eq, Structural, Debug)]
pub struct SipState {
    pub v0: u64,
    pub v1: u64,
    pub v2: u64,
    pub v3: u64,
}

/// Rotates `x` left by `n` bits.
pub open spec fn rotl64(x: u64, n: u32) -> u64
    recommends
        0 < n < 64,
{
    (x << n) | (x >> ((64 - n) as u32))
}

fn rotl(x: u64, n: u32) -> (r: u64)
    requires
        0 < n < 64,
    ensures
        r == rotl64(x, n),
{
    (x << n) | (x >> (64 - n))
}

/// One round of the SipHash mixing permutation.
pub open spec fn sipround_spec(s: SipState) -> SipState {
    let a0 = u64_specs::wrapping_add(s.v0, s.v1);
    let a1 = rotl64(s.v1, 13) ^ a0;
    let b0 = rotl64(a0, 32);
    let a2 = u64_specs::wrapping_add(s.v2, s.v3);
    let a3 = rotl64(s.v3, 16) ^ a2;
    let c0 = u64_specs::wrapping_add(b0, a3);
    let c3 = rotl64(a3, 21) ^ c0;
    let c2 = u64_specs::wrapping_add(a2, a1);
    let c1 = rotl64(a1, 17) ^ c2;
    SipState { v0: c0, v1: c1, v2: rotl64(c2, 32), v3: c3 }
}

fn sipround(s: SipState) -> (r: SipState)
    ensures
        r == sipround_spec(s),
{
    let a0 = s.v0.wrapping_add(s.v1);
    let a1 = rotl(s.v1, 13) ^ a0;
    let b0 = rotl(a0, 32);
    let a2 = s.v2.wrapping_add(s.v3);
    let a3 = rotl(s.v3, 16) ^ a2;
    let c0 = b0.wrapping_add(a3);
    let c3 = rotl(a3, 21) ^ c0;
    let c2 = a2.wrapping_add(a1);
    let c1 = rotl(a1, 17) ^ c2;
    SipState { v0: c0, v1: c1, v2: rotl(c2, 32), v3: c3 }
}

/// The lanes before any input, for the all-zero key.
pub open spec fn sip_init_spec() -> SipState {
    SipState {
        v0: 0x736f6d6570736575,
        v1: 0x646f72616e646f6d,
        v2: 0x6c7967656e657261,
        v3: 0x7465646279746573,
    }
}

/// Folds one 64-bit word into the state: two mixing rounds between the two
/// XORs of the word.
pub open spec fn sip_compress_spec(s: SipState, m: u64) -> SipState {
    let t = SipState { v0: s.v0, v1: s.v1, v2: s.v2, v3: s.v3 ^ m };
    let u = sipround_spec(sipround_spec(t));
    SipState { v0: u.v0 ^ m, v1: u.v1, v2: u.v2, v3: u.v3 }
}

fn sip_compress(s: SipState, m: u64) -> (r: SipState)
    ensures
        r == sip_compress_spec(s, m),
{
    let t = SipState { v0: s.v0, v1: s.v1, v2: s.v2, v3: s.v3 ^ m };
    let u = sipround(sipround(t));
    SipState { v0: u.v0 ^ m, v1: u.v1, v2: u.v2, v3: u.v3 }
}

/// The 64-bit word read little-endian from an 8-byte sequence.
pub open spec fn le64(b: Seq<u8>) -> u64
    recommends
        b.len() == 8,
{
    (b[0] as u64) | ((b[1] as u64) << 8) | ((b[2] as u64) << 16) | ((b[3] as u64) << 24) | ((b[4]
        as u64) << 32) | ((b[5] as u64) << 40) | ((b[6] as u64) << 48) | ((b[7] as u64) << 56)
}

/// The `k`-th 64-bit word of the message.
pub open spec fn sip_word_at(msg: Seq<u8>, k: int) -> u64
    recommends
        0 <= k,
        8 * k + 8 <= msg.len(),
{
    le64(msg.subrange(8 * k, 8 * k + 8))
}

/// The state after folding in the first `k` full words of the message.
pub open spec fn sip_blocks_upto(msg: Seq<u8>, k: int) -> SipState
    recommends
        0 <= k,
        8 * k <= msg.len(),
    decreases k,
{
    if k <= 0 {
        sip_init_spec()
    } else {
        sip_compress_spec(sip_blocks_upto(msg, k - 1), sip_word_at(msg, k - 1))
    }
}

/// The final message word: the bytes after the last full word, zero-padded
/// to seven bytes, with the low byte of the message length on top.
pub open spec fn sip_pad_spec(msg: Seq<u8>) -> Seq<u8> {
    let rem = msg.len() % 8;
    msg.skip(msg.len() - rem) + Seq::new((7 - rem) as nat, |i: int| 0u8) + seq![
        (msg.len() % 256) as u8,
    ]
}

/// SipHash-2-4 of a byte sequence under the all-zero key.
pub open spec fn siphash24_spec(msg: Seq<u8>) -> u64 {
    let s = sip_blocks_upto(msg, msg.len() as int / 8);
    let t = sip_compress_spec(s, le64(sip_pad_spec(msg)));
    let u = SipState { v0: t.v0, v1: t.v1, v2: t.v2 ^ 0xff, v3: t.v3 };
    let w = sipround_spec(sipround_spec(sipround_spec(sipround_spec(u))));
    w.v0 ^ w.v1 ^ w.v2 ^ w.v3
}

fn load_word(b: &Vec<u8>, off: usize) -> (r: u64)
    requires
        off + 8 <= b@.len(),
    ensures
        r == le64(b@.subrange(off as int, off + 8)),
{
    let blen: usize = b.len();
    let r = (b[off] as u64) | ((b[off + 1] as u64) << 8u32) | ((b[off + 2] as u64) << 16u32) | ((b[
        off + 3] as u64) << 24u32) | ((b[off + 4] as u64) << 32u32) | ((b[off + 5] as u64) << 40u32)
        | ((b[off + 6] as u64) << 48u32) | ((b[off + 7] as u64) << 56u32);
    proof {
        let s = b@.subrange(off as int, off + 8);
        assert(s[0] == b@[off as int] && s[1] == b@[off + 1] && s[2] == b@[off + 2] && s[3] == b@[
            off + 3] && s[4] == b@[off + 4] && s[5] == b@[off + 5] && s[6] == b@[off + 6] && s[7]
            == b@[off + 7]);
    }
    r
}

/// Computes SipHash-2-4 of the bytes under the all-zero key.
pub fn siphash24(msg: &Vec<u8>) -> (r: u64)
    ensures
        r == siphash24_spec(msg@),
{
    let n = msg.len();
    let full = n / 8;
    let mut s = SipState {
        v0: 0x736f6d6570736575,
        v1: 0x646f72616e646f6d,
        v2: 0x6c7967656e657261,
        v3: 0x7465646279746573,
    };
    let mut k: usize = 0;
    while k < full
        invariant
            k <= full,
            full == msg@.len() / 8,
            n == msg@.len(),
            s == sip_blocks_upto(msg@, k as int),
        decreases full - k,
    {
        let m = load_word(msg, 8 * k);
        s = sip_compress(s, m);
        k = k + 1;
    }
    // Build the padded final word.
    let rem = n - 8 * full;
    let mut pad: Vec<u8> = Vec::new();
    let mut j: usize = 0;
    while j < rem
        invariant
            j <= rem,
            rem == n - 8 * full,
            full == msg@.len() / 8,
            n == msg@.len(),
            pad@ =~= msg@.subrange(8 * full as int, 8 * full + j),
        decreases rem - j,
    {
        pad.push(msg[8 * full + j]);
        j = j + 1;
    }
    while pad.len() < 7
        invariant
            rem <= pad@.len() <= 7,
            rem == n - 8 * full,
            full == msg@.len() / 8,
            n == msg@.len(),
            pad@.subrange(0, rem as int) =~= msg@.subrange(8 * full as int, n as int),
            forall|i: int| rem <= i < pad@.len() ==> pad@[i] == 0u8,
        decreases 7 - pad.len(),
    {
        pad.push(0u8);
    }
    pad.push((n % 256) as u8);
    proof {
        assert(pad@ =~= sip_pad_spec(msg@));
    }
    let m_last = load_word(&pad, 0);
    proof {
        assert(pad@.subrange(0, 8) =~= pad@);
    }
    s = sip_compress(s, m_last);
    s = SipState { v0: s.v0, v1: s.v1, v2: s.v2 ^ 0xff, v3: s.v3 };
    s = sipround(sipround(sipround(sipround(s))));
    s.v0 ^ s.v1 ^ s.v2 ^ s.v3
}

} // verus!
