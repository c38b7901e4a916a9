//! Incremental CRC-32 (reflected IEEE polynomial) and the four-byte
//! little-endian footer that tags a compressed stream.

use vstd::bytes::{
    lemma_auto_spec_u32_to_from_le_bytes, spec_u32_from_le_bytes, spec_u32_to_le_bytes,
    u32_from_le_bytes, u32_to_le_bytes,
};
use vstd::prelude::*;
use vstd::slice::slice_subrange;

verus! {

/// Reflected form of the IEEE 802.3 generator polynomial.
pub const CRC32_POLYNOMIAL: u32 = 0xEDB8_8320;

/// Value of the register before any byte is absorbed, and the mask that is
/// applied to the register to obtain the checksum.
pub const CRC32_MASK: u32 = 0xFFFF_FFFF;

/// Length in bytes of the checksum footer.
pub const FOOTER_LEN: usize = 4;

/// One shift of the register: the low bit leaves, and the polynomial is
/// folded in when that bit was set.
pub open spec fn crc_shift(reg: u32) -> u32 {
    if reg & 1 != 0 {
        (reg >> 1) ^ CRC32_POLYNOMIAL
    } else {
        reg >> 1
    }
}

/// `n` shifts of the register.
pub open spec fn crc_shifts(reg: u32, n: nat) -> u32
    decreases n,
{
    if n == 0 {
        reg
    } else {
        crc_shift(crc_shifts(reg, (n - 1) as nat))
    }
}

/// The register after one more input byte: the byte is XORed into the low
/// eight bits, then the register is shifted eight times.
pub open spec fn crc_absorb(reg: u32, byte: u8) -> u32 {
    crc_shifts(reg ^ (byte as u32), 8)
}

/// The register after the bytes of `bytes`, in order, starting from `reg`.
pub open spec fn crc_fold(reg: u32, bytes: Seq<u8>) -> u32
    decreases bytes.len(),
{
    if bytes.len() == 0 {
        reg
    } else {
        crc_absorb(crc_fold(reg, bytes.drop_last()), bytes.last())
    }
}

/// CRC-32 of a byte sequence.
pub open spec fn crc32(bytes: Seq<u8>) -> u32 {
    crc_fold(CRC32_MASK, bytes) ^ CRC32_MASK
}

/// The footer that tags `body`: its CRC-32, least significant byte first.
pub open spec fn footer(body: Seq<u8>) -> Seq<u8> {
    spec_u32_to_le_bytes(crc32(body))
}

/// A body followed by its footer.
pub open spec fn tagged(body: Seq<u8>) -> Seq<u8> {
    body + footer(body)
}

/// Whether `data` is some body followed by the footer of that body.
pub open spec fn footer_matches(data: Seq<u8>) -> bool {
    &&& data.len() >= FOOTER_LEN
    &&& spec_u32_from_le_bytes(data.subrange(data.len() - FOOTER_LEN, data.len() as int)) == crc32(
        data.subrange(0, data.len() - FOOTER_LEN),
    )
}

/// Absorbing a concatenation is absorbing its parts in turn.
pub proof fn lemma_crc_fold_concat(reg: u32, a: Seq<u8>, b: Seq<u8>)
    ensures
        crc_fold(reg, a + b) == crc_fold(crc_fold(reg, a), b),
    decreases b.len(),
{
    if b.len() == 0 {
        assert(a + b =~= a);
    } else {
        lemma_crc_fold_concat(reg, a, b.drop_last());
        assert((a + b).drop_last() =~= a + b.drop_last());
        assert((a + b).last() == b.last());
    }
}

/// Absorbing one byte after a sequence.
pub proof fn lemma_crc_fold_push(reg: u32, a: Seq<u8>, byte: u8)
    ensures
        crc_fold(reg, a.push(byte)) == crc_absorb(crc_fold(reg, a), byte),
{
    assert(a.push(byte).drop_last() =~= a);
}

/// A register shift loses nothing: different registers stay different.
pub proof fn lemma_crc_shift_injective(x: u32, y: u32)
    requires
        crc_shift(x) == crc_shift(y),
    ensures
        x == y,
{
    let sx = if x & 1 != 0 {
        (x >> 1) ^ 0xEDB8_8320u32
    } else {
        x >> 1
    };
    let sy = if y & 1 != 0 {
        (y >> 1) ^ 0xEDB8_8320u32
    } else {
        y >> 1
    };
    assert(sx == sy ==> x == y) by (bit_vector)
        requires
            sx == (if x & 1 != 0 {
                (x >> 1) ^ 0xEDB8_8320u32
            } else {
                x >> 1
            }),
            sy == (if y & 1 != 0 {
                (y >> 1) ^ 0xEDB8_8320u32
            } else {
                y >> 1
            }),
    ;
}

proof fn lemma_crc_shifts_injective(x: u32, y: u32, n: nat)
    requires
        crc_shifts(x, n) == crc_shifts(y, n),
    ensures
        x == y,
    decreases n,
{
    if n > 0 {
        lemma_crc_shift_injective(crc_shifts(x, (n - 1) as nat), crc_shifts(y, (n - 1) as nat));
        lemma_crc_shifts_injective(x, y, (n - 1) as nat);
    }
}

/// Absorbing a byte is injective in the register and in the byte.
pub proof fn lemma_crc_absorb_injective(r1: u32, b1: u8, r2: u32, b2: u8)
    requires
        crc_absorb(r1, b1) == crc_absorb(r2, b2),
    ensures
        r1 == r2 ==> b1 == b2,
        b1 == b2 ==> r1 == r2,
{
    lemma_crc_shifts_injective(r1 ^ (b1 as u32), r2 ^ (b2 as u32), 8);
    let w1 = b1 as u32;
    let w2 = b2 as u32;
    assert(r1 ^ w1 == r2 ^ w2 ==> (r1 == r2 <==> w1 == w2)) by (bit_vector);
}

/// Absorbing the same bytes keeps different registers different.
pub proof fn lemma_crc_fold_injective(r1: u32, r2: u32, bytes: Seq<u8>)
    requires
        crc_fold(r1, bytes) == crc_fold(r2, bytes),
    ensures
        r1 == r2,
    decreases bytes.len(),
{
    if bytes.len() > 0 {
        lemma_crc_absorb_injective(
            crc_fold(r1, bytes.drop_last()),
            bytes.last(),
            crc_fold(r2, bytes.drop_last()),
            bytes.last(),
        );
        lemma_crc_fold_injective(r1, r2, bytes.drop_last());
    }
}

/// Two byte sequences of one length that differ in exactly one position have
/// different checksums.
pub proof fn lemma_crc32_detects_single_byte(a: Seq<u8>, b: Seq<u8>, at: int)
    requires
        a.len() == b.len(),
        0 <= at < a.len(),
        a[at] != b[at],
        forall|i: int| 0 <= i < a.len() && i != at ==> a[i] == b[i],
    ensures
        crc32(a) != crc32(b),
{
    let head = a.subrange(0, at);
    let tail = a.subrange(at + 1, a.len() as int);
    assert(head =~= b.subrange(0, at));
    assert(tail =~= b.subrange(at + 1, b.len() as int));
    assert(a =~= head.push(a[at]) + tail);
    assert(b =~= head.push(b[at]) + tail);
    lemma_crc_fold_concat(CRC32_MASK, head.push(a[at]), tail);
    lemma_crc_fold_concat(CRC32_MASK, head.push(b[at]), tail);
    lemma_crc_fold_push(CRC32_MASK, head, a[at]);
    lemma_crc_fold_push(CRC32_MASK, head, b[at]);
    let ra = crc_fold(CRC32_MASK, head.push(a[at]));
    let rb = crc_fold(CRC32_MASK, head.push(b[at]));
    if crc32(a) == crc32(b) {
        let fa = crc_fold(CRC32_MASK, a);
        let fb = crc_fold(CRC32_MASK, b);
        assert(fa ^ 0xFFFF_FFFFu32 == fb ^ 0xFFFF_FFFFu32 ==> fa == fb) by (bit_vector);
        lemma_crc_fold_injective(ra, rb, tail);
        lemma_crc_absorb_injective(
            crc_fold(CRC32_MASK, head),
            a[at],
            crc_fold(CRC32_MASK, head),
            b[at],
        );
    }
}

/// Removing the footer of a tagged body gives the body back, and the footer
/// matches.
pub proof fn lemma_tagged_matches(body: Seq<u8>)
    ensures
        tagged(body).len() == body.len() + FOOTER_LEN,
        footer_matches(tagged(body)),
        tagged(body).subrange(0, tagged(body).len() - FOOTER_LEN) == body,
{
    lemma_auto_spec_u32_to_from_le_bytes();
    let t = tagged(body);
    assert(footer(body).len() == 4);
    assert(t.subrange(0, t.len() - FOOTER_LEN) =~= body);
    assert(t.subrange(t.len() - FOOTER_LEN, t.len() as int) =~= footer(body));
}

/// Changing any single byte of a tagged body, in the body or in the footer,
/// makes the footer stop matching.
pub proof fn lemma_tagged_detects_single_byte(body: Seq<u8>, changed: Seq<u8>, at: int)
    requires
        changed.len() == tagged(body).len(),
        0 <= at < changed.len(),
        changed[at] != tagged(body)[at],
        forall|i: int| 0 <= i < changed.len() && i != at ==> changed[i] == tagged(body)[i],
    ensures
        !footer_matches(changed),
{
    lemma_auto_spec_u32_to_from_le_bytes();
    lemma_tagged_matches(body);
    let t = tagged(body);
    let n = body.len() as int;
    let new_body = changed.subrange(0, n);
    let new_foot = changed.subrange(n, n + 4);
    assert(t.subrange(n, n + 4) =~= footer(body));
    if at < n {
        assert(new_foot =~= footer(body));
        assert(forall|i: int| 0 <= i < n ==> new_body[i] == changed[i] && body[i] == t[i]);
        lemma_crc32_detects_single_byte(body, new_body, at);
    } else {
        assert(new_body =~= body);
        assert(new_foot[at - n] == changed[at]);
        assert(footer(body)[at - n] == t[at]);
        assert(new_foot != footer(body));
        assert(spec_u32_to_le_bytes(spec_u32_from_le_bytes(new_foot)) == new_foot);
    }
}

/// An incremental CRC-32 computation.
pub struct SafeChecksum {
    value: u32,
}

impl SafeChecksum {
    /// The register as it stands.
    pub closed spec fn register(&self) -> u32 {
        self.value
    }

    /// A computation that has absorbed nothing yet.
    pub fn new() -> (checksum: SafeChecksum)
        ensures
            checksum.register() == CRC32_MASK,
    {
        SafeChecksum { value: CRC32_MASK }
    }

    /// Absorbs the bytes of `buf`, in order.
    pub fn update(&mut self, buf: &[u8])
        ensures
            final(self).register() == crc_fold(old(self).register(), buf@),
    {
        let mut crc = self.value;
        let mut i: usize = 0;
        while i < buf.len()
            invariant
                i <= buf.len(),
                crc == crc_fold(old(self).register(), buf@.subrange(0, i as int)),
            decreases buf.len() - i,
        {
            proof {
                lemma_crc_fold_push(old(self).register(), buf@.subrange(0, i as int), buf@[i as int]);
                assert(buf@.subrange(0, i as int).push(buf@[i as int]) =~= buf@.subrange(
                    0,
                    i + 1,
                ));
            }
            crc = absorb_byte(crc, buf[i]);
            i += 1;
        }
        assert(buf@.subrange(0, i as int) =~= buf@);
        self.value = crc;
    }

    /// The checksum of everything absorbed so far.
    pub fn finalize(self) -> (sum: u32)
        ensures
            sum == self.register() ^ CRC32_MASK,
    {
        self.value ^ CRC32_MASK
    }
}

fn absorb_byte(reg: u32, byte: u8) -> (next: u32)
    ensures
        next == crc_absorb(reg, byte),
{
    let mut crc = reg ^ (byte as u32);
    let ghost start = crc;
    let mut k: u8 = 0;
    while k < 8
        invariant
            k <= 8,
            crc == crc_shifts(start, k as nat),
        decreases 8 - k,
    {
        crc = if crc & 1 != 0 {
            (crc >> 1) ^ CRC32_POLYNOMIAL
        } else {
            crc >> 1
        };
        k += 1;
    }
    crc
}

/// CRC-32 of `data`.
pub fn checksum_of(data: &[u8]) -> (sum: u32)
    ensures
        sum == crc32(data@),
{
    let mut checksum = SafeChecksum::new();
    checksum.update(data);
    checksum.finalize()
}

/// Appends to `output` the footer of what it holds.
pub fn append_footer(output: &mut Vec<u8>)
    ensures
        final(output)@ == tagged(old(output)@),
{
    let sum = checksum_of(output.as_slice());
    let foot = u32_to_le_bytes(sum);
    output.extend_from_slice(foot.as_slice());
}

/// Whether the four bytes of `expected_le32` are the CRC-32 of `data`, least
/// significant byte first.
pub fn verify(data: &[u8], expected_le32: &[u8]) -> (ok: bool)
    requires
        expected_le32@.len() == FOOTER_LEN,
    ensures
        ok == (spec_u32_from_le_bytes(expected_le32@) == crc32(data@)),
{
    checksum_of(data) == u32_from_le_bytes(expected_le32)
}

/// Whether `data` ends in the footer of what stands before it.
pub fn verify_footer(data: &[u8]) -> (ok: bool)
    ensures
        ok == footer_matches(data@),
{
    if data.len() < FOOTER_LEN {
        return false;
    }
    let split = data.len() - FOOTER_LEN;
    verify(slice_subrange(data, 0, split), slice_subrange(data, split, data.len()))
}

} // verus!
