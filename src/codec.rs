use vstd::prelude::*;

verus! {

/// Bytes per sample: each sample is a 32-bit IEEE-754 value, stored
/// little-endian. Samples are carried through the library as their bit
/// patterns (`u32`).
pub const SAMPLE_BYTES: usize = 4;

/// Why a byte buffer could not be decoded.
#[derive(Debug, Clone, Copy, PartialEq, Eq, Structural)]
pub enum CodecError {
    /// The buffer length is not a multiple of the sample width.
    MalformedBuffer,
}

/// The word whose little-endian bytes are `b0, b1, b2, b3`.
pub open spec fn le_word(b0: u8, b1: u8, b2: u8, b3: u8) -> u32 {
    (b0 as u32) | ((b1 as u32) << 8u32) | ((b2 as u32) << 16u32) | ((b3 as u32) << 24u32)
}

/// Byte `k` (0 is least significant) of `w`.
pub open spec fn le_byte(w: u32, k: u32) -> u8 {
    ((w >> (8 * k)) & 0xffu32) as u8
}

/// The samples that `bytes` encodes, four bytes each.
pub open spec fn decoded(bytes: Seq<u8>) -> Seq<u32> {
    Seq::new(
        bytes.len() / 4,
        |i: int| le_word(bytes[4 * i], bytes[4 * i + 1], bytes[4 * i + 2], bytes[4 * i + 3]),
    )
}

/// The bytes of `words`, each as four little-endian bytes.
pub open spec fn encoded(words: Seq<u32>) -> Seq<u8> {
    Seq::new(4 * words.len(), |j: int| le_byte(words[j / 4], (j % 4) as u32))
}

proof fn lemma_word_bytes(b0: u8, b1: u8, b2: u8, b3: u8)
    ensures
        le_byte(le_word(b0, b1, b2, b3), 0) == b0,
        le_byte(le_word(b0, b1, b2, b3), 1) == b1,
        le_byte(le_word(b0, b1, b2, b3), 2) == b2,
        le_byte(le_word(b0, b1, b2, b3), 3) == b3,
{
    assert(((((b0 as u32) | ((b1 as u32) << 8u32) | ((b2 as u32) << 16u32) | ((b3 as u32)
        << 24u32)) >> 0u32) & 0xffu32) as u8 == b0) by (bit_vector);
    assert(((((b0 as u32) | ((b1 as u32) << 8u32) | ((b2 as u32) << 16u32) | ((b3 as u32)
        << 24u32)) >> 8u32) & 0xffu32) as u8 == b1) by (bit_vector);
    assert(((((b0 as u32) | ((b1 as u32) << 8u32) | ((b2 as u32) << 16u32) | ((b3 as u32)
        << 24u32)) >> 16u32) & 0xffu32) as u8 == b2) by (bit_vector);
    assert(((((b0 as u32) | ((b1 as u32) << 8u32) | ((b2 as u32) << 16u32) | ((b3 as u32)
        << 24u32)) >> 24u32) & 0xffu32) as u8 == b3) by (bit_vector);
}

proof fn lemma_bytes_word(w: u32)
    ensures
        le_word(le_byte(w, 0), le_byte(w, 1), le_byte(w, 2), le_byte(w, 3)) == w,
{
    assert((((w >> 0u32) & 0xffu32) as u8 as u32) | ((((w >> 8u32) & 0xffu32) as u8 as u32)
        << 8u32) | ((((w >> 16u32) & 0xffu32) as u8 as u32) << 16u32) | ((((w >> 24u32)
        & 0xffu32) as u8 as u32) << 24u32) == w) by (bit_vector);
}

/// Decoding any buffer whose length is a multiple of four and encoding the
/// result gives back the same bytes.
pub proof fn lemma_decode_encode(bytes: Seq<u8>)
    requires
        bytes.len() % 4 == 0,
    ensures
        encoded(decoded(bytes)) =~= bytes,
{
    let d = decoded(bytes);
    assert forall|j: int| 0 <= j < bytes.len() implies #[trigger] encoded(d)[j] == bytes[j] by {
        let i = j / 4;
        lemma_word_bytes(bytes[4 * i], bytes[4 * i + 1], bytes[4 * i + 2], bytes[4 * i + 3]);
    }
}

/// Encoding any samples and decoding the bytes gives back the same samples.
pub proof fn lemma_encode_decode(words: Seq<u32>)
    ensures
        decoded(encoded(words)) =~= words,
{
    let e = encoded(words);
    assert forall|i: int| 0 <= i < words.len() implies #[trigger] decoded(e)[i] == words[i] by {
        lemma_bytes_word(words[i]);
        assert(e[4 * i] == le_byte(words[i], 0));
        assert(e[4 * i + 1] == le_byte(words[i], 1));
        assert(e[4 * i + 2] == le_byte(words[i], 2));
        assert(e[4 * i + 3] == le_byte(words[i], 3));
    }
}

/// Interprets `bytes` as consecutive little-endian 32-bit samples.
pub fn decode(bytes: &[u8]) -> (r: Result<Vec<u32>, CodecError>)
    ensures
        bytes@.len() % 4 == 0 ==> r is Ok && r->Ok_0@ == decoded(bytes@),
        bytes@.len() % 4 != 0 ==> r == Err::<Vec<u32>, CodecError>(CodecError::MalformedBuffer),
{
    let len = bytes.len();
    if len % SAMPLE_BYTES != 0 {
        return Err(CodecError::MalformedBuffer);
    }
    let n = len / SAMPLE_BYTES;
    let mut out: Vec<u32> = Vec::with_capacity(n);
    let mut i: usize = 0;
    while i < n
        invariant
            len == bytes@.len(),
            n == len / 4,
            i <= n,
            out@ =~= decoded(bytes@).subrange(0, i as int),
        decreases n - i,
    {
        let k = 4 * i;
        let w = (bytes[k] as u32) | ((bytes[k + 1] as u32) << 8u32) | ((bytes[k + 2] as u32)
            << 16u32) | ((bytes[k + 3] as u32) << 24u32);
        out.push(w);
        i = i + 1;
    }
    Ok(out)
}

/// Writes each sample as four little-endian bytes.
pub fn encode(words: &[u32]) -> (r: Vec<u8>)
    requires
        4 * words@.len() <= usize::MAX,
    ensures
        r@ == encoded(words@),
{
    let n = words.len();
    let mut out: Vec<u8> = Vec::with_capacity(4 * n);
    let mut i: usize = 0;
    while i < n
        invariant
            n == words@.len(),
            4 * n <= usize::MAX,
            i <= n,
            out@ =~= encoded(words@).subrange(0, 4 * i as int),
        decreases n - i,
    {
        let w = words[i];
        out.push((w & 0xffu32) as u8);
        out.push(((w >> 8u32) & 0xffu32) as u8);
        out.push(((w >> 16u32) & 0xffu32) as u8);
        out.push(((w >> 24u32) & 0xffu32) as u8);
        proof {
            assert(w == w >> 0u32) by (bit_vector);
            assert(out@ =~= encoded(words@).subrange(0, 4 * (i + 1) as int));
        }
        i = i + 1;
    }
    out
}

} // verus!
