//! Bytes of host memory: copying them, and packing 32-bit words into them.
//!
//! Words are laid out in little-endian order, least significant byte first.

use vstd::prelude::*;

verus! {

/// The memory `mapped` after `data` was written to its start.
pub open spec fn spec_written(mapped: Seq<u8>, data: Seq<u8>) -> Seq<u8> {
    data + mapped.subrange(data.len() as int, mapped.len() as int)
}

/// Writes `data` to the start of `mapped` and leaves the rest as it is.
pub fn copy_into(mapped: &mut [u8], data: &[u8])
    requires
        data@.len() <= old(mapped)@.len(),
    ensures
        final(mapped)@ == spec_written(old(mapped)@, data@),
        final(mapped)@.len() == old(mapped)@.len(),
{
    let mut i: usize = 0;
    while i < data.len()
        invariant
            i <= data@.len() <= mapped@.len(),
            mapped@.len() == old(mapped)@.len(),
            forall|k: int| 0 <= k < i ==> mapped@[k] == data@[k],
            forall|k: int| i <= k < mapped@.len() ==> mapped@[k] == old(mapped)@[k],
        decreases data.len() - i,
    {
        mapped[i] = data[i];
        i = i + 1;
    }
    assert(mapped@ =~= spec_written(old(mapped)@, data@));
}

/// What was written can be read back: the first bytes of the memory are
/// the data, byte for byte, and the bytes behind them are untouched.
pub proof fn lemma_written_reads_back(mapped: Seq<u8>, data: Seq<u8>)
    requires
        data.len() <= mapped.len(),
    ensures
        spec_written(mapped, data).len() == mapped.len(),
        spec_written(mapped, data).subrange(0, data.len() as int) == data,
        forall|k: int| data.len() <= k < mapped.len() ==> spec_written(mapped, data)[k] == mapped[k],
{
    assert(spec_written(mapped, data).subrange(0, data.len() as int) =~= data);
}

/// Byte `k` of the word `w`, counted from the least significant.
pub open spec fn spec_byte(w: u32, k: int) -> u8 {
    if k == 0 {
        (w & 0xff) as u8
    } else if k == 1 {
        ((w >> 8) & 0xff) as u8
    } else if k == 2 {
        ((w >> 16) & 0xff) as u8
    } else {
        ((w >> 24) & 0xff) as u8
    }
}

/// The word whose bytes are `b0` to `b3`, least significant first.
pub open spec fn spec_word(b0: u8, b1: u8, b2: u8, b3: u8) -> u32 {
    (b0 as u32) | ((b1 as u32) << 8) | ((b2 as u32) << 16) | ((b3 as u32) << 24)
}

/// The bytes of `words`: four per word, in order.
pub open spec fn spec_encode(words: Seq<u32>) -> Seq<u8> {
    Seq::new(4 * words.len(), |i: int| spec_byte(words[i / 4], i % 4))
}

/// The words that the first `4 * (bytes.len() / 4)` bytes of `bytes` hold.
pub open spec fn spec_decode(bytes: Seq<u8>) -> Seq<u32> {
    Seq::new(
        bytes.len() / 4,
        |i: int| spec_word(bytes[4 * i], bytes[4 * i + 1], bytes[4 * i + 2], bytes[4 * i + 3]),
    )
}

/// The four bytes of `w`, least significant first.
pub fn word_bytes(w: u32) -> (r: [u8; 4])
    ensures
        forall|k: int| 0 <= k < 4 ==> r@[k] == spec_byte(w, k),
{
    assert(w & 0xff < 256 && (w >> 8) & 0xff < 256 && (w >> 16) & 0xff < 256 && (w >> 24) & 0xff
        < 256) by (bit_vector);
    let b0: u8 = (w & 0xff) as u8;
    let b1: u8 = ((w >> 8) & 0xff) as u8;
    let b2: u8 = ((w >> 16) & 0xff) as u8;
    let b3: u8 = ((w >> 24) & 0xff) as u8;
    [b0, b1, b2, b3]
}

/// Appends the bytes of `words` to `out`.
pub fn encode_words(out: &mut Vec<u8>, words: &[u32])
    requires
        old(out)@.len() + 4 * words@.len() <= usize::MAX,
    ensures
        final(out)@ == old(out)@ + spec_encode(words@),
{
    let ghost before = out@;
    let mut i: usize = 0;
    while i < words.len()
        invariant
            i <= words@.len(),
            before.len() + 4 * words@.len() <= usize::MAX,
            out@.len() == before.len() + 4 * i,
            forall|k: int| 0 <= k < before.len() ==> out@[k] == before[k],
            forall|k: int|
                0 <= k < 4 * i ==> out@[before.len() + k] == #[trigger] spec_encode(words@)[k],
        decreases words.len() - i,
    {
        let b = word_bytes(words[i]);
        out.push(b[0]);
        out.push(b[1]);
        out.push(b[2]);
        out.push(b[3]);
        i = i + 1;
    }
    assert(out@ =~= before + spec_encode(words@));
}

/// The words held by `bytes`, four bytes each; up to three bytes at the
/// end that do not make a word are left out.
pub fn decode_words(bytes: &[u8]) -> (r: Vec<u32>)
    ensures
        r@ == spec_decode(bytes@),
{
    let n: usize = bytes.len() / 4;
    let mut out: Vec<u32> = Vec::new();
    let mut i: usize = 0;
    while i < n
        invariant
            i <= n,
            n == bytes@.len() / 4,
            4 * n <= bytes@.len() <= usize::MAX,
            out@.len() == i,
            forall|k: int| 0 <= k < i ==> out@[k] == #[trigger] spec_decode(bytes@)[k],
        decreases n - i,
    {
        let b0: u32 = bytes[4 * i] as u32;
        let b1: u32 = bytes[4 * i + 1] as u32;
        let b2: u32 = bytes[4 * i + 2] as u32;
        let b3: u32 = bytes[4 * i + 3] as u32;
        out.push(b0 | (b1 << 8) | (b2 << 16) | (b3 << 24));
        i = i + 1;
    }
    assert(out@ =~= spec_decode(bytes@));
    out
}

/// A word is the word of its own bytes.
pub proof fn lemma_word_of_bytes(w: u32)
    ensures
        spec_word(spec_byte(w, 0), spec_byte(w, 1), spec_byte(w, 2), spec_byte(w, 3)) == w,
{
    assert(((w & 0xff) as u8 as u32) | ((((w >> 8) & 0xff) as u8 as u32) << 8) | ((((w >> 16)
        & 0xff) as u8 as u32) << 16) | ((((w >> 24) & 0xff) as u8 as u32) << 24) == w)
        by (bit_vector);
}

/// Decoding what was encoded gives the words back.
pub proof fn lemma_decode_encode(words: Seq<u32>)
    ensures
        spec_decode(spec_encode(words)) == words,
{
    let bytes = spec_encode(words);
    assert(bytes.len() / 4 == words.len());
    assert forall|i: int| 0 <= i < words.len() implies spec_decode(bytes)[i] == words[i] by {
        lemma_word_of_bytes(words[i]);
        assert((4 * i) / 4 == i && (4 * i) % 4 == 0);
        assert((4 * i + 1) / 4 == i && (4 * i + 1) % 4 == 1);
        assert((4 * i + 2) / 4 == i && (4 * i + 2) % 4 == 2);
        assert((4 * i + 3) / 4 == i && (4 * i + 3) % 4 == 3);
    }
    assert(spec_decode(bytes) =~= words);
}

} // verus!
