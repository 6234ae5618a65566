//! The byte image of 32-bit words as a device sees them in a buffer.
//!
//! Field samples, coefficients and the parameter record all travel as
//! 32-bit words in the byte order of the host. The conversions themselves
//! are done by `bytemuck`; this module states what they produce.

use vstd::endian::{endianness, Endian};
use vstd::prelude::*;

verus! {

/// The four bytes of `w` in the given byte order.
pub open spec fn word_bytes(order: Endian, w: u32) -> Seq<u8> {
    let b0 = (w % 256) as u8;
    let b1 = (w / 256 % 256) as u8;
    let b2 = (w / 65536 % 256) as u8;
    let b3 = (w / 16777216) as u8;
    match order {
        Endian::Little => seq![b0, b1, b2, b3],
        Endian::Big => seq![b3, b2, b1, b0],
    }
}

/// The bytes of a run of words laid out one after another.
pub open spec fn words_image(order: Endian, words: Seq<u32>) -> Seq<u8> {
    Seq::new(4 * words.len(), |p: int| word_bytes(order, words[p / 4])[p % 4])
}

/// The bytes that hold the word at position `index` of a buffer.
pub open spec fn word_at(mem: Seq<u8>, index: int) -> Seq<u8> {
    mem.subrange(4 * index, 4 * index + 4)
}

/// Contents of a buffer after `data` has been written over it from byte
/// `offset` on.
pub open spec fn overwritten(mem: Seq<u8>, offset: int, data: Seq<u8>) -> Seq<u8> {
    Seq::new(
        mem.len(),
        |p: int|
            if offset <= p < offset + data.len() {
                data[p - offset]
            } else {
                mem[p]
            },
    )
}

/// A word is determined by its bytes.
pub proof fn lemma_word_bytes_injective(order: Endian, a: u32, b: u32)
    requires
        word_bytes(order, a) == word_bytes(order, b),
    ensures
        a == b,
{
    let x = word_bytes(order, a);
    let y = word_bytes(order, b);
    assert(x[0] == y[0] && x[1] == y[1] && x[2] == y[2] && x[3] == y[3]);
}

/// In the image of a run of words, the word at position `index` is found at
/// byte `4 * index`.
pub proof fn lemma_image_holds_words(order: Endian, words: Seq<u32>, index: int)
    requires
        0 <= index < words.len(),
    ensures
        words_image(order, words).len() == 4 * words.len(),
        word_at(words_image(order, words), index) == word_bytes(order, words[index]),
{
    let image = words_image(order, words);
    assert forall|p: int| 0 <= p < 4 implies #[trigger] word_at(image, index)[p] == word_bytes(
        order,
        words[index],
    )[p] by {
        assert((4 * index + p) / 4 == index && (4 * index + p) % 4 == p);
    }
    assert(word_at(image, index) =~= word_bytes(order, words[index]));
}

/// Writing one word at byte `4 * index` of an image replaces the word at
/// position `index` and leaves every other word as it was.
pub proof fn lemma_overwrite_one_word(order: Endian, words: Seq<u32>, index: int, w: u32)
    requires
        0 <= index < words.len(),
    ensures
        overwritten(words_image(order, words), 4 * index, word_bytes(order, w)) == words_image(
            order,
            words.update(index, w),
        ),
{
    let before = words_image(order, words);
    let after = overwritten(before, 4 * index, word_bytes(order, w));
    let expected = words_image(order, words.update(index, w));
    assert forall|p: int| 0 <= p < after.len() implies after[p] == expected[p] by {
        if 4 * index <= p < 4 * index + 4 {
            assert(p / 4 == index && p % 4 == p - 4 * index);
        } else {
            assert(p / 4 != index);
        }
    }
    assert(after =~= expected);
}

/// `bytemuck::cast_slice` from `u32` to `u8`, copied into a vector. The
/// cast views the memory of the slice as bytes, so each word contributes its
/// four bytes in the byte order of the host, in slice order. It cannot fail:
/// bytes need no alignment and every length is a whole number of bytes.
#[verifier::external_body]
fn cast_words(words: &[u32]) -> (bytes: Vec<u8>)
    ensures
        bytes@ == words_image(endianness(), words@),
{
    bytemuck::cast_slice::<u32, u8>(words).to_vec()
}

/// `bytemuck::pod_read_unaligned` at `u32`. It reads the word whose bytes,
/// in the byte order of the host, are the four given; it panics on any other
/// length, which the precondition rules out.
#[verifier::external_body]
fn read_word(bytes: &[u8]) -> (w: u32)
    requires
        bytes@.len() == 4,
    ensures
        word_bytes(endianness(), w) == bytes@,
{
    bytemuck::pod_read_unaligned::<u32>(bytes)
}

/// The bytes of `words` as they are uploaded to a buffer.
pub fn pack_words(words: &[u32]) -> (bytes: Vec<u8>)
    ensures
        bytes@ == words_image(endianness(), words@),
        bytes@.len() == 4 * words@.len(),
{
    cast_words(words)
}

/// The word held in `bytes`, or `None` unless there are exactly four of
/// them. It inverts [`pack_words`] on a single word.
pub fn unpack_word(bytes: &[u8]) -> (word: Option<u32>)
    ensures
        word.is_some() == (bytes@.len() == 4),
        word matches Some(w) ==> word_bytes(endianness(), w) == bytes@,
        forall|w: u32| bytes@ == words_image(endianness(), seq![w]) ==> word == Some(w),
{
    if bytes.len() != 4 {
        return None;
    }
    let found = read_word(bytes);
    proof {
        assert forall|w: u32| bytes@ == words_image(endianness(), seq![w]) implies found == w by {
            lemma_image_holds_words(endianness(), seq![w], 0);
            assert(word_at(bytes@, 0) =~= bytes@);
            lemma_word_bytes_injective(endianness(), found, w);
        }
    }
    Some(found)
}

} // verus!
