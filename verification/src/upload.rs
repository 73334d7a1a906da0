//! Index buffers as the bytes that a graphics device reads.

use vstd::prelude::*;

verus! {

/// The four bytes hold the word with its least significant byte first.
pub open spec fn is_little_endian(bytes: Seq<u8>, word: u32) -> bool {
    &&& bytes.len() == 4
    &&& word == bytes[0] + bytes[1] * 0x100 + bytes[2] * 0x1_0000 + bytes[3] * 0x100_0000
}

/// The four bytes hold the word with its most significant byte first.
pub open spec fn is_big_endian(bytes: Seq<u8>, word: u32) -> bool {
    &&& bytes.len() == 4
    &&& word == bytes[3] + bytes[2] * 0x100 + bytes[1] * 0x1_0000 + bytes[0] * 0x100_0000
}

/// The bytes are the words as they lie in memory, four bytes per word in the
/// order of the words, on a machine of either byte order.
pub open spec fn is_memory_image(bytes: Seq<u8>, words: Seq<u32>) -> bool {
    &&& bytes.len() == 4 * words.len()
    &&& {
        ||| forall|i: int|
            0 <= i < words.len() ==> is_little_endian(
                bytes.subrange(4 * i, 4 * i + 4),
                #[trigger] words[i],
            )
        ||| forall|i: int|
            0 <= i < words.len() ==> is_big_endian(
                bytes.subrange(4 * i, 4 * i + 4),
                #[trigger] words[i],
            )
    }
}

/// `bytemuck::cast_slice` from 32-bit words to bytes. The cast reinterprets
/// the memory of the slice without copying: the result is four times as long
/// and holds each word in the byte order of the machine. It cannot fail in
/// this direction, since bytes need no alignment and every length in bytes
/// is a whole number of bytes. The contract is read off the source of the
/// cast and is not proved here.
#[verifier::external_body]
fn words_as_bytes(words: &[u32]) -> (bytes: &[u8])
    ensures
        is_memory_image(bytes@, words@),
{
    bytemuck::cast_slice(words)
}

/// The index buffer as the bytes to upload.
pub fn index_bytes(indices: &Vec<u32>) -> (bytes: &[u8])
    ensures
        is_memory_image(bytes@, indices@),
        bytes@.len() == 4 * indices@.len(),
{
    words_as_bytes(indices.as_slice())
}

} // verus!
