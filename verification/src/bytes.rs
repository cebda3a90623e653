use vstd::prelude::*;
use crate::vertex::{Vertex, VERTEX_STRIDE, VERTEX_WORDS};

verus! {

/// Which end of a number comes first in memory.
#[derive(Clone, Copy, Debug, PartialEq, Eq, Structural)]
pub enum ByteOrder {
    LittleEndian,
    BigEndian,
}

/// The four bytes of `word`, least significant first.
pub open spec fn word_bytes(word: u32) -> Seq<u8> {
    seq![
        (word % 256) as u8,
        (word / 0x100 % 256) as u8,
        (word / 0x1_0000 % 256) as u8,
        (word / 0x100_0000 % 256) as u8,
    ]
}

/// The two bytes of `half`, least significant first.
pub open spec fn half_bytes(half: u16) -> Seq<u8> {
    seq![(half % 256) as u8, (half / 0x100 % 256) as u8]
}

/// The words laid out in memory one after the other, each in `order`.
pub open spec fn words_in_memory(words: Seq<u32>, order: ByteOrder) -> Seq<u8> {
    Seq::new(
        4 * words.len(),
        |i: int|
            match order {
                ByteOrder::LittleEndian => word_bytes(words[i / 4])[i % 4],
                ByteOrder::BigEndian => word_bytes(words[i / 4])[3 - i % 4],
            },
    )
}

/// The 16-bit numbers laid out in memory one after the other, each in `order`.
pub open spec fn halves_in_memory(halves: Seq<u16>, order: ByteOrder) -> Seq<u8> {
    Seq::new(
        2 * halves.len(),
        |i: int|
            match order {
                ByteOrder::LittleEndian => half_bytes(halves[i / 2])[i % 2],
                ByteOrder::BigEndian => half_bytes(halves[i / 2])[1 - i % 2],
            },
    )
}

/// `bytes` is what `words` look like in memory on a machine of either byte
/// order.
pub open spec fn is_memory_of_words(bytes: Seq<u8>, words: Seq<u32>) -> bool {
    ||| bytes == words_in_memory(words, ByteOrder::LittleEndian)
    ||| bytes == words_in_memory(words, ByteOrder::BigEndian)
}

/// `bytes` is what `halves` look like in memory on a machine of either byte
/// order.
pub open spec fn is_memory_of_halves(bytes: Seq<u8>, halves: Seq<u16>) -> bool {
    ||| bytes == halves_in_memory(halves, ByteOrder::LittleEndian)
    ||| bytes == halves_in_memory(halves, ByteOrder::BigEndian)
}

/// The words of all vertices in memory order, vertex after vertex.
pub open spec fn words_of(vertices: Seq<Vertex>) -> Seq<u32> {
    Seq::new(
        (VERTEX_WORDS * vertices.len()) as nat,
        |i: int| vertices[i / (VERTEX_WORDS as int)].word(i % (VERTEX_WORDS as int)),
    )
}

/// Views 32-bit words as bytes with `bytemuck::cast_slice`, and copies them.
/// `cast_slice` hands back the memory of its argument under another type: as
/// many bytes as the words take, which hold each word in the byte order of
/// the machine. That order is one of two, and the contract says no more than
/// that. A cast to bytes asks for no alignment and leaves no remainder, so
/// this one cannot fail.
#[verifier::external_body]
pub(crate) fn cast_words(words: &Vec<u32>) -> (bytes: Vec<u8>)
    ensures
        is_memory_of_words(bytes@, words@),
{
    bytemuck::cast_slice::<u32, u8>(words.as_slice()).to_vec()
}

/// Views 16-bit numbers as bytes with `bytemuck::cast_slice`, and copies
/// them: two bytes for each number, in the byte order of the machine, as for
/// the words above.
#[verifier::external_body]
pub(crate) fn cast_halves(halves: &Vec<u16>) -> (bytes: Vec<u8>)
    ensures
        is_memory_of_halves(bytes@, halves@),
{
    bytemuck::cast_slice::<u16, u8>(halves.as_slice()).to_vec()
}

/// Words in memory take four bytes each, in either byte order.
pub proof fn lemma_memory_of_words_len(bytes: Seq<u8>, words: Seq<u32>)
    requires
        is_memory_of_words(bytes, words),
    ensures
        bytes.len() == 4 * words.len(),
{
}

/// 16-bit numbers in memory take two bytes each, in either byte order.
pub proof fn lemma_memory_of_halves_len(bytes: Seq<u8>, halves: Seq<u16>)
    requires
        is_memory_of_halves(bytes, halves),
    ensures
        bytes.len() == 2 * halves.len(),
{
}

/// Lays the vertices out as words: six for each vertex, in memory order.
pub fn vertex_words(vertices: &Vec<Vertex>) -> (words: Vec<u32>)
    ensures
        words@ == words_of(vertices@),
        words@.len() == VERTEX_WORDS * vertices@.len(),
{
    let mut words: Vec<u32> = Vec::new();
    let mut i: usize = 0;
    while i < vertices.len()
        invariant
            0 <= i <= vertices.len(),
            words@.len() == VERTEX_WORDS * i,
            forall|k: int|
                0 <= k < words@.len() ==> words@[k] == vertices@[k / (VERTEX_WORDS as int)].word(
                    k % (VERTEX_WORDS as int),
                ),
        decreases vertices.len() - i,
    {
        let next = vertices[i].words();
        let ghost before = words@;
        let mut k: usize = 0;
        while k < VERTEX_WORDS
            invariant
                0 <= k <= VERTEX_WORDS,
                0 <= i < vertices.len(),
                before.len() == VERTEX_WORDS * i,
                words@.len() == before.len() + k,
                forall|j: int| 0 <= j < before.len() ==> words@[j] == before[j],
                forall|j: int|
                    0 <= j < k ==> words@[before.len() + j] == vertices@[i as int].word(j),
                forall|j: int| 0 <= j < VERTEX_WORDS ==> next[j] == vertices@[i as int].word(j),
            decreases VERTEX_WORDS - k,
        {
            words.push(next[k]);
            k = k + 1;
        }
        assert forall|j: int| 0 <= j < words@.len() implies words@[j] == vertices@[j / (
        VERTEX_WORDS as int)].word(j % (VERTEX_WORDS as int)) by {
            if j >= before.len() {
                let r = j - before.len();
                assert(j == VERTEX_WORDS * i + r && 0 <= r < VERTEX_WORDS);
                assert(j / (VERTEX_WORDS as int) == i && j % (VERTEX_WORDS as int) == r);
                assert(words@[before.len() + r] == vertices@[i as int].word(r));
            } else {
                assert(words@[j] == before[j]);
            }
        }
        i = i + 1;
    }
    assert(words@ =~= words_of(vertices@));
    words
}

/// The contents of a vertex buffer: the vertices as they lie in memory, one
/// stride of bytes for each.
pub fn vertex_bytes(vertices: &Vec<Vertex>) -> (bytes: Vec<u8>)
    ensures
        is_memory_of_words(bytes@, words_of(vertices@)),
        bytes@.len() == VERTEX_STRIDE * vertices@.len(),
{
    let words = vertex_words(vertices);
    let bytes = cast_words(&words);
    proof {
        lemma_memory_of_words_len(bytes@, words@);
    }
    bytes
}

} // verus!
