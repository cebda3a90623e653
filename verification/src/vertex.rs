use vstd::prelude::*;

verus! {

/// One corner of a quad as the vertex stage reads it: a homogeneous position
/// followed by a texture coordinate. Each component holds the IEEE 754
/// binary32 bit pattern of the number it stands for, so a vertex is six
/// 32-bit words in memory, position first.
#[derive(Clone, Copy, Debug, PartialEq, Eq)]
pub struct Vertex {
    pub position: [u32; 4],
    pub uv: [u32; 2],
}

/// Number of 32-bit words in one vertex.
pub const VERTEX_WORDS: usize = 6;

/// Number of bytes from one vertex to the next in a vertex buffer.
pub const VERTEX_STRIDE: u64 = 24;

impl Vertex {
    pub fn new(position: [u32; 4], uv: [u32; 2]) -> (vertex: Vertex)
        ensures
            vertex.position == position,
            vertex.uv == uv,
    {
        Vertex { position, uv }
    }

    /// The word at place `k` of the vertex in memory order: the four position
    /// components, then the two texture coordinates.
    pub open spec fn word(self, k: int) -> u32
        recommends
            0 <= k < VERTEX_WORDS,
    {
        if k < 4 {
            self.position[k]
        } else {
            self.uv[k - 4]
        }
    }

    /// The six words of the vertex in memory order.
    pub fn words(&self) -> (words: [u32; 6])
        ensures
            forall|k: int| 0 <= k < VERTEX_WORDS ==> words[k] == self.word(k),
    {
        [
            self.position[0],
            self.position[1],
            self.position[2],
            self.position[3],
            self.uv[0],
            self.uv[1],
        ]
    }
}

/// The vertex with position `(x, y, z, w)` and texture coordinate `(u, v)`.
pub open spec fn vertex_at(x: u32, y: u32, z: u32, w: u32, u: u32, v: u32) -> Vertex {
    Vertex { position: [x, y, z, w], uv: [u, v] }
}

} // verus!
