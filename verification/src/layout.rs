use vstd::prelude::*;
use crate::vertex::{VERTEX_STRIDE, VERTEX_WORDS};

verus! {

/// The format of one vertex attribute: a vector of binary32 numbers.
#[derive(Clone, Copy, Debug, PartialEq, Eq, Structural)]
pub enum VertexFormat {
    /// Four numbers.
    Float32x4,
    /// Two numbers.
    Float32x2,
}

impl VertexFormat {
    /// How many 32-bit words a value of the format takes.
    pub open spec fn words(self) -> nat {
        match self {
            VertexFormat::Float32x4 => 4,
            VertexFormat::Float32x2 => 2,
        }
    }

    /// How many bytes a value of the format takes.
    pub open spec fn size(self) -> u64 {
        match self {
            VertexFormat::Float32x4 => 16,
            VertexFormat::Float32x2 => 8,
        }
    }
}

/// Asks `wgpu::VertexFormat::size` for the byte size of a format. That
/// function is a table over all formats; the contract gives its two rows for
/// the formats of this library: 16 bytes for `Float32x4`, 8 for `Float32x2`.
#[verifier::external_body]
fn format_size(format: VertexFormat) -> (size: u64)
    ensures
        size == format.size(),
{
    let format = match format {
        VertexFormat::Float32x4 => wgpu::VertexFormat::Float32x4,
        VertexFormat::Float32x2 => wgpu::VertexFormat::Float32x2,
    };
    format.size()
}

/// One input of the vertex stage: where in a vertex it starts, what it
/// holds, and which shader location reads it.
#[derive(Clone, Copy, Debug, PartialEq, Eq, Structural)]
pub struct VertexAttribute {
    pub format: VertexFormat,
    pub offset: u64,
    pub shader_location: u32,
}

impl VertexAttribute {
    /// The attribute takes exactly the `count` words of a vertex that start
    /// at word `first`.
    pub open spec fn covers_words(self, first: nat, count: nat) -> bool {
        self.offset == 4 * first && self.format.size() == 4 * count && self.format.words() == count
    }

    /// The byte after the attribute's last.
    pub open spec fn end(self) -> int {
        self.offset + self.format.size()
    }
}

/// How the vertex stage reads a vertex buffer: the stride from vertex to
/// vertex and the attributes of each vertex.
#[derive(Debug)]
pub struct VertexLayout {
    pub array_stride: u64,
    pub attributes: Vec<VertexAttribute>,
}

/// The attributes of a vertex: the position at location 0, then the texture
/// coordinate at location 1, each starting where the one before ends.
pub open spec fn vertex_attributes() -> Seq<VertexAttribute> {
    seq![
        VertexAttribute { format: VertexFormat::Float32x4, offset: 0, shader_location: 0 },
        VertexAttribute { format: VertexFormat::Float32x2, offset: 16, shader_location: 1 },
    ]
}

/// The attributes lie one after the other from byte 0 and end at `stride`.
pub open spec fn tightly_packed(attributes: Seq<VertexAttribute>, stride: u64) -> bool {
    &&& attributes.len() > 0
    &&& attributes[0].offset == 0
    &&& forall|i: int|
        0 < i < attributes.len() ==> (#[trigger] attributes[i]).offset == attributes[i - 1].end()
    &&& attributes[attributes.len() - 1].end() == stride
}

/// The layout of a buffer of vertices. The position attribute takes the four
/// position words of a vertex and the texture attribute its two last words,
/// so the attributes fill a vertex without gap or overlap.
pub fn vertex_layout() -> (layout: VertexLayout)
    ensures
        layout.array_stride == VERTEX_STRIDE,
        layout.array_stride == 4 * VERTEX_WORDS,
        layout.attributes@ == vertex_attributes(),
        tightly_packed(layout.attributes@, layout.array_stride),
        layout.attributes@[0].covers_words(0, 4),
        layout.attributes@[1].covers_words(4, 2),
{
    let position = VertexAttribute {
        format: VertexFormat::Float32x4,
        offset: 0,
        shader_location: 0,
    };
    let uv = VertexAttribute {
        format: VertexFormat::Float32x2,
        offset: position.offset + format_size(position.format),
        shader_location: 1,
    };
    let array_stride: u64 = uv.offset + format_size(uv.format);
    let attributes = vec![position, uv];
    assert(attributes@ =~= vertex_attributes());
    VertexLayout { array_stride, attributes }
}

} // verus!
