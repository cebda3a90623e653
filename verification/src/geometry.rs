use vstd::prelude::*;
use crate::vertex::{vertex_at, Vertex};

verus! {

/// The binary32 bit pattern of 0.0.
pub const ZERO: u32 = 0;

/// The binary32 bit pattern of 1.0.
pub const ONE: u32 = 0x3F80_0000;

/// The sign bit of a binary32 bit pattern.
pub const SIGN_BIT: u32 = 0x8000_0000;

/// The bit pattern of the greatest binary32 number, positive infinity.
pub const INFINITY: u32 = 0x7F80_0000;

/// Whether `bits` stands for a number greater than zero.
pub open spec fn is_positive(bits: u32) -> bool {
    0 < bits <= INFINITY
}

/// Whether `bits` stands for a number less than zero.
pub open spec fn is_negative(bits: u32) -> bool {
    SIGN_BIT < bits <= SIGN_BIT + INFINITY
}

/// The bit pattern of the negated number: the same bits with the sign bit
/// turned over.
pub open spec fn spec_negated(bits: u32) -> u32 {
    if bits >= SIGN_BIT {
        (bits - SIGN_BIT) as u32
    } else {
        (bits + SIGN_BIT) as u32
    }
}

#[verifier::when_used_as_spec(spec_negated)]
pub fn negated(bits: u32) -> (negation: u32)
    ensures
        negation == spec_negated(bits),
{
    let negation: u32 = bits ^ SIGN_BIT;
    assert(bits ^ 0x8000_0000u32 == if bits >= 0x8000_0000u32 {
        (bits - 0x8000_0000u32) as u32
    } else {
        (bits + 0x8000_0000u32) as u32
    }) by (bit_vector);
    negation
}

/// Negation never gives the same bits back, undoes itself, and turns a
/// positive number into a negative one.
pub proof fn lemma_negated(bits: u32)
    ensures
        negated(bits) != bits,
        negated(negated(bits)) == bits,
        is_positive(bits) ==> is_negative(negated(bits)),
        is_negative(bits) ==> is_positive(negated(bits)),
{
}

/// The four corners of the square of half-size `size` in the XY plane, each
/// with its texture coordinate.
pub open spec fn plane_vertices(size: u32) -> Seq<Vertex> {
    seq![
        vertex_at(size, negated(size), ZERO, ONE, ONE, ONE),
        vertex_at(size, size, ZERO, ONE, ONE, ZERO),
        vertex_at(negated(size), negated(size), ZERO, ONE, ZERO, ONE),
        vertex_at(negated(size), size, ZERO, ONE, ZERO, ZERO),
    ]
}

/// The two triangles that cover the square, as indices into its corners.
pub open spec fn plane_indices() -> Seq<u16> {
    seq![0, 1, 2, 2, 1, 3]
}

/// Whether `bits` is `size` or its negation.
pub open spec fn is_side(bits: u32, size: u32) -> bool {
    bits == size || bits == negated(size)
}

/// Whether `bits` stands for 0.0 or 1.0.
pub open spec fn is_unit(bits: u32) -> bool {
    bits == ZERO || bits == ONE
}

/// Every index names one of `count` vertices.
pub open spec fn indices_in_range(indices: Seq<u16>, count: nat) -> bool {
    forall|i: int| 0 <= i < indices.len() ==> indices[i] < count
}

/// The vertices are the corners `(±size, ±size, 0, 1)` of a square, each
/// corner taken by exactly one of them.
pub open spec fn forms_square(vertices: Seq<Vertex>, size: u32) -> bool {
    &&& vertices.len() == 4
    &&& forall|i: int|
        0 <= i < vertices.len() ==> {
            &&& is_side(#[trigger] vertices[i].position[0], size)
            &&& is_side(vertices[i].position[1], size)
            &&& vertices[i].position[2] == ZERO
            &&& vertices[i].position[3] == ONE
        }
    &&& forall|i: int, j: int|
        0 <= i < j < vertices.len() ==> {
            ||| #[trigger] vertices[i].position[0] != #[trigger] vertices[j].position[0]
            ||| vertices[i].position[1] != vertices[j].position[1]
        }
    &&& forall|x: u32, y: u32|
        #[trigger] is_side(x, size) && #[trigger] is_side(y, size) ==> exists|i: int|
            0 <= i < vertices.len() && #[trigger] vertices[i].position[0] == x
                && vertices[i].position[1] == y
}

/// The texture coordinates of the vertices are `{0, 1} x {0, 1}`, each pair
/// taken by exactly one of them.
pub open spec fn uv_covers_unit_square(vertices: Seq<Vertex>) -> bool {
    &&& forall|i: int|
        0 <= i < vertices.len() ==> {
            &&& is_unit(#[trigger] vertices[i].uv[0])
            &&& is_unit(vertices[i].uv[1])
        }
    &&& forall|i: int, j: int|
        0 <= i < j < vertices.len() ==> {
            ||| #[trigger] vertices[i].uv[0] != #[trigger] vertices[j].uv[0]
            ||| vertices[i].uv[1] != vertices[j].uv[1]
        }
    &&& forall|u: u32, v: u32|
        #[trigger] is_unit(u) && #[trigger] is_unit(v) ==> exists|i: int|
            0 <= i < vertices.len() && #[trigger] vertices[i].uv[0] == u && vertices[i].uv[1] == v
}

/// The texture coordinate follows the corner: `u` is 1 on the side `x = size`
/// and 0 on the other, `v` is 1 on the side `y = -size` and 0 on the other.
pub open spec fn uv_follows_corner(vertices: Seq<Vertex>, size: u32) -> bool {
    forall|i: int|
        0 <= i < vertices.len() ==> {
            &&& #[trigger] vertices[i].uv[0] == if vertices[i].position[0] == size {
                ONE
            } else {
                ZERO
            }
            &&& vertices[i].uv[1] == if vertices[i].position[1] == negated(size) {
                ONE
            } else {
                ZERO
            }
        }
}

/// For every half-size the plane has four vertices and six indices, every
/// index names a vertex, the vertices are the corners of the square, and the
/// texture coordinates map the corners one to one onto the unit square's.
/// Where the half-size is a positive number, the two sides of each axis are
/// a positive and a negative number, so that the four corners are four
/// different points.
pub proof fn lemma_plane_is_textured_square(size: u32)
    ensures
        plane_vertices(size).len() == 4,
        plane_indices().len() == 6,
        indices_in_range(plane_indices(), plane_vertices(size).len()),
        forms_square(plane_vertices(size), size),
        uv_covers_unit_square(plane_vertices(size)),
        uv_follows_corner(plane_vertices(size), size),
        is_positive(size) ==> is_negative(negated(size)),
{
    let vertices = plane_vertices(size);
    lemma_negated(size);
    assert forall|x: u32, y: u32| #[trigger]
        is_side(x, size) && #[trigger] is_side(y, size) implies exists|i: int|
        0 <= i < vertices.len() && #[trigger] vertices[i].position[0] == x
            && vertices[i].position[1] == y by {
        let i: int = if x == size {
            if y == size {
                1
            } else {
                0
            }
        } else {
            if y == size {
                3
            } else {
                2
            }
        };
        assert(vertices[i].position[0] == x && vertices[i].position[1] == y);
    }
    assert forall|u: u32, v: u32| #[trigger] is_unit(u) && #[trigger] is_unit(v) implies exists|
        i: int,
    |
        0 <= i < vertices.len() && #[trigger] vertices[i].uv[0] == u && vertices[i].uv[1] == v by {
        let i: int = if u == ONE {
            if v == ONE {
                0
            } else {
                1
            }
        } else {
            if v == ONE {
                2
            } else {
                3
            }
        };
        assert(vertices[i].uv[0] == u && vertices[i].uv[1] == v);
    }
}

/// Builds the quad of half-size `size`, given as a binary32 bit pattern: its
/// four vertices and the six indices of its two triangles.
pub fn create_plane(size: u32) -> (plane: (Vec<Vertex>, Vec<u16>))
    ensures
        plane.0@ == plane_vertices(size),
        plane.1@ == plane_indices(),
        plane.0@.len() == 4,
        plane.1@.len() == 6,
        indices_in_range(plane.1@, plane.0@.len()),
        forms_square(plane.0@, size),
        uv_covers_unit_square(plane.0@),
        uv_follows_corner(plane.0@, size),
{
    let minus: u32 = negated(size);
    let vertex_data = vec![
        Vertex::new([size, minus, ZERO, ONE], [ONE, ONE]),
        Vertex::new([size, size, ZERO, ONE], [ONE, ZERO]),
        Vertex::new([minus, minus, ZERO, ONE], [ZERO, ONE]),
        Vertex::new([minus, size, ZERO, ONE], [ZERO, ZERO]),
    ];
    let index_data: Vec<u16> = vec![0, 1, 2, 2, 1, 3];
    proof {
        lemma_plane_is_textured_square(size);
        assert(vertex_data@ =~= plane_vertices(size));
        assert(index_data@ =~= plane_indices());
    }
    (vertex_data, index_data)
}

} // verus!
