use vstd::prelude::*;
use crate::bytes::{
    cast_halves, cast_words, is_memory_of_halves, is_memory_of_words, lemma_memory_of_halves_len,
    lemma_memory_of_words_len, vertex_bytes, words_of,
};
use crate::frame::{quad_draw, QUAD_INDEX_COUNT};
use crate::geometry::{create_plane, plane_indices, plane_vertices, ONE, ZERO};
use crate::layout::{tightly_packed, vertex_attributes, vertex_layout, VertexLayout};
use crate::pipeline::{
    compute_bindings, compute_group, render_bindings, render_group, volume_extent, Binding, Extent,
    UNIFORM_SIZE,
};
use crate::surface::{Size, SurfaceConfig};
use crate::vertex::VERTEX_STRIDE;

verus! {

/// Number of bytes of one index in an index buffer.
pub const INDEX_SIZE: u64 = 2;

/// Everything that initialization allocates, as plain values: the surface
/// configuration, the contents of the quad's buffers and how to read them,
/// the first contents of the uniform buffer, the volume's extent, and the
/// bindings of the two passes.
#[derive(Debug)]
pub struct Resources {
    pub config: SurfaceConfig,
    pub vertex_data: Vec<u8>,
    pub index_data: Vec<u8>,
    pub vertex_layout: VertexLayout,
    pub uniform_data: Vec<u8>,
    pub volume: Extent,
    pub compute_bindings: Vec<Binding>,
    pub render_bindings: Vec<Binding>,
}

impl Resources {
    /// The buffers hold the full-screen quad, of half-size 1, as it lies in
    /// memory, and the layout reads the vertex buffer as its vertices.
    pub open spec fn holds_quad(self) -> bool {
        &&& is_memory_of_words(self.vertex_data@, words_of(plane_vertices(ONE)))
        &&& is_memory_of_halves(self.index_data@, plane_indices())
        &&& self.vertex_layout.array_stride == VERTEX_STRIDE
        &&& self.vertex_layout.attributes@ == vertex_attributes()
        &&& tightly_packed(self.vertex_layout.attributes@, self.vertex_layout.array_stride)
    }

    /// The draw of every frame reads only indices that the index buffer
    /// holds, and these name only vertices that the vertex buffer holds.
    pub open spec fn holds_what_is_drawn(self) -> bool {
        &&& self.index_data@.len() == INDEX_SIZE * QUAD_INDEX_COUNT
        &&& 0 == quad_draw().first_index <= quad_draw().end_index == plane_indices().len()
        &&& quad_draw().end_index * INDEX_SIZE <= self.index_data@.len()
        &&& forall|i: int|
            quad_draw().first_index <= i < quad_draw().end_index ==> (#[trigger] plane_indices()[i]
                + quad_draw().base_vertex + 1) * self.vertex_layout.array_stride
                <= self.vertex_data@.len()
    }

    /// The uniform buffer starts as one binary32 number, 0.0: no frame has
    /// begun.
    pub open spec fn holds_frame_zero(self) -> bool {
        &&& is_memory_of_words(self.uniform_data@, seq![ZERO])
        &&& self.uniform_data@.len() == UNIFORM_SIZE
    }

    /// The resources are those of a renderer whose window has size `size`.
    pub open spec fn planned_for(self, size: Size) -> bool {
        &&& self.config == SurfaceConfig::for_size(size)
        &&& self.holds_frame_zero()
        &&& self.volume == volume_extent()
        &&& self.compute_bindings@ == compute_group()
        &&& self.render_bindings@ == render_group()
        &&& self.holds_quad()
        &&& self.holds_what_is_drawn()
    }

    /// Plans the resources of a renderer whose window has size `size`.
    pub fn plan(size: Size) -> (resources: Resources)
        ensures
            resources.planned_for(size),
            resources.vertex_data@.len() == 4 * VERTEX_STRIDE,
            resources.index_data@.len() == QUAD_INDEX_COUNT * INDEX_SIZE,
    {
        let (vertices, indices) = create_plane(ONE);
        let vertex_data = vertex_bytes(&vertices);
        let index_data = cast_halves(&indices);
        let application_data: Vec<u32> = vec![ZERO];
        let uniform_data = cast_words(&application_data);
        proof {
            lemma_memory_of_halves_len(index_data@, indices@);
            lemma_memory_of_words_len(uniform_data@, application_data@);
            assert(application_data@ =~= seq![ZERO]);
        }
        Resources {
            config: SurfaceConfig::for_size(size),
            vertex_data,
            index_data,
            vertex_layout: vertex_layout(),
            uniform_data,
            volume: volume_extent(),
            compute_bindings: compute_bindings(),
            render_bindings: render_bindings(),
        }
    }
}

} // verus!
