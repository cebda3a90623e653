use vstd::prelude::*;
use crate::frame::VOLUME_SIZE;

verus! {

/// Number of bytes that a frame writes to the uniform buffer: one binary32
/// number, the frame counter.
pub const UNIFORM_SIZE: u64 = 4;

/// The extent of a three-dimensional texture, in texels.
#[derive(Clone, Copy, Debug, PartialEq, Eq, Structural)]
pub struct Extent {
    pub width: u32,
    pub height: u32,
    pub depth: u32,
}

/// The shader stage that sees a binding.
#[derive(Clone, Copy, Debug, PartialEq, Eq, Structural)]
pub enum Stage {
    Compute,
    Fragment,
}

/// What a shader may do with a storage texture.
#[derive(Clone, Copy, Debug, PartialEq, Eq, Structural)]
pub enum Access {
    WriteOnly,
    ReadOnly,
}

/// The resource behind a binding.
#[derive(Clone, Copy, Debug, PartialEq, Eq, Structural)]
pub enum Resource {
    /// The uniform buffer that holds the frame counter, bound whole; a shader
    /// may rely on `min_binding_size` bytes of it.
    FrameCounter { min_binding_size: u64 },
    /// The volume texture, bound as a storage texture.
    Volume { access: Access },
}

/// One slot of a bind group: its number, the stage that sees it, and the
/// resource bound there.
#[derive(Clone, Copy, Debug, PartialEq, Eq, Structural)]
pub struct Binding {
    pub binding: u32,
    pub visibility: Stage,
    pub resource: Resource,
}

/// The extent of the volume texture: a cube of side `VOLUME_SIZE`.
pub open spec fn spec_volume_extent() -> Extent {
    Extent { width: VOLUME_SIZE, height: VOLUME_SIZE, depth: VOLUME_SIZE }
}

#[verifier::when_used_as_spec(spec_volume_extent)]
pub fn volume_extent() -> (extent: Extent)
    ensures
        extent == spec_volume_extent(),
{
    Extent { width: VOLUME_SIZE, height: VOLUME_SIZE, depth: VOLUME_SIZE }
}

/// The bind group of the compute pass: the volume, to be written.
pub open spec fn compute_group() -> Seq<Binding> {
    seq![
        Binding {
            binding: 0,
            visibility: Stage::Compute,
            resource: Resource::Volume { access: Access::WriteOnly },
        },
    ]
}

/// The bind group of the render pass: the frame counter, then the volume, to
/// be read.
pub open spec fn render_group() -> Seq<Binding> {
    seq![
        Binding {
            binding: 0,
            visibility: Stage::Fragment,
            resource: Resource::FrameCounter { min_binding_size: UNIFORM_SIZE },
        },
        Binding {
            binding: 1,
            visibility: Stage::Fragment,
            resource: Resource::Volume { access: Access::ReadOnly },
        },
    ]
}

/// The slots of a bind group are numbered from zero in order.
pub open spec fn numbered_in_order(bindings: Seq<Binding>) -> bool {
    forall|i: int| 0 <= i < bindings.len() ==> (#[trigger] bindings[i]).binding == i
}

/// Every binding of the volume in `bindings` is seen by `stage` with `access`
/// and by no other stage or access.
pub open spec fn volume_bound_only(bindings: Seq<Binding>, stage: Stage, access: Access) -> bool {
    forall|i: int|
        0 <= i < bindings.len() ==> match (#[trigger] bindings[i]).resource {
            Resource::Volume { access: bound } => bound == access && bindings[i].visibility
                == stage,
            Resource::FrameCounter { .. } => true,
        }
}

/// Builds the bind group of the compute pass.
pub fn compute_bindings() -> (bindings: Vec<Binding>)
    ensures
        bindings@ == compute_group(),
        numbered_in_order(bindings@),
        volume_bound_only(bindings@, Stage::Compute, Access::WriteOnly),
{
    let bindings = vec![
        Binding {
            binding: 0,
            visibility: Stage::Compute,
            resource: Resource::Volume { access: Access::WriteOnly },
        },
    ];
    assert(bindings@ =~= compute_group());
    bindings
}

/// Builds the bind group of the render pass.
pub fn render_bindings() -> (bindings: Vec<Binding>)
    ensures
        bindings@ == render_group(),
        numbered_in_order(bindings@),
        volume_bound_only(bindings@, Stage::Fragment, Access::ReadOnly),
{
    let bindings = vec![
        Binding {
            binding: 0,
            visibility: Stage::Fragment,
            resource: Resource::FrameCounter { min_binding_size: UNIFORM_SIZE },
        },
        Binding {
            binding: 1,
            visibility: Stage::Fragment,
            resource: Resource::Volume { access: Access::ReadOnly },
        },
    ];
    assert(bindings@ =~= render_group());
    bindings
}

} // verus!
