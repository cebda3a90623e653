use vstd::prelude::*;

verus! {

/// Side of the cubic volume texture, in texels.
pub const VOLUME_SIZE: u32 = 800;

/// Side of one compute workgroup, in invocations.
pub const WORKGROUP_SIZE: u32 = 4;

/// Number of indices that one indexed draw of the quad reads.
pub const QUAD_INDEX_COUNT: u32 = 6;

/// A grid of compute workgroups.
#[derive(Clone, Copy, Debug, PartialEq, Eq, Structural)]
pub struct Workgroups {
    pub x: u32,
    pub y: u32,
    pub z: u32,
}

/// One indexed draw: the half-open range of indices, the value added to each
/// index, and the half-open range of instances.
#[derive(Clone, Copy, Debug, PartialEq, Eq, Structural)]
pub struct DrawIndexed {
    pub first_index: u32,
    pub end_index: u32,
    pub base_vertex: i32,
    pub first_instance: u32,
    pub end_instance: u32,
}

impl DrawIndexed {
    /// The length of the range of indices, negative where it is inverted.
    pub open spec fn spec_index_count(self) -> int {
        self.end_index - self.first_index
    }

    /// The length of the range of instances, negative where it is inverted.
    pub open spec fn spec_instance_count(self) -> int {
        self.end_instance - self.first_instance
    }

    /// How many indices the draw reads; an inverted range reads none.
    pub fn index_count(&self) -> (count: u32)
        ensures
            count == if self.spec_index_count() > 0 { self.spec_index_count() } else { 0 },
    {
        if self.end_index > self.first_index {
            self.end_index - self.first_index
        } else {
            0
        }
    }

    /// How many instances the draw covers; an inverted range covers none.
    pub fn instance_count(&self) -> (count: u32)
        ensures
            count == if self.spec_instance_count() > 0 { self.spec_instance_count() } else { 0 },
    {
        if self.end_instance > self.first_instance {
            self.end_instance - self.first_instance
        } else {
            0
        }
    }
}

/// A colour with its opacity. Each channel holds the IEEE 754 binary64 bit
/// pattern of a number from 0.0 to 1.0.
#[derive(Clone, Copy, Debug, PartialEq, Eq, Structural)]
pub struct Color {
    pub r: u64,
    pub g: u64,
    pub b: u64,
    pub a: u64,
}

/// The binary64 bit pattern of 1.0.
pub const CHANNEL_FULL: u64 = 0x3FF0_0000_0000_0000;

/// What one frame does, in this order: it writes the frame counter to the
/// uniform buffer, dispatches the compute pass over the volume once, clears
/// the colour target, and draws the quad with one indexed draw.
#[derive(Clone, Copy, Debug, PartialEq, Eq, Structural)]
pub struct FramePlan {
    /// The frame counter after this frame began.
    pub frame: u32,
    pub dispatch: Workgroups,
    pub clear: Color,
    pub draw: DrawIndexed,
}

/// The workgroups along one axis for a volume of side `extent`.
pub open spec fn spec_workgroup_count(extent: u32) -> u32 {
    extent / WORKGROUP_SIZE
}

/// The workgroups along one axis for a volume of side `extent`: as many as
/// fit. They cover the whole side where it is a multiple of the workgroup's
/// side, and leave a rest of less than one workgroup where it is not.
#[verifier::when_used_as_spec(spec_workgroup_count)]
pub fn workgroup_count(extent: u32) -> (count: u32)
    ensures
        count == spec_workgroup_count(extent),
        count * WORKGROUP_SIZE <= extent < (count + 1) * WORKGROUP_SIZE,
        extent % WORKGROUP_SIZE == 0 ==> count * WORKGROUP_SIZE == extent,
{
    extent / WORKGROUP_SIZE
}

/// The dispatch that every frame records: along each axis as many workgroups
/// as the volume holds.
pub open spec fn volume_dispatch() -> Workgroups {
    Workgroups {
        x: spec_workgroup_count(VOLUME_SIZE),
        y: spec_workgroup_count(VOLUME_SIZE),
        z: spec_workgroup_count(VOLUME_SIZE),
    }
}

/// The draw that every frame records: all indices of the quad, one instance.
pub open spec fn quad_draw() -> DrawIndexed {
    DrawIndexed {
        first_index: 0,
        end_index: QUAD_INDEX_COUNT,
        base_vertex: 0,
        first_instance: 0,
        end_instance: 1,
    }
}

/// Black, fully opaque: the colour that every frame clears its target to.
pub open spec fn opaque_black() -> Color {
    Color { r: 0, g: 0, b: 0, a: CHANNEL_FULL }
}

/// The plan of the frame whose counter value is `frame`.
pub open spec fn spec_frame_plan(frame: u32) -> FramePlan {
    FramePlan { frame, dispatch: volume_dispatch(), clear: opaque_black(), draw: quad_draw() }
}

/// Plans the frame whose counter value is `frame`.
#[verifier::when_used_as_spec(spec_frame_plan)]
pub fn frame_plan(frame: u32) -> (plan: FramePlan)
    ensures
        plan == spec_frame_plan(frame),
{
    let count: u32 = workgroup_count(VOLUME_SIZE);
    FramePlan {
        frame,
        dispatch: Workgroups { x: count, y: count, z: count },
        clear: Color { r: 0, g: 0, b: 0, a: CHANNEL_FULL },
        draw: DrawIndexed {
            first_index: 0,
            end_index: QUAD_INDEX_COUNT,
            base_vertex: 0,
            first_instance: 0,
            end_instance: 1,
        },
    }
}

/// The dispatch covers the volume exactly: along each axis the workgroups
/// times their side give the volume's side, which is 200 groups of 4.
pub proof fn lemma_dispatch_covers_volume()
    ensures
        volume_dispatch().x * WORKGROUP_SIZE == VOLUME_SIZE,
        volume_dispatch().y * WORKGROUP_SIZE == VOLUME_SIZE,
        volume_dispatch().z * WORKGROUP_SIZE == VOLUME_SIZE,
        volume_dispatch() == (Workgroups { x: 200, y: 200, z: 200 }),
{
}

} // verus!
