//! The per-frame command plan: what one frame submits to the GPU queue,
//! in the order that makes compute, derivation and presentation agree.
//!
//! Within a single queue submission, commands execute in order; the
//! orchestrator relies on that total order — not on explicit fences —
//! so the plan's contract is exactly the ordering discipline: write the
//! fresh parameters, dispatch the kernel over every particle, copy the
//! authoritative bytes into the derived buffer(s), render from them,
//! present.

use crate::layout::{DerivedLayout, DrawStrategy};
use crate::simulation::{workgroup_count, workgroup_count_spec};
use vstd::prelude::*;

verus! {

/// Number of corner vertices of the instanced quad geometry.
pub const QUAD_VERTEX_COUNT: u32 = 4;

/// Number of indices of the instanced quad geometry: two triangles.
pub const QUAD_INDEX_COUNT: u32 = 6;

/// A derived buffer a copy command writes into.
#[derive(Clone, Copy, Debug, PartialEq, Eq, Structural)]
pub enum TargetBuffer {
    Interleaved,
    Positions,
    Colors,
}

/// The draw call a frame's render pass issues.
#[derive(Clone, Copy, Debug, PartialEq, Eq, Structural)]
pub enum DrawCall {
    /// One vertex per particle, point-list topology.
    PointList { vertex_count: u32 },
    /// The fixed quad drawn once per particle, indices stepped per
    /// vertex, position and color stepped per instance.
    IndexedQuads { index_count: u32, instance_count: u32 },
}

/// One command of a frame's submission, in host terms: the application
/// translates each to the graphics backend verbatim.
#[derive(Clone, Copy, Debug, PartialEq, Eq, Structural)]
pub enum Command {
    /// Write the fresh uniform simulation parameters.
    WriteParams { delta_ticks: u64, speed_bits: u32, boundary_force_bits: u32 },
    /// Dispatch the simulation kernel over the whole particle buffer.
    DispatchCompute { workgroups: u32 },
    /// Copy one byte range of the authoritative buffer into a derived
    /// buffer.
    CopyToDerived { src_offset: u64, target: TargetBuffer, dst_offset: u64, size: u64 },
    /// Begin the render pass: clear the framebuffer to the fixed
    /// background color, then issue the draw call.
    BeginRenderPass { draw: DrawCall },
    /// Present the acquired framebuffer.
    Present,
}

/// The draw call that the chosen strategy issues for `n` particles.
pub open spec fn draw_call_spec(strategy: DrawStrategy, n: u32) -> DrawCall {
    match strategy {
        DrawStrategy::PointList => DrawCall::PointList { vertex_count: n },
        DrawStrategy::InstancedQuad => DrawCall::IndexedQuads {
            index_count: QUAD_INDEX_COUNT,
            instance_count: n,
        },
    }
}

/// Copy command `i` of a frame: commands come in pairs per record, the
/// position bytes first, then the color bytes, at the offsets of the
/// chosen layout.
pub open spec fn copy_command(layout: DerivedLayout, i: int) -> Command {
    let rec = i / 2;
    if i % 2 == 0 {
        match layout {
            DerivedLayout::Interleaved => Command::CopyToDerived {
                src_offset: (32 * rec) as u64,
                target: TargetBuffer::Interleaved,
                dst_offset: (24 * rec) as u64,
                size: 8,
            },
            DerivedLayout::Split => Command::CopyToDerived {
                src_offset: (32 * rec) as u64,
                target: TargetBuffer::Positions,
                dst_offset: (8 * rec) as u64,
                size: 8,
            },
        }
    } else {
        match layout {
            DerivedLayout::Interleaved => Command::CopyToDerived {
                src_offset: (32 * rec + 16) as u64,
                target: TargetBuffer::Interleaved,
                dst_offset: (24 * rec + 8) as u64,
                size: 16,
            },
            DerivedLayout::Split => Command::CopyToDerived {
                src_offset: (32 * rec + 16) as u64,
                target: TargetBuffer::Colors,
                dst_offset: (16 * rec) as u64,
                size: 16,
            },
        }
    }
}

/// The derivation step of one frame: two copies per record.
pub open spec fn copy_commands(layout: DerivedLayout, n: int) -> Seq<Command> {
    Seq::new((2 * n) as nat, |i: int| copy_command(layout, i))
}

/// The whole command sequence of one rendered frame.
pub open spec fn plan_spec(
    n: u32,
    layout: DerivedLayout,
    strategy: DrawStrategy,
    delta_ticks: u64,
    speed_bits: u32,
    boundary_force_bits: u32,
) -> Seq<Command> {
    seq![
        Command::WriteParams { delta_ticks, speed_bits, boundary_force_bits },
        Command::DispatchCompute { workgroups: workgroup_count_spec(n) },
    ] + copy_commands(layout, n as int) + seq![
        Command::BeginRenderPass { draw: draw_call_spec(strategy, n) },
        Command::Present,
    ]
}

/// The phase of a command within a frame: parameters are written before
/// the dispatch, the dispatch runs before every copy, every copy before
/// the render pass, and the render pass before the present.
pub open spec fn phase(c: Command) -> int {
    match c {
        Command::WriteParams { .. } => 0,
        Command::DispatchCompute { .. } => 1,
        Command::CopyToDerived { .. } => 2,
        Command::BeginRenderPass { .. } => 3,
        Command::Present => 4,
    }
}

/// A command sequence respects the frame ordering discipline when its
/// phases never step backwards.
pub open spec fn frame_order_ok(cmds: Seq<Command>) -> bool {
    forall|i: int, j: int|
        0 <= i <= j < cmds.len() ==> #[trigger] phase(cmds[i]) <= #[trigger] phase(cmds[j])
}

/// The phase of each position of a frame plan.
proof fn lemma_plan_phase_at(
    n: u32,
    layout: DerivedLayout,
    strategy: DrawStrategy,
    delta_ticks: u64,
    speed_bits: u32,
    boundary_force_bits: u32,
    i: int,
)
    requires
        0 <= i < plan_spec(n, layout, strategy, delta_ticks, speed_bits, boundary_force_bits).len(),
    ensures
        phase(plan_spec(n, layout, strategy, delta_ticks, speed_bits, boundary_force_bits)[i]) == (
        if i == 0 {
            0int
        } else if i == 1 {
            1int
        } else if i < 2 + 2 * (n as int) {
            2int
        } else if i == 2 + 2 * (n as int) {
            3int
        } else {
            4int
        }),
{
    let p = plan_spec(n, layout, strategy, delta_ticks, speed_bits, boundary_force_bits);
    if 2 <= i < 2 + 2 * (n as int) {
        assert(p[i] == copy_command(layout, i - 2));
    }
}

/// Every frame plan respects the ordering discipline that makes the
/// kernel's writes visible to the copies, and the copies' writes
/// visible to the render pass, within one submission.
pub proof fn lemma_plan_ordered(
    n: u32,
    layout: DerivedLayout,
    strategy: DrawStrategy,
    delta_ticks: u64,
    speed_bits: u32,
    boundary_force_bits: u32,
)
    ensures
        frame_order_ok(plan_spec(n, layout, strategy, delta_ticks, speed_bits, boundary_force_bits)),
{
    let p = plan_spec(n, layout, strategy, delta_ticks, speed_bits, boundary_force_bits);
    assert forall|i: int, j: int| 0 <= i <= j < p.len() implies #[trigger] phase(p[i])
        <= #[trigger] phase(p[j]) by {
        lemma_plan_phase_at(n, layout, strategy, delta_ticks, speed_bits, boundary_force_bits, i);
        lemma_plan_phase_at(n, layout, strategy, delta_ticks, speed_bits, boundary_force_bits, j);
    }
}

/// Builds the command sequence of one rendered frame.
pub fn build_plan(
    n: u32,
    layout: DerivedLayout,
    strategy: DrawStrategy,
    delta_ticks: u64,
    speed_bits: u32,
    boundary_force_bits: u32,
) -> (cmds: Vec<Command>)
    ensures
        cmds@ == plan_spec(n, layout, strategy, delta_ticks, speed_bits, boundary_force_bits),
{
    let mut cmds: Vec<Command> = Vec::new();
    cmds.push(Command::WriteParams { delta_ticks, speed_bits, boundary_force_bits });
    let groups = workgroup_count(n);
    cmds.push(Command::DispatchCompute { workgroups: groups });
    for rec in 0..n
        invariant
            cmds@.len() == 2 + 2 * rec,
            cmds@[0] == (Command::WriteParams { delta_ticks, speed_bits, boundary_force_bits }),
            cmds@[1] == (Command::DispatchCompute { workgroups: workgroup_count_spec(n) }),
            forall|k: int|
                2 <= k < cmds@.len() ==> #[trigger] cmds@[k] == copy_command(layout, k - 2),
    {
        proof {
            assert((2 * rec) % 2 == 0 && (2 * rec) / 2 == rec && (2 * rec + 1) % 2 == 1 && (2 * rec
                + 1) / 2 == rec) by (nonlinear_arith)
                requires
                    rec >= 0,
            ;
        }
        match layout {
            DerivedLayout::Interleaved => {
                cmds.push(
                    Command::CopyToDerived {
                        src_offset: 32 * (rec as u64),
                        target: TargetBuffer::Interleaved,
                        dst_offset: 24 * (rec as u64),
                        size: 8,
                    },
                );
                cmds.push(
                    Command::CopyToDerived {
                        src_offset: 32 * (rec as u64) + 16,
                        target: TargetBuffer::Interleaved,
                        dst_offset: 24 * (rec as u64) + 8,
                        size: 16,
                    },
                );
            },
            DerivedLayout::Split => {
                cmds.push(
                    Command::CopyToDerived {
                        src_offset: 32 * (rec as u64),
                        target: TargetBuffer::Positions,
                        dst_offset: 8 * (rec as u64),
                        size: 8,
                    },
                );
                cmds.push(
                    Command::CopyToDerived {
                        src_offset: 32 * (rec as u64) + 16,
                        target: TargetBuffer::Colors,
                        dst_offset: 16 * (rec as u64),
                        size: 16,
                    },
                );
            },
        }
    }
    let draw = match strategy {
        DrawStrategy::PointList => DrawCall::PointList { vertex_count: n },
        DrawStrategy::InstancedQuad => DrawCall::IndexedQuads {
            index_count: QUAD_INDEX_COUNT,
            instance_count: n,
        },
    };
    cmds.push(Command::BeginRenderPass { draw });
    cmds.push(Command::Present);
    proof {
        assert(cmds@ =~= plan_spec(n, layout, strategy, delta_ticks, speed_bits,
        boundary_force_bits));
    }
    cmds
}

/// How a vertex buffer slot is stepped by the render kernel.
#[derive(Clone, Copy, Debug, PartialEq, Eq, Structural)]
pub enum StepMode {
    /// Advance once per vertex.
    PerVertex,
    /// Advance once per drawn instance.
    PerInstance,
}

/// One attribute a vertex buffer slot feeds to the render kernel.
#[derive(Clone, Copy, Debug, PartialEq, Eq, Structural)]
pub struct VertexAttribute {
    pub shader_location: u32,
    pub offset: u64,
    pub size: u64,
}

/// One vertex buffer slot of the render pipeline.
#[derive(Debug)]
pub struct VertexBufferSlot {
    pub stride: u64,
    pub step: StepMode,
    pub attributes: Vec<VertexAttribute>,
}

/// The point-list pipeline reads the interleaved buffer per vertex:
/// position then color, at the interleaved offsets.
pub open spec fn point_list_slots_ok(slots: Seq<VertexBufferSlot>) -> bool {
    &&& slots.len() == 1
    &&& slots[0].stride == 24
    &&& slots[0].step == StepMode::PerVertex
    &&& slots[0].attributes@ == seq![
        VertexAttribute { shader_location: 0, offset: 0, size: 8 },
        VertexAttribute { shader_location: 1, offset: 8, size: 16 },
    ]
}

/// The instanced-quad pipeline reads the quad corners per vertex and
/// the split position and color buffers per instance.
pub open spec fn instanced_quad_slots_ok(slots: Seq<VertexBufferSlot>) -> bool {
    &&& slots.len() == 3
    &&& slots[0].stride == 8
    &&& slots[0].step == StepMode::PerVertex
    &&& slots[0].attributes@ == seq![
        VertexAttribute { shader_location: 0, offset: 0, size: 8 },
    ]
    &&& slots[1].stride == 8
    &&& slots[1].step == StepMode::PerInstance
    &&& slots[1].attributes@ == seq![
        VertexAttribute { shader_location: 1, offset: 0, size: 8 },
    ]
    &&& slots[2].stride == 16
    &&& slots[2].step == StepMode::PerInstance
    &&& slots[2].attributes@ == seq![
        VertexAttribute { shader_location: 2, offset: 0, size: 16 },
    ]
}

/// The vertex buffer slots the chosen strategy's render pipeline is
/// built with: the strides of the derived layout it agrees with, and
/// per-instance stepping exactly for the split attribute streams.
pub fn vertex_buffer_slots(strategy: DrawStrategy) -> (slots: Vec<VertexBufferSlot>)
    ensures
        strategy is PointList ==> point_list_slots_ok(slots@),
        strategy is InstancedQuad ==> instanced_quad_slots_ok(slots@),
{
    let mut slots: Vec<VertexBufferSlot> = Vec::new();
    match strategy {
        DrawStrategy::PointList => {
            let mut attributes: Vec<VertexAttribute> = Vec::new();
            attributes.push(VertexAttribute { shader_location: 0, offset: 0, size: 8 });
            attributes.push(VertexAttribute { shader_location: 1, offset: 8, size: 16 });
            assert(attributes@ =~= seq![
                VertexAttribute { shader_location: 0, offset: 0, size: 8 },
                VertexAttribute { shader_location: 1, offset: 8, size: 16 },
            ]);
            slots.push(VertexBufferSlot { stride: 24, step: StepMode::PerVertex, attributes });
        },
        DrawStrategy::InstancedQuad => {
            let mut corners: Vec<VertexAttribute> = Vec::new();
            corners.push(VertexAttribute { shader_location: 0, offset: 0, size: 8 });
            assert(corners@ =~= seq![
                VertexAttribute { shader_location: 0, offset: 0, size: 8 },
            ]);
            slots.push(VertexBufferSlot { stride: 8, step: StepMode::PerVertex, attributes: corners });
            let mut positions: Vec<VertexAttribute> = Vec::new();
            positions.push(VertexAttribute { shader_location: 1, offset: 0, size: 8 });
            assert(positions@ =~= seq![
                VertexAttribute { shader_location: 1, offset: 0, size: 8 },
            ]);
            slots.push(
                VertexBufferSlot { stride: 8, step: StepMode::PerInstance, attributes: positions },
            );
            let mut colors: Vec<VertexAttribute> = Vec::new();
            colors.push(VertexAttribute { shader_location: 2, offset: 0, size: 16 });
            assert(colors@ =~= seq![
                VertexAttribute { shader_location: 2, offset: 0, size: 16 },
            ]);
            slots.push(
                VertexBufferSlot { stride: 16, step: StepMode::PerInstance, attributes: colors },
            );
        },
    }
    slots
}

/// The index list of the instanced quad: two triangles over the four
/// corners.
pub fn quad_indices() -> (v: Vec<u16>)
    ensures
        v@ == seq![0u16, 1u16, 2u16, 2u16, 3u16, 0u16],
        v@.len() == QUAD_INDEX_COUNT,
        forall|i: int| 0 <= i < v@.len() ==> (v@[i] as int) < QUAD_VERTEX_COUNT,
{
    let mut v: Vec<u16> = Vec::new();
    v.push(0);
    v.push(1);
    v.push(2);
    v.push(2);
    v.push(3);
    v.push(0);
    proof {
        assert(v@ =~= seq![0u16, 1u16, 2u16, 2u16, 3u16, 0u16]);
    }
    v
}

/// The sign pattern of the four quad corners, counter-clockwise from
/// the bottom left; the application scales them by its point size.
pub fn quad_corner_signs() -> (v: Vec<(i8, i8)>)
    ensures
        v@ == seq![(-1i8, -1i8), (1i8, -1i8), (1i8, 1i8), (-1i8, 1i8)],
        v@.len() == QUAD_VERTEX_COUNT,
{
    let mut v: Vec<(i8, i8)> = Vec::new();
    v.push((-1, -1));
    v.push((1, -1));
    v.push((1, 1));
    v.push((-1, 1));
    proof {
        assert(v@ =~= seq![(-1i8, -1i8), (1i8, -1i8), (1i8, 1i8), (-1i8, 1i8)]);
    }
    v
}

} // verus!
