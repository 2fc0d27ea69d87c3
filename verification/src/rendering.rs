//! The plan of a frame of the shadow mapping renderer: which descriptors
//! belong to whom, which command lists are recorded in which order, and
//! through which states the resources of a frame go.

use crate::frames::FRAME_COUNT;
use crate::resources::transition_barrier;
use crate::resources::ResourceBarrier;
use crate::resources::ResourceDesc;
use crate::resources::D3D12_RESOURCE_FLAG_ALLOW_DEPTH_STENCIL;
use crate::resources::D3D12_RESOURCE_FLAG_DENY_SHADER_RESOURCE;
use crate::resources::D3D12_TEXTURE_LAYOUT_UNKNOWN;
use crate::resources::DXGI_FORMAT_D32_FLOAT;
use crate::resources::DXGI_FORMAT_R32_TYPELESS;
use crate::resources::D3D12_RESOURCE_STATE_DEPTH_WRITE;
use crate::resources::D3D12_RESOURCE_STATE_PIXEL_SHADER_RESOURCE;
use crate::resources::D3D12_RESOURCE_STATE_PRESENT;
use crate::resources::D3D12_RESOURCE_STATE_RENDER_TARGET;
use vstd::prelude::*;

verus! {

/// Lights in the scene.
pub const NUM_LIGHTS: usize = 3;

/// Command lists that draw the scene side by side, in each of the two
/// passes.
pub const NUM_TASKS: usize = 8;

/// Command lists recorded for one frame: one before, one between and one
/// after the two passes, and `NUM_TASKS` in each pass.
pub const COMMAND_LIST_COUNT: usize = 2 * NUM_TASKS + 3;

/// Null descriptors at the start of the shader visible heap. They stand
/// in for textures that are not bound.
pub const NULL_DESCRIPTOR_COUNT: usize = 2;

/// Descriptors that each frame has in the shader visible heap.
pub const PER_FRAME_GPU_DESCRIPTOR_COUNT: usize = 3;

/// Among the descriptors of a frame: the shadow map as a shader resource.
pub const SHADOW_SRV_SLOT: usize = 0;

/// Among the descriptors of a frame: the constants of the shadow pass.
pub const SHADOW_CBV_SLOT: usize = 1;

/// Among the descriptors of a frame: the constants of the scene pass.
pub const SCENE_CBV_SLOT: usize = 2;

/// Descriptors in the shader visible heap of a scene with
/// `texture_count` textures: the null descriptors, the textures, and
/// those of each frame.
pub open spec fn spec_gpu_descriptor_count(texture_count: int) -> int {
    NULL_DESCRIPTOR_COUNT + texture_count + FRAME_COUNT * PER_FRAME_GPU_DESCRIPTOR_COUNT
}

/// The index in the shader visible heap of descriptor `slot` of frame
/// `frame`. The frames follow the null descriptors and the textures.
pub open spec fn spec_frame_descriptor(texture_count: int, frame: int, slot: int) -> int {
    NULL_DESCRIPTOR_COUNT + texture_count + frame * PER_FRAME_GPU_DESCRIPTOR_COUNT + slot
}

pub fn gpu_descriptor_count(texture_count: usize) -> (count: usize)
    requires
        spec_gpu_descriptor_count(texture_count as int) <= usize::MAX,
    ensures
        count == spec_gpu_descriptor_count(texture_count as int),
{
    NULL_DESCRIPTOR_COUNT + texture_count + FRAME_COUNT * PER_FRAME_GPU_DESCRIPTOR_COUNT
}

/// The index in the shader visible heap at which the descriptors of the
/// frames start.
pub fn frame_descriptors_start(texture_count: usize) -> (start: usize)
    requires
        spec_gpu_descriptor_count(texture_count as int) <= usize::MAX,
    ensures
        start == spec_frame_descriptor(texture_count as int, 0, 0),
{
    NULL_DESCRIPTOR_COUNT + texture_count
}

/// The index, counted from `frame_descriptors_start`, at which the
/// descriptors of frame `frame` start.
pub fn frame_descriptors_offset(frame: usize) -> (offset: usize)
    requires
        frame < FRAME_COUNT,
    ensures
        offset == frame * PER_FRAME_GPU_DESCRIPTOR_COUNT,
{
    frame * PER_FRAME_GPU_DESCRIPTOR_COUNT
}

/// Every descriptor of every frame lies in the heap, behind the null
/// descriptors and the textures, and no two of them share an index.
pub proof fn lemma_frame_descriptors_apart(
    texture_count: int,
    frame: int,
    slot: int,
    other_frame: int,
    other_slot: int,
)
    requires
        0 <= texture_count,
        0 <= frame < FRAME_COUNT,
        0 <= slot < PER_FRAME_GPU_DESCRIPTOR_COUNT,
        0 <= other_frame < FRAME_COUNT,
        0 <= other_slot < PER_FRAME_GPU_DESCRIPTOR_COUNT,
    ensures
        NULL_DESCRIPTOR_COUNT + texture_count <= spec_frame_descriptor(texture_count, frame, slot)
            < spec_gpu_descriptor_count(texture_count),
        spec_frame_descriptor(texture_count, frame, slot) == spec_frame_descriptor(
            texture_count,
            other_frame,
            other_slot,
        ) ==> frame == other_frame && slot == other_slot,
{
}

/// Depth stencil views of the renderer: one for the depth buffer of the
/// scene, and one for the shadow map of each frame.
pub const DSV_DESCRIPTOR_COUNT: usize = FRAME_COUNT + 1;

/// The depth buffer of the scene pass for a render target of `width` by
/// `height` pixels: 32-bit depth, never read by a shader.
pub fn depth_stencil_desc(width: u32, height: u32) -> (desc: ResourceDesc)
    ensures
        desc == (ResourceDesc {
            layout: D3D12_TEXTURE_LAYOUT_UNKNOWN,
            flags: D3D12_RESOURCE_FLAG_ALLOW_DEPTH_STENCIL
                | D3D12_RESOURCE_FLAG_DENY_SHADER_RESOURCE,
            ..ResourceDesc::spec_tex2d(DXGI_FORMAT_D32_FLOAT, width as u64, height)
        }),
{
    ResourceDesc {
        layout: D3D12_TEXTURE_LAYOUT_UNKNOWN,
        flags: D3D12_RESOURCE_FLAG_ALLOW_DEPTH_STENCIL | D3D12_RESOURCE_FLAG_DENY_SHADER_RESOURCE,
        ..ResourceDesc::tex2d(DXGI_FORMAT_D32_FLOAT, width as u64, height)
    }
}

/// The shadow map of a frame: as large as the render target, written as
/// depth in the shadow pass and read as a 32-bit texture in the scene
/// pass.
pub fn shadow_texture_desc(render_target: &ResourceDesc) -> (desc: ResourceDesc)
    ensures
        desc == (ResourceDesc {
            flags: D3D12_RESOURCE_FLAG_ALLOW_DEPTH_STENCIL,
            ..ResourceDesc::spec_tex2d(
                DXGI_FORMAT_R32_TYPELESS,
                render_target.width,
                render_target.height,
            )
        }),
{
    ResourceDesc {
        flags: D3D12_RESOURCE_FLAG_ALLOW_DEPTH_STENCIL,
        ..ResourceDesc::tex2d(DXGI_FORMAT_R32_TYPELESS, render_target.width, render_target.height)
    }
}

/// What one command list of a frame records.
#[derive(Clone, Copy, Debug, PartialEq, Eq, Structural)]
pub enum RenderTask {
    /// Clears the shadow map, the render target and the depth buffer.
    PreRender,
    /// Draws the share of the scene with this number into the shadow map.
    ShadowMap(usize),
    /// Hands the shadow map from the shadow pass to the scene pass.
    MidRender,
    /// Draws the share of the scene with this number into the render target.
    Scene(usize),
    /// Hands the shadow map back and the render target to the swap chain.
    PostRender,
}

/// The task whose command list the queue executes at place `position`
/// of a frame.
pub open spec fn spec_task_at(position: int) -> RenderTask {
    if position == 0 {
        RenderTask::PreRender
    } else if position <= NUM_TASKS {
        RenderTask::ShadowMap((position - 1) as usize)
    } else if position == NUM_TASKS + 1 {
        RenderTask::MidRender
    } else if position <= 2 * NUM_TASKS + 1 {
        RenderTask::Scene((position - NUM_TASKS - 2) as usize)
    } else {
        RenderTask::PostRender
    }
}

pub fn task_at(position: usize) -> (task: RenderTask)
    requires
        position < COMMAND_LIST_COUNT,
    ensures
        task == spec_task_at(position as int),
{
    if position == 0 {
        RenderTask::PreRender
    } else if position <= NUM_TASKS {
        RenderTask::ShadowMap(position - 1)
    } else if position == NUM_TASKS + 1 {
        RenderTask::MidRender
    } else if position <= 2 * NUM_TASKS + 1 {
        RenderTask::Scene(position - NUM_TASKS - 2)
    } else {
        RenderTask::PostRender
    }
}

/// Draw `k` of those that the command list with number `task_index` of a
/// pass records: the draws of the scene are dealt out to the
/// `task_count` command lists of a pass in turn.
pub open spec fn spec_task_draw(task_index: int, task_count: int, k: int) -> int {
    task_index + k * task_count
}

/// The draws of a scene of `draw_count` draws that the command list with
/// number `task_index` of a pass records, in order: draw `task_index`
/// and every `task_count`-th after it.
pub fn task_draws(task_index: usize, task_count: usize, draw_count: usize) -> (draws: Vec<usize>)
    requires
        task_count > 0,
    ensures
        forall|k: int|
            0 <= k < draws@.len() ==> #[trigger] draws@[k] == spec_task_draw(
                task_index as int,
                task_count as int,
                k,
            ) && draws@[k] < draw_count,
        spec_task_draw(task_index as int, task_count as int, draws@.len() as int) >= draw_count,
{
    let mut draws: Vec<usize> = Vec::new();
    let mut draw = task_index;
    while draw < draw_count
        invariant
            task_count > 0,
            draw == spec_task_draw(task_index as int, task_count as int, draws@.len() as int),
            forall|k: int|
                0 <= k < draws@.len() ==> #[trigger] draws@[k] == spec_task_draw(
                    task_index as int,
                    task_count as int,
                    k,
                ) && draws@[k] < draw_count,
        decreases draw_count - draw,
    {
        let ghost recorded = draws@.len() as int;
        draws.push(draw);
        assert((recorded + 1) * task_count == recorded * task_count + task_count)
            by (nonlinear_arith);
        if draw_count - draw <= task_count {
            return draws;
        }
        draw = draw + task_count;
    }
    draws
}

/// Every draw of the scene is recorded by one command list of a pass and
/// by no other, and once: draw `draw` is draw `draw / task_count` of the
/// command list with number `draw % task_count`.
pub proof fn lemma_every_draw_once(draw: int, task_count: int, task_index: int, k: int)
    requires
        0 <= draw,
        0 <= task_index < task_count,
    ensures
        spec_task_draw(draw % task_count, task_count, draw / task_count) == draw,
        0 <= draw % task_count < task_count,
        spec_task_draw(task_index, task_count, k) == draw ==> task_index == draw % task_count && k
            == draw / task_count,
{
    vstd::arithmetic::div_mod::lemma_fundamental_div_mod(draw, task_count);
    assert(task_count * (draw / task_count) == (draw / task_count) * task_count)
        by (nonlinear_arith);
    if spec_task_draw(task_index, task_count, k) == draw {
        vstd::arithmetic::div_mod::lemma_fundamental_div_mod_converse(
            draw,
            task_count,
            k,
            task_index,
        );
    }
}

/// A resource of a frame that changes its state in the course of it.
#[derive(Clone, Copy, Debug, PartialEq, Eq, Structural)]
pub enum FrameResource {
    /// The back buffer of the frame.
    RenderTarget,
    /// The shadow map of the frame.
    ShadowTexture,
}

/// The barriers that the command list of `task` records, in order.
pub open spec fn spec_task_barriers(task: RenderTask) -> Seq<ResourceBarrier<FrameResource>> {
    match task {
        RenderTask::PreRender => seq![
            spec_transition(
                FrameResource::RenderTarget,
                D3D12_RESOURCE_STATE_PRESENT,
                D3D12_RESOURCE_STATE_RENDER_TARGET,
            ),
        ],
        RenderTask::MidRender => seq![
            spec_transition(
                FrameResource::ShadowTexture,
                D3D12_RESOURCE_STATE_DEPTH_WRITE,
                D3D12_RESOURCE_STATE_PIXEL_SHADER_RESOURCE,
            ),
        ],
        RenderTask::PostRender => seq![
            spec_transition(
                FrameResource::ShadowTexture,
                D3D12_RESOURCE_STATE_PIXEL_SHADER_RESOURCE,
                D3D12_RESOURCE_STATE_DEPTH_WRITE,
            ),
            spec_transition(
                FrameResource::RenderTarget,
                D3D12_RESOURCE_STATE_RENDER_TARGET,
                D3D12_RESOURCE_STATE_PRESENT,
            ),
        ],
        _ => Seq::empty(),
    }
}

/// The barrier that `transition_barrier` makes.
pub open spec fn spec_transition(
    resource: FrameResource,
    state_before: i32,
    state_after: i32,
) -> ResourceBarrier<FrameResource> {
    ResourceBarrier {
        barrier_type: crate::resources::D3D12_RESOURCE_BARRIER_TYPE_TRANSITION,
        flags: crate::resources::D3D12_RESOURCE_BARRIER_FLAG_NONE,
        transition: crate::resources::ResourceTransitionBarrier {
            resource,
            subresource: crate::resources::D3D12_RESOURCE_BARRIER_ALL_SUBRESOURCES,
            state_before,
            state_after,
        },
    }
}

pub fn task_barriers(task: RenderTask) -> (barriers: Vec<ResourceBarrier<FrameResource>>)
    ensures
        barriers@ == spec_task_barriers(task),
{
    let mut barriers: Vec<ResourceBarrier<FrameResource>> = Vec::new();
    match task {
        RenderTask::PreRender => {
            barriers.push(
                transition_barrier(
                    FrameResource::RenderTarget,
                    D3D12_RESOURCE_STATE_PRESENT,
                    D3D12_RESOURCE_STATE_RENDER_TARGET,
                ),
            );
        },
        RenderTask::MidRender => {
            barriers.push(
                transition_barrier(
                    FrameResource::ShadowTexture,
                    D3D12_RESOURCE_STATE_DEPTH_WRITE,
                    D3D12_RESOURCE_STATE_PIXEL_SHADER_RESOURCE,
                ),
            );
        },
        RenderTask::PostRender => {
            barriers.push(
                transition_barrier(
                    FrameResource::ShadowTexture,
                    D3D12_RESOURCE_STATE_PIXEL_SHADER_RESOURCE,
                    D3D12_RESOURCE_STATE_DEPTH_WRITE,
                ),
            );
            barriers.push(
                transition_barrier(
                    FrameResource::RenderTarget,
                    D3D12_RESOURCE_STATE_RENDER_TARGET,
                    D3D12_RESOURCE_STATE_PRESENT,
                ),
            );
        },
        _ => {},
    }
    assert(barriers@ =~= spec_task_barriers(task));
    barriers
}

/// The states of the resources of a frame.
#[derive(Clone, Copy, Debug, PartialEq, Eq, Structural)]
pub struct FrameStates {
    pub render_target: i32,
    pub shadow_texture: i32,
}

impl FrameStates {
    /// The states between two frames: the back buffer with the swap
    /// chain, the shadow map ready to be drawn into.
    pub open spec fn at_rest() -> FrameStates {
        FrameStates {
            render_target: D3D12_RESOURCE_STATE_PRESENT,
            shadow_texture: D3D12_RESOURCE_STATE_DEPTH_WRITE,
        }
    }

    /// The state of `resource`.
    pub open spec fn of(self, resource: FrameResource) -> i32 {
        match resource {
            FrameResource::RenderTarget => self.render_target,
            FrameResource::ShadowTexture => self.shadow_texture,
        }
    }

    /// The states after `barrier`, if the resource is in the state that
    /// the barrier starts from. A barrier that starts from another state
    /// is a fault.
    pub open spec fn after(self, barrier: ResourceBarrier<FrameResource>) -> Option<FrameStates> {
        let transition = barrier.transition;
        if self.of(transition.resource) != transition.state_before {
            None
        } else {
            Some(
                match transition.resource {
                    FrameResource::RenderTarget => FrameStates {
                        render_target: transition.state_after,
                        ..self
                    },
                    FrameResource::ShadowTexture => FrameStates {
                        shadow_texture: transition.state_after,
                        ..self
                    },
                },
            )
        }
    }

    /// The states after all of `barriers`, one after the other.
    pub open spec fn after_all(self, barriers: Seq<ResourceBarrier<FrameResource>>) -> Option<
        FrameStates,
    >
        decreases barriers.len(),
    {
        if barriers.len() == 0 {
            Some(self)
        } else {
            match self.after(barriers[0]) {
                Some(next) => next.after_all(barriers.drop_first()),
                None => None,
            }
        }
    }
}

/// The states after the command lists at the first `count` places of a
/// frame that started in the states `start`.
pub open spec fn states_after_tasks(start: FrameStates, count: int) -> Option<FrameStates>
    decreases count,
{
    if count <= 0 {
        Some(start)
    } else {
        match states_after_tasks(start, count - 1) {
            Some(states) => states.after_all(spec_task_barriers(spec_task_at(count - 1))),
            None => None,
        }
    }
}

/// A pass draws with the resources in the states that it needs: the
/// shadow pass into the shadow map, the scene pass into the render target
/// while it reads the shadow map.
pub proof fn lemma_states_during_passes(position: int)
    requires
        0 <= position < COMMAND_LIST_COUNT,
    ensures
        spec_task_at(position) is ShadowMap ==> states_after_tasks(
            FrameStates::at_rest(),
            position,
        ) == Some(
            FrameStates {
                render_target: D3D12_RESOURCE_STATE_RENDER_TARGET,
                shadow_texture: D3D12_RESOURCE_STATE_DEPTH_WRITE,
            },
        ),
        spec_task_at(position) is Scene ==> states_after_tasks(FrameStates::at_rest(), position)
            == Some(
            FrameStates {
                render_target: D3D12_RESOURCE_STATE_RENDER_TARGET,
                shadow_texture: D3D12_RESOURCE_STATE_PIXEL_SHADER_RESOURCE,
            },
        ),
{
    lemma_states_through(position);
}

/// Every barrier of a frame starts from the state that its resource is
/// in, and the frame leaves its resources in the states in which it
/// found them.
pub proof fn lemma_frame_returns_to_rest()
    ensures
        states_after_tasks(FrameStates::at_rest(), COMMAND_LIST_COUNT as int) == Some(
            FrameStates::at_rest(),
        ),
{
    lemma_states_through(COMMAND_LIST_COUNT as int);
}

/// The states after the first `count` places of a frame.
proof fn lemma_states_through(count: int)
    requires
        0 <= count <= COMMAND_LIST_COUNT,
    ensures
        states_after_tasks(FrameStates::at_rest(), count) == Some(
            FrameStates {
                render_target: if 1 <= count < COMMAND_LIST_COUNT {
                    D3D12_RESOURCE_STATE_RENDER_TARGET
                } else {
                    D3D12_RESOURCE_STATE_PRESENT
                },
                shadow_texture: if NUM_TASKS + 2 <= count < COMMAND_LIST_COUNT {
                    D3D12_RESOURCE_STATE_PIXEL_SHADER_RESOURCE
                } else {
                    D3D12_RESOURCE_STATE_DEPTH_WRITE
                },
            },
        ),
    decreases count,
{
    if count > 0 {
        lemma_states_through(count - 1);
        let before = states_after_tasks(FrameStates::at_rest(), count - 1).unwrap();
        let barriers = spec_task_barriers(spec_task_at(count - 1));
        reveal_with_fuel(FrameStates::after_all, 3);
        if barriers.len() == 2 {
            assert(barriers.drop_first().len() == 1);
            assert(barriers.drop_first()[0] == barriers[1]);
            assert(barriers.drop_first().drop_first().len() == 0);
        } else if barriers.len() == 1 {
            assert(barriers.drop_first().len() == 0);
        }
    }
}

} // verus!
