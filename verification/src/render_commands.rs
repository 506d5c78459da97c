//! Recorded command lists and their resolution to live objects.
//!
//! Commands are recorded against handles and plain values only, so a list
//! can be built before the referenced objects exist.  Resolution walks the
//! list once against the current store state and produces a parallel list
//! of commands bound to borrowed live objects, in the exact order recorded.
//! It fails with [`ResolveError::HandleNotFound`] at the first command
//! whose handle is absent, and then nothing is handed to the device: replay
//! only ever sees a fully resolved list.

use vstd::prelude::*;

use crate::bind_group::{BindGroupDescriptor, BindGroupId};
use crate::buffer::{BufferSlice, RawBuffer, SliceBound};
use crate::compute_pipeline::{ComputePipelineDescriptor, ComputePipelineId};
use crate::render_pipeline::{RenderPipelineDescriptor, RenderPipelineId};
use crate::resources::{GpuResourceDescriptorMap, GpuResourceMap};

verus! {

/// The element width of an index buffer.
#[derive(Clone, Copy, Debug, PartialEq, Eq, Structural)]
pub enum IndexFormat {
    Uint16,
    Uint32,
}

/// Why a command list could not be resolved.
#[derive(Clone, Copy, Debug, PartialEq, Eq, Structural)]
pub enum ResolveError {
    /// A recorded handle was absent from its table at resolution time.
    /// Resolution of the list is abandoned; the stores stay usable.
    HandleNotFound { handle: u64 },
}

fn clone_u32s(values: &Vec<u32>) -> (r: Vec<u32>)
    ensures
        r@ == values@,
{
    let mut r: Vec<u32> = Vec::new();
    let n = values.len();
    let mut i: usize = 0;
    while i < n
        invariant
            n == values@.len(),
            i <= n,
            r@ == values@.subrange(0, i as int),
        decreases n - i,
    {
        r.push(values[i]);
        proof {
            assert(r@ =~= values@.subrange(0, i + 1));
        }
        i = i + 1;
    }
    proof {
        assert(values@.subrange(0, n as int) =~= values@);
    }
    r
}

/// One recorded compute pass command.
#[derive(Clone, Debug)]
pub enum ComputePassCommand {
    SetBindGroup { index: u32, bind_group: BindGroupId, offsets: Vec<u32> },
    SetPipeline { pipeline: ComputePipelineId },
    Dispatch { x: u32, y: u32, z: u32 },
}

/// The value of a recorded compute pass command: handles as raw values.
pub enum ComputePassCommandView {
    SetBindGroup { index: u32, bind_group: u64, offsets: Seq<u32> },
    SetPipeline { pipeline: u64 },
    Dispatch { x: u32, y: u32, z: u32 },
}

impl View for ComputePassCommand {
    type V = ComputePassCommandView;

    open spec fn view(&self) -> ComputePassCommandView {
        match self {
            ComputePassCommand::SetBindGroup { index, bind_group, offsets } => {
                ComputePassCommandView::SetBindGroup {
                    index: *index,
                    bind_group: bind_group@,
                    offsets: offsets@,
                }
            },
            ComputePassCommand::SetPipeline { pipeline } => {
                ComputePassCommandView::SetPipeline { pipeline: pipeline@ }
            },
            ComputePassCommand::Dispatch { x, y, z } => {
                ComputePassCommandView::Dispatch { x: *x, y: *y, z: *z }
            },
        }
    }
}

/// A compute pass command resolved to borrowed live objects.
///
/// `P` is the live compute pipeline type, `G` the live bind group type.
pub enum RefComputePassCommand<'a, P, G> {
    SetBindGroup { index: u32, bind_group: &'a G, offsets: Vec<u32> },
    SetPipeline { pipeline: &'a P },
    Dispatch { x: u32, y: u32, z: u32 },
}

/// The value of a resolved compute pass command.
pub enum RefComputePassCommandView<P, G> {
    SetBindGroup { index: u32, bind_group: G, offsets: Seq<u32> },
    SetPipeline { pipeline: P },
    Dispatch { x: u32, y: u32, z: u32 },
}

impl<'a, P, G> View for RefComputePassCommand<'a, P, G> {
    type V = RefComputePassCommandView<P, G>;

    open spec fn view(&self) -> RefComputePassCommandView<P, G> {
        match self {
            RefComputePassCommand::SetBindGroup { index, bind_group, offsets } => {
                RefComputePassCommandView::SetBindGroup {
                    index: *index,
                    bind_group: **bind_group,
                    offsets: offsets@,
                }
            },
            RefComputePassCommand::SetPipeline { pipeline } => {
                RefComputePassCommandView::SetPipeline { pipeline: **pipeline }
            },
            RefComputePassCommand::Dispatch { x, y, z } => {
                RefComputePassCommandView::Dispatch { x: *x, y: *y, z: *z }
            },
        }
    }
}

/// Whether every handle a compute command references is present.
pub open spec fn compute_command_resolvable<P, G>(
    cmd: ComputePassCommandView,
    pipelines: Map<u64, P>,
    bind_groups: Map<u64, G>,
) -> bool {
    match cmd {
        ComputePassCommandView::SetBindGroup { bind_group, .. } => bind_groups.contains_key(
            bind_group,
        ),
        ComputePassCommandView::SetPipeline { pipeline } => pipelines.contains_key(pipeline),
        ComputePassCommandView::Dispatch { .. } => true,
    }
}

/// The handle a compute command references, for reporting a failed lookup.
pub open spec fn compute_command_handle(cmd: ComputePassCommandView) -> u64 {
    match cmd {
        ComputePassCommandView::SetBindGroup { bind_group, .. } => bind_group,
        ComputePassCommandView::SetPipeline { pipeline } => pipeline,
        ComputePassCommandView::Dispatch { .. } => 0,
    }
}

/// The resolved counterpart of a compute command, given the store state.
pub open spec fn compute_command_resolved<P, G>(
    cmd: ComputePassCommandView,
    pipelines: Map<u64, P>,
    bind_groups: Map<u64, G>,
) -> RefComputePassCommandView<P, G> {
    match cmd {
        ComputePassCommandView::SetBindGroup { index, bind_group, offsets } => {
            RefComputePassCommandView::SetBindGroup {
                index,
                bind_group: bind_groups[bind_group],
                offsets,
            }
        },
        ComputePassCommandView::SetPipeline { pipeline } => {
            RefComputePassCommandView::SetPipeline { pipeline: pipelines[pipeline] }
        },
        ComputePassCommandView::Dispatch { x, y, z } => {
            RefComputePassCommandView::Dispatch { x, y, z }
        },
    }
}

impl ComputePassCommand {
    /// Resolves this command against the current store state, or reports
    /// the absent handle.
    pub fn to_ref<'a, P, G>(
        &self,
        pipelines: &'a GpuResourceDescriptorMap<ComputePipelineDescriptor, P>,
        bind_groups: &'a GpuResourceDescriptorMap<BindGroupDescriptor, G>,
    ) -> (r: Result<RefComputePassCommand<'a, P, G>, ResolveError>)
        ensures
            match r {
                Ok(rc) => compute_command_resolvable(self@, pipelines.table(), bind_groups.table())
                    && rc@ == compute_command_resolved(
                    self@,
                    pipelines.table(),
                    bind_groups.table(),
                ),
                Err(e) => !compute_command_resolvable(
                    self@,
                    pipelines.table(),
                    bind_groups.table(),
                ) && e == (ResolveError::HandleNotFound { handle: compute_command_handle(self@) }),
            },
    {
        match self {
            ComputePassCommand::SetBindGroup { index, bind_group, offsets } => {
                match bind_groups.get_id(bind_group) {
                    Some(group) => Ok(
                        RefComputePassCommand::SetBindGroup {
                            index: *index,
                            bind_group: group,
                            offsets: clone_u32s(offsets),
                        },
                    ),
                    None => Err(ResolveError::HandleNotFound { handle: bind_group.value() }),
                }
            },
            ComputePassCommand::SetPipeline { pipeline } => {
                match pipelines.get_id(pipeline) {
                    Some(p) => Ok(RefComputePassCommand::SetPipeline { pipeline: p }),
                    None => Err(ResolveError::HandleNotFound { handle: pipeline.value() }),
                }
            },
            ComputePassCommand::Dispatch { x, y, z } => Ok(
                RefComputePassCommand::Dispatch { x: *x, y: *y, z: *z },
            ),
        }
    }
}

/// A recorded compute pass: commands accumulate in recording order.
#[derive(Clone, Debug)]
pub struct ComputePassCommands {
    commands: Vec<ComputePassCommand>,
}

impl View for ComputePassCommands {
    type V = Seq<ComputePassCommandView>;

    closed spec fn view(&self) -> Seq<ComputePassCommandView> {
        self.commands@.map_values(|c: ComputePassCommand| c@)
    }
}

impl Default for ComputePassCommands {
    fn default() -> (r: Self)
        ensures
            r@ == Seq::<ComputePassCommandView>::empty(),
    {
        let r = ComputePassCommands { commands: Vec::new() };
        proof {
            assert(r@ =~= Seq::<ComputePassCommandView>::empty());
        }
        r
    }
}

impl ComputePassCommands {
    /// Records a bind group binding at the given index.
    pub fn set_bind_group(&mut self, index: u32, bind_group: BindGroupId, offsets: Vec<u32>)
        ensures
            final(self)@ == old(self)@.push(
                ComputePassCommandView::SetBindGroup {
                    index,
                    bind_group: bind_group@,
                    offsets: offsets@,
                },
            ),
    {
        self.commands.push(ComputePassCommand::SetBindGroup { index, bind_group, offsets });
        proof {
            assert(self@ =~= old(self)@.push(self.commands@.last()@));
        }
    }

    /// Records a pipeline binding.
    pub fn set_pipeline(&mut self, pipeline: ComputePipelineId)
        ensures
            final(self)@ == old(self)@.push(
                ComputePassCommandView::SetPipeline { pipeline: pipeline@ },
            ),
    {
        self.commands.push(ComputePassCommand::SetPipeline { pipeline });
        proof {
            assert(self@ =~= old(self)@.push(self.commands@.last()@));
        }
    }

    /// Records a dispatch of the given workgroup counts.
    pub fn dispatch(&mut self, x: u32, y: u32, z: u32)
        ensures
            final(self)@ == old(self)@.push(ComputePassCommandView::Dispatch { x, y, z }),
    {
        self.commands.push(ComputePassCommand::Dispatch { x, y, z });
        proof {
            assert(self@ =~= old(self)@.push(self.commands@.last()@));
        }
    }

    /// Resolves the whole list against the current store state, in
    /// recording order.
    ///
    /// Succeeds exactly when every recorded handle is present, and then the
    /// resolved list pairs off with the recorded one position by position.
    /// Fails at the first command whose handle is absent, naming that
    /// handle; no resolved list is produced, so no prefix is ever replayed.
    pub fn to_ref_commands<'a, P, G>(
        &self,
        pipelines: &'a GpuResourceDescriptorMap<ComputePipelineDescriptor, P>,
        bind_groups: &'a GpuResourceDescriptorMap<BindGroupDescriptor, G>,
    ) -> (r: Result<RefComputePassCommands<'a, P, G>, ResolveError>)
        ensures
            match r {
                Ok(rc) => {
                    &&& forall|i: int|
                        0 <= i < self@.len() ==> compute_command_resolvable(
                            #[trigger] self@[i],
                            pipelines.table(),
                            bind_groups.table(),
                        )
                    &&& rc@.len() == self@.len()
                    &&& forall|i: int|
                        0 <= i < self@.len() ==> #[trigger] rc@[i] == compute_command_resolved(
                            self@[i],
                            pipelines.table(),
                            bind_groups.table(),
                        )
                },
                Err(e) => exists|i: int|
                    {
                        &&& 0 <= i < self@.len()
                        &&& !compute_command_resolvable(
                            #[trigger] self@[i],
                            pipelines.table(),
                            bind_groups.table(),
                        )
                        &&& forall|j: int|
                            0 <= j < i ==> compute_command_resolvable(
                                #[trigger] self@[j],
                                pipelines.table(),
                                bind_groups.table(),
                            )
                        &&& e == (ResolveError::HandleNotFound {
                            handle: compute_command_handle(self@[i]),
                        })
                    },
            },
    {
        let mut resolved: Vec<RefComputePassCommand<'a, P, G>> = Vec::new();
        let n = self.commands.len();
        let mut i: usize = 0;
        while i < n
            invariant
                n == self.commands@.len(),
                i <= n,
                resolved@.len() == i,
                forall|j: int|
                    0 <= j < i ==> compute_command_resolvable(
                        #[trigger] self@[j],
                        pipelines.table(),
                        bind_groups.table(),
                    ),
                forall|j: int|
                    0 <= j < i ==> #[trigger] resolved@[j]@ == compute_command_resolved(
                        self@[j],
                        pipelines.table(),
                        bind_groups.table(),
                    ),
            decreases n - i,
        {
            proof {
                assert(self@[i as int] == self.commands@[i as int]@);
            }
            match self.commands[i].to_ref(pipelines, bind_groups) {
                Ok(rc) => {
                    resolved.push(rc);
                },
                Err(e) => {
                    return Err(e);
                },
            }
            i = i + 1;
        }
        Ok(RefComputePassCommands { commands: resolved })
    }
}

/// A resolved compute pass, valid for the lifetime of the borrowed stores.
///
/// The caller replays it against the device's pass recording interface in
/// list order and discards it.
pub struct RefComputePassCommands<'a, P, G> {
    commands: Vec<RefComputePassCommand<'a, P, G>>,
}

impl<'a, P, G> View for RefComputePassCommands<'a, P, G> {
    type V = Seq<RefComputePassCommandView<P, G>>;

    closed spec fn view(&self) -> Seq<RefComputePassCommandView<P, G>> {
        self.commands@.map_values(|c: RefComputePassCommand<'a, P, G>| c@)
    }
}

impl<'a, P, G> RefComputePassCommands<'a, P, G> {
    /// The resolved commands, in recording order.
    pub fn commands(&self) -> (r: &Vec<RefComputePassCommand<'a, P, G>>)
        ensures
            r@.map_values(|c: RefComputePassCommand<'a, P, G>| c@) == self@,
    {
        &self.commands
    }
}

/// One recorded render pass command.
#[derive(Clone, Debug)]
pub enum RenderPassCommand {
    SetBindGroup { index: u32, bind_group: BindGroupId, offsets: Vec<u32> },
    SetPipeline { pipeline: RenderPipelineId },
    SetIndexBuffer { buffer_slice: BufferSlice, format: IndexFormat },
    SetVertexBuffer { slot: u32, buffer_slice: BufferSlice },
    SetScissorRect { x: u32, y: u32, width: u32, height: u32 },
}

/// The value of a recorded render pass command: handles as raw values.
pub enum RenderPassCommandView {
    SetBindGroup { index: u32, bind_group: u64, offsets: Seq<u32> },
    SetPipeline { pipeline: u64 },
    SetIndexBuffer { buffer: u64, start: SliceBound, end: SliceBound, format: IndexFormat },
    SetVertexBuffer { slot: u32, buffer: u64, start: SliceBound, end: SliceBound },
    SetScissorRect { x: u32, y: u32, width: u32, height: u32 },
}

impl View for RenderPassCommand {
    type V = RenderPassCommandView;

    open spec fn view(&self) -> RenderPassCommandView {
        match self {
            RenderPassCommand::SetBindGroup { index, bind_group, offsets } => {
                RenderPassCommandView::SetBindGroup {
                    index: *index,
                    bind_group: bind_group@,
                    offsets: offsets@,
                }
            },
            RenderPassCommand::SetPipeline { pipeline } => {
                RenderPassCommandView::SetPipeline { pipeline: pipeline@ }
            },
            RenderPassCommand::SetIndexBuffer { buffer_slice, format } => {
                RenderPassCommandView::SetIndexBuffer {
                    buffer: buffer_slice@.0,
                    start: buffer_slice@.1,
                    end: buffer_slice@.2,
                    format: *format,
                }
            },
            RenderPassCommand::SetVertexBuffer { slot, buffer_slice } => {
                RenderPassCommandView::SetVertexBuffer {
                    slot: *slot,
                    buffer: buffer_slice@.0,
                    start: buffer_slice@.1,
                    end: buffer_slice@.2,
                }
            },
            RenderPassCommand::SetScissorRect { x, y, width, height } => {
                RenderPassCommandView::SetScissorRect {
                    x: *x,
                    y: *y,
                    width: *width,
                    height: *height,
                }
            },
        }
    }
}

/// A render pass command resolved to borrowed live objects.
///
/// `P` is the live render pipeline type, `G` the live bind group type, and
/// `B` the live buffer type.
pub enum RefRenderPassCommand<'a, P, G, B> {
    SetBindGroup { index: u32, bind_group: &'a G, offsets: Vec<u32> },
    SetPipeline { pipeline: &'a P },
    SetIndexBuffer { buffer: &'a B, start: SliceBound, end: SliceBound, format: IndexFormat },
    SetVertexBuffer { slot: u32, buffer: &'a B, start: SliceBound, end: SliceBound },
    SetScissorRect { x: u32, y: u32, width: u32, height: u32 },
}

/// The value of a resolved render pass command.
pub enum RefRenderPassCommandView<P, G, B> {
    SetBindGroup { index: u32, bind_group: G, offsets: Seq<u32> },
    SetPipeline { pipeline: P },
    SetIndexBuffer { buffer: B, start: SliceBound, end: SliceBound, format: IndexFormat },
    SetVertexBuffer { slot: u32, buffer: B, start: SliceBound, end: SliceBound },
    SetScissorRect { x: u32, y: u32, width: u32, height: u32 },
}

impl<'a, P, G, B> View for RefRenderPassCommand<'a, P, G, B> {
    type V = RefRenderPassCommandView<P, G, B>;

    open spec fn view(&self) -> RefRenderPassCommandView<P, G, B> {
        match self {
            RefRenderPassCommand::SetBindGroup { index, bind_group, offsets } => {
                RefRenderPassCommandView::SetBindGroup {
                    index: *index,
                    bind_group: **bind_group,
                    offsets: offsets@,
                }
            },
            RefRenderPassCommand::SetPipeline { pipeline } => {
                RefRenderPassCommandView::SetPipeline { pipeline: **pipeline }
            },
            RefRenderPassCommand::SetIndexBuffer { buffer, start, end, format } => {
                RefRenderPassCommandView::SetIndexBuffer {
                    buffer: **buffer,
                    start: *start,
                    end: *end,
                    format: *format,
                }
            },
            RefRenderPassCommand::SetVertexBuffer { slot, buffer, start, end } => {
                RefRenderPassCommandView::SetVertexBuffer {
                    slot: *slot,
                    buffer: **buffer,
                    start: *start,
                    end: *end,
                }
            },
            RefRenderPassCommand::SetScissorRect { x, y, width, height } => {
                RefRenderPassCommandView::SetScissorRect {
                    x: *x,
                    y: *y,
                    width: *width,
                    height: *height,
                }
            },
        }
    }
}

/// Whether every handle a render command references is present.
pub open spec fn render_command_resolvable<P, G, B>(
    cmd: RenderPassCommandView,
    pipelines: Map<u64, P>,
    bind_groups: Map<u64, G>,
    buffers: Map<u64, B>,
) -> bool {
    match cmd {
        RenderPassCommandView::SetBindGroup { bind_group, .. } => bind_groups.contains_key(
            bind_group,
        ),
        RenderPassCommandView::SetPipeline { pipeline } => pipelines.contains_key(pipeline),
        RenderPassCommandView::SetIndexBuffer { buffer, .. } => buffers.contains_key(buffer),
        RenderPassCommandView::SetVertexBuffer { buffer, .. } => buffers.contains_key(buffer),
        RenderPassCommandView::SetScissorRect { .. } => true,
    }
}

/// The handle a render command references, for reporting a failed lookup.
pub open spec fn render_command_handle(cmd: RenderPassCommandView) -> u64 {
    match cmd {
        RenderPassCommandView::SetBindGroup { bind_group, .. } => bind_group,
        RenderPassCommandView::SetPipeline { pipeline } => pipeline,
        RenderPassCommandView::SetIndexBuffer { buffer, .. } => buffer,
        RenderPassCommandView::SetVertexBuffer { buffer, .. } => buffer,
        RenderPassCommandView::SetScissorRect { .. } => 0,
    }
}

/// The resolved counterpart of a render command, given the store state.
pub open spec fn render_command_resolved<P, G, B>(
    cmd: RenderPassCommandView,
    pipelines: Map<u64, P>,
    bind_groups: Map<u64, G>,
    buffers: Map<u64, B>,
) -> RefRenderPassCommandView<P, G, B> {
    match cmd {
        RenderPassCommandView::SetBindGroup { index, bind_group, offsets } => {
            RefRenderPassCommandView::SetBindGroup {
                index,
                bind_group: bind_groups[bind_group],
                offsets,
            }
        },
        RenderPassCommandView::SetPipeline { pipeline } => {
            RefRenderPassCommandView::SetPipeline { pipeline: pipelines[pipeline] }
        },
        RenderPassCommandView::SetIndexBuffer { buffer, start, end, format } => {
            RefRenderPassCommandView::SetIndexBuffer { buffer: buffers[buffer], start, end, format }
        },
        RenderPassCommandView::SetVertexBuffer { slot, buffer, start, end } => {
            RefRenderPassCommandView::SetVertexBuffer { slot, buffer: buffers[buffer], start, end }
        },
        RenderPassCommandView::SetScissorRect { x, y, width, height } => {
            RefRenderPassCommandView::SetScissorRect { x, y, width, height }
        },
    }
}

impl RenderPassCommand {
    /// Resolves this command against the current store state, or reports
    /// the absent handle.
    fn to_ref<'a, P, G, B>(
        &self,
        pipelines: &'a GpuResourceDescriptorMap<RenderPipelineDescriptor, P>,
        bind_groups: &'a GpuResourceDescriptorMap<BindGroupDescriptor, G>,
        buffers: &'a GpuResourceMap<RawBuffer, B>,
    ) -> (r: Result<RefRenderPassCommand<'a, P, G, B>, ResolveError>)
        ensures
            match r {
                Ok(rc) => render_command_resolvable(
                    self@,
                    pipelines.table(),
                    bind_groups.table(),
                    buffers@,
                ) && rc@ == render_command_resolved(
                    self@,
                    pipelines.table(),
                    bind_groups.table(),
                    buffers@,
                ),
                Err(e) => !render_command_resolvable(
                    self@,
                    pipelines.table(),
                    bind_groups.table(),
                    buffers@,
                ) && e == (ResolveError::HandleNotFound { handle: render_command_handle(self@) }),
            },
    {
        match self {
            RenderPassCommand::SetBindGroup { index, bind_group, offsets } => {
                match bind_groups.get_id(bind_group) {
                    Some(group) => Ok(
                        RefRenderPassCommand::SetBindGroup {
                            index: *index,
                            bind_group: group,
                            offsets: clone_u32s(offsets),
                        },
                    ),
                    None => Err(ResolveError::HandleNotFound { handle: bind_group.value() }),
                }
            },
            RenderPassCommand::SetPipeline { pipeline } => {
                match pipelines.get_id(pipeline) {
                    Some(p) => Ok(RefRenderPassCommand::SetPipeline { pipeline: p }),
                    None => Err(ResolveError::HandleNotFound { handle: pipeline.value() }),
                }
            },
            RenderPassCommand::SetIndexBuffer { buffer_slice, format } => {
                let buffer_id = buffer_slice.buffer();
                match buffers.get(&buffer_id) {
                    Some(buffer) => Ok(
                        RefRenderPassCommand::SetIndexBuffer {
                            buffer,
                            start: buffer_slice.start(),
                            end: buffer_slice.end(),
                            format: *format,
                        },
                    ),
                    None => Err(ResolveError::HandleNotFound { handle: buffer_id.value() }),
                }
            },
            RenderPassCommand::SetVertexBuffer { slot, buffer_slice } => {
                let buffer_id = buffer_slice.buffer();
                match buffers.get(&buffer_id) {
                    Some(buffer) => Ok(
                        RefRenderPassCommand::SetVertexBuffer {
                            slot: *slot,
                            buffer,
                            start: buffer_slice.start(),
                            end: buffer_slice.end(),
                        },
                    ),
                    None => Err(ResolveError::HandleNotFound { handle: buffer_id.value() }),
                }
            },
            RenderPassCommand::SetScissorRect { x, y, width, height } => Ok(
                RefRenderPassCommand::SetScissorRect {
                    x: *x,
                    y: *y,
                    width: *width,
                    height: *height,
                },
            ),
        }
    }
}

/// A recorded render pass: commands accumulate in recording order.
#[derive(Clone, Debug)]
pub struct RenderPassCommands {
    commands: Vec<RenderPassCommand>,
}

impl View for RenderPassCommands {
    type V = Seq<RenderPassCommandView>;

    closed spec fn view(&self) -> Seq<RenderPassCommandView> {
        self.commands@.map_values(|c: RenderPassCommand| c@)
    }
}

impl Default for RenderPassCommands {
    fn default() -> (r: Self)
        ensures
            r@ == Seq::<RenderPassCommandView>::empty(),
    {
        let r = RenderPassCommands { commands: Vec::new() };
        proof {
            assert(r@ =~= Seq::<RenderPassCommandView>::empty());
        }
        r
    }
}

impl RenderPassCommands {
    /// Records a bind group binding at the given index.
    pub fn set_bind_group(&mut self, index: u32, bind_group: BindGroupId, offsets: Vec<u32>)
        ensures
            final(self)@ == old(self)@.push(
                RenderPassCommandView::SetBindGroup {
                    index,
                    bind_group: bind_group@,
                    offsets: offsets@,
                },
            ),
    {
        self.commands.push(RenderPassCommand::SetBindGroup { index, bind_group, offsets });
        proof {
            assert(self@ =~= old(self)@.push(self.commands@.last()@));
        }
    }

    /// Records a pipeline binding.
    pub fn set_pipeline(&mut self, pipeline: RenderPipelineId)
        ensures
            final(self)@ == old(self)@.push(
                RenderPassCommandView::SetPipeline { pipeline: pipeline@ },
            ),
    {
        self.commands.push(RenderPassCommand::SetPipeline { pipeline });
        proof {
            assert(self@ =~= old(self)@.push(self.commands@.last()@));
        }
    }

    /// Records an index buffer binding.
    pub fn set_index_buffer(&mut self, buffer_slice: BufferSlice, format: IndexFormat)
        ensures
            final(self)@ == old(self)@.push(
                RenderPassCommandView::SetIndexBuffer {
                    buffer: buffer_slice@.0,
                    start: buffer_slice@.1,
                    end: buffer_slice@.2,
                    format,
                },
            ),
    {
        self.commands.push(RenderPassCommand::SetIndexBuffer { buffer_slice, format });
        proof {
            assert(self@ =~= old(self)@.push(self.commands@.last()@));
        }
    }

    /// Records a vertex buffer binding at the given slot.
    pub fn set_vertex_buffer(&mut self, slot: u32, buffer_slice: BufferSlice)
        ensures
            final(self)@ == old(self)@.push(
                RenderPassCommandView::SetVertexBuffer {
                    slot,
                    buffer: buffer_slice@.0,
                    start: buffer_slice@.1,
                    end: buffer_slice@.2,
                },
            ),
    {
        self.commands.push(RenderPassCommand::SetVertexBuffer { slot, buffer_slice });
        proof {
            assert(self@ =~= old(self)@.push(self.commands@.last()@));
        }
    }

    /// Resolves the whole list against the current store state, in
    /// recording order; see
    /// [`ComputePassCommands::to_ref_commands`] for the failure contract.
    pub fn to_ref_commands<'a, P, G, B>(
        &self,
        pipelines: &'a GpuResourceDescriptorMap<RenderPipelineDescriptor, P>,
        bind_groups: &'a GpuResourceDescriptorMap<BindGroupDescriptor, G>,
        buffers: &'a GpuResourceMap<RawBuffer, B>,
    ) -> (r: Result<RefRenderPassCommands<'a, P, G, B>, ResolveError>)
        ensures
            match r {
                Ok(rc) => {
                    &&& forall|i: int|
                        0 <= i < self@.len() ==> render_command_resolvable(
                            #[trigger] self@[i],
                            pipelines.table(),
                            bind_groups.table(),
                            buffers@,
                        )
                    &&& rc@.len() == self@.len()
                    &&& forall|i: int|
                        0 <= i < self@.len() ==> #[trigger] rc@[i] == render_command_resolved(
                            self@[i],
                            pipelines.table(),
                            bind_groups.table(),
                            buffers@,
                        )
                },
                Err(e) => exists|i: int|
                    {
                        &&& 0 <= i < self@.len()
                        &&& !render_command_resolvable(
                            #[trigger] self@[i],
                            pipelines.table(),
                            bind_groups.table(),
                            buffers@,
                        )
                        &&& forall|j: int|
                            0 <= j < i ==> render_command_resolvable(
                                #[trigger] self@[j],
                                pipelines.table(),
                                bind_groups.table(),
                                buffers@,
                            )
                        &&& e == (ResolveError::HandleNotFound {
                            handle: render_command_handle(self@[i]),
                        })
                    },
            },
    {
        let mut resolved: Vec<RefRenderPassCommand<'a, P, G, B>> = Vec::new();
        let n = self.commands.len();
        let mut i: usize = 0;
        while i < n
            invariant
                n == self.commands@.len(),
                i <= n,
                resolved@.len() == i,
                forall|j: int|
                    0 <= j < i ==> render_command_resolvable(
                        #[trigger] self@[j],
                        pipelines.table(),
                        bind_groups.table(),
                        buffers@,
                    ),
                forall|j: int|
                    0 <= j < i ==> #[trigger] resolved@[j]@ == render_command_resolved(
                        self@[j],
                        pipelines.table(),
                        bind_groups.table(),
                        buffers@,
                    ),
            decreases n - i,
        {
            proof {
                assert(self@[i as int] == self.commands@[i as int]@);
            }
            match self.commands[i].to_ref(pipelines, bind_groups, buffers) {
                Ok(rc) => {
                    resolved.push(rc);
                },
                Err(e) => {
                    return Err(e);
                },
            }
            i = i + 1;
        }
        Ok(RefRenderPassCommands { commands: resolved })
    }
}

/// A resolved render pass, valid for the lifetime of the borrowed stores.
pub struct RefRenderPassCommands<'a, P, G, B> {
    commands: Vec<RefRenderPassCommand<'a, P, G, B>>,
}

impl<'a, P, G, B> View for RefRenderPassCommands<'a, P, G, B> {
    type V = Seq<RefRenderPassCommandView<P, G, B>>;

    closed spec fn view(&self) -> Seq<RefRenderPassCommandView<P, G, B>> {
        self.commands@.map_values(|c: RefRenderPassCommand<'a, P, G, B>| c@)
    }
}

impl<'a, P, G, B> RefRenderPassCommands<'a, P, G, B> {
    /// The resolved commands, in recording order.
    pub fn commands(&self) -> (r: &Vec<RefRenderPassCommand<'a, P, G, B>>)
        ensures
            r@.map_values(|c: RefRenderPassCommand<'a, P, G, B>| c@) == self@,
    {
        &self.commands
    }
}

} // verus!
