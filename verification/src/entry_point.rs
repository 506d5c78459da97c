//! Shader entry points and the pass commands assembled for them.

use vstd::prelude::*;

use crate::bind_group::{
    BindGroupDescriptor, BindGroupId, BindGroupLayoutDescriptor, BindGroupLayoutId,
};
use crate::compute_pipeline::ComputePipelineId;
use crate::render_commands::{ComputePassCommandView, ComputePassCommands};

verus! {

/// A shader entry point: its source text, entry symbol, and the bindings
/// it requires.  Implemented by callers for each of their shaders.
pub trait EntryPoint {
    /// The shader source text.
    fn source(&self) -> &'static str;

    /// The entry symbol within the source.
    fn entry_point(&self) -> &'static str;

    /// The layouts of the bind groups the entry point requires, in group
    /// order.
    fn bind_group_layout_descriptors(&self) -> Vec<BindGroupLayoutDescriptor>;

    /// The bind groups to create against the given layouts, in group order.
    fn bind_group_descriptors(&self, bind_group_layouts: &Vec<BindGroupLayoutId>) -> Vec<
        BindGroupDescriptor,
    >;
}

/// An entry point usable in a render pass.
pub trait RenderEntryPoint: EntryPoint {
    type ColorTargets;

    type DepthTargets;
}

/// An entry point usable in a compute pass.
pub trait ComputeEntryPoint: EntryPoint {
}

/// A dispatch size in workgroups.
pub struct Dispatch {
    pub x: u32,
    pub y: u32,
    pub z: u32,
}

/// The opening commands of a compute pass: bind the pipeline, then each
/// bind group at consecutive indices, in exactly that order.  The caller
/// appends dispatches and resolves the list once at the end of the pass.
pub fn compute_pass_opening(pipeline: ComputePipelineId, bind_groups: &Vec<BindGroupId>) -> (r:
    ComputePassCommands)
    requires
        bind_groups@.len() <= u32::MAX,
    ensures
        r@.len() == 1 + bind_groups@.len(),
        r@[0] == (ComputePassCommandView::SetPipeline { pipeline: pipeline@ }),
        forall|i: int|
            0 <= i < bind_groups@.len() ==> r@[i + 1] == (ComputePassCommandView::SetBindGroup {
                index: i as u32,
                bind_group: bind_groups@[i]@,
                offsets: Seq::<u32>::empty(),
            }),
{
    let mut commands = ComputePassCommands::default();
    commands.set_pipeline(pipeline);
    let n = bind_groups.len();
    let mut i: usize = 0;
    while i < n
        invariant
            n == bind_groups@.len(),
            n <= u32::MAX,
            i <= n,
            commands@.len() == 1 + i,
            commands@[0] == (ComputePassCommandView::SetPipeline { pipeline: pipeline@ }),
            forall|j: int|
                0 <= j < i ==> commands@[j + 1] == (ComputePassCommandView::SetBindGroup {
                    index: j as u32,
                    bind_group: bind_groups@[j]@,
                    offsets: Seq::<u32>::empty(),
                }),
        decreases n - i,
    {
        let offsets: Vec<u32> = Vec::new();
        commands.set_bind_group(i as u32, bind_groups[i], offsets);
        i = i + 1;
    }
    commands
}

} // verus!
