//! Render pipelines and vertex buffer layouts.

use vstd::prelude::*;

use crate::id::Id;
use crate::resources::GpuResourceDescriptor;
use crate::vertex_attribute::VertexAttribute;

verus! {

/// Handle tag for render pipelines.
#[derive(Debug)]
pub struct RenderPipeline;

pub type RenderPipelineId = Id<RenderPipeline>;

/// Whether a vertex buffer advances per vertex or per instance.
#[derive(Clone, Copy, Debug, PartialEq, Eq, Structural)]
pub enum VertexStepMode {
    Vertex,
    Instance,
}

/// How a vertex buffer is laid out: its stride, step mode, and attributes.
pub struct VertexBufferLayout {
    pub array_stride: u64,
    pub step_mode: VertexStepMode,
    pub attributes: Vec<VertexAttribute>,
}

/// Describes a render pipeline.
#[derive(Clone, Copy, Debug, PartialEq, Eq, Structural)]
pub struct RenderPipelineDescriptor {}

impl View for RenderPipelineDescriptor {
    type V = ();

    open spec fn view(&self) -> () {
        ()
    }
}

impl GpuResourceDescriptor for RenderPipelineDescriptor {
    type Resource = RenderPipeline;

    fn desc_eq(&self, other: &Self) -> (r: bool) {
        true
    }
}

} // verus!
