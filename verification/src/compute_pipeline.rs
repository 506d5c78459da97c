//! Compute pipelines, described by value.

use vstd::prelude::*;

use crate::id::Id;
use crate::label::{label_eq, label_view};
use crate::pipeline::PipelineLayoutId;
use crate::resources::GpuResourceDescriptor;
use crate::shader::ShaderModuleId;

verus! {

/// Handle tag for compute pipelines.
#[derive(Debug)]
pub struct ComputePipeline;

pub type ComputePipelineId = Id<ComputePipeline>;

/// Describes a compute pipeline: its layout, shader module, and entry
/// point symbol.
pub struct ComputePipelineDescriptor {
    pub label: Option<String>,
    pub layout: Option<PipelineLayoutId>,
    pub module: ShaderModuleId,
    pub entry_point: String,
}

impl View for ComputePipelineDescriptor {
    type V = (Option<Seq<char>>, Option<u64>, u64, Seq<char>);

    open spec fn view(&self) -> (Option<Seq<char>>, Option<u64>, u64, Seq<char>) {
        (
            label_view(self.label),
            match self.layout {
                Some(id) => Some(id@),
                None => None,
            },
            self.module@,
            self.entry_point@,
        )
    }
}

impl GpuResourceDescriptor for ComputePipelineDescriptor {
    type Resource = ComputePipeline;

    fn desc_eq(&self, other: &Self) -> (r: bool) {
        let layouts_eq = match (&self.layout, &other.layout) {
            (Some(a), Some(b)) => a.value() == b.value(),
            (None, None) => true,
            _ => false,
        };
        layouts_eq && label_eq(&self.label, &other.label) && self.module.value()
            == other.module.value() && self.entry_point == other.entry_point
    }
}

} // verus!
