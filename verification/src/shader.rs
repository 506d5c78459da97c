//! Shader modules, described by their source text.

use vstd::prelude::*;

use crate::id::Id;
use crate::label::{label_eq, label_view};
use crate::resources::GpuResourceDescriptor;

verus! {

/// Handle tag for shader modules.
#[derive(Debug)]
pub struct ShaderModule;

pub type ShaderModuleId = Id<ShaderModule>;

/// Describes a shader module: its full source text.
///
/// Two descriptors with the same source stand for the same module, so a
/// shader is compiled at most once per distinct source.
pub struct ShaderModuleDescriptor {
    pub label: Option<String>,
    pub source: String,
}

impl View for ShaderModuleDescriptor {
    type V = (Option<Seq<char>>, Seq<char>);

    open spec fn view(&self) -> (Option<Seq<char>>, Seq<char>) {
        (label_view(self.label), self.source@)
    }
}

impl GpuResourceDescriptor for ShaderModuleDescriptor {
    type Resource = ShaderModule;

    fn desc_eq(&self, other: &Self) -> (r: bool) {
        label_eq(&self.label, &other.label) && self.source == other.source
    }
}

} // verus!
