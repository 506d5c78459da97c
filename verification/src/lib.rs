//! Host-side resource virtualization for a stateful graphics device.
//!
//! Callers describe device objects with value-equal descriptors, receive
//! opaque typed handles, and record work against those handles; the live
//! objects themselves stay inside the resource stores.  The crate provides:
//!
//! - typed handles and a monotonic handle source ([`id`]);
//! - a handle-keyed resource table and a descriptor-keyed cache that
//!   creates each distinct descriptor's object at most once ([`resources`]);
//! - a host/device coherency tracker recording which side last wrote a
//!   CPU-visible resource ([`sync`]), and a uniform buffer wired to it
//!   ([`buffer`]);
//! - command lists that are recorded against handles and resolved to
//!   borrowed live objects only at execution time ([`render_commands`]);
//! - a shader include processor that splices include units into a single
//!   source in dependency order ([`shader_processor`]).
//!
//! The device itself (object creation, byte transfer, pass replay) is a
//! collaborator behind this boundary: the caller performs those calls and
//! feeds the results back in, so everything here is plain verified code.

pub mod bind_group;
pub mod buffer;
pub mod compute_pipeline;
pub mod entry_point;
pub mod id;
pub mod label;
pub mod math;
pub mod pipeline;
pub mod render_commands;
pub mod render_pipeline;
pub mod resources;
pub mod shader;
pub mod shader_processor;
pub mod sync;
pub mod vertex;
pub mod vertex_attribute;

pub use bind_group::{
    BindGroup, BindGroupDescriptor, BindGroupEntry, BindGroupId, BindGroupLayout,
    BindGroupLayoutDescriptor, BindGroupLayoutEntry, BindGroupLayoutId, BindingResource,
    BindingType, BufferBinding, BufferBindingType,
};
pub use buffer::{BufferData, BufferId, BufferSlice, RawBuffer, SliceBound, UniformBuffer};
pub use compute_pipeline::{ComputePipeline, ComputePipelineDescriptor, ComputePipelineId};
pub use entry_point::{
    compute_pass_opening, ComputeEntryPoint, Dispatch, EntryPoint, RenderEntryPoint,
};
pub use id::{HasId, Id, IdSource};
pub use math::{Mat2x2, Mat3x3, Mat4x4, Vec2, Vec3, Vec4};
pub use pipeline::{PipelineLayout, PipelineLayoutDescriptor, PipelineLayoutId, PushConstantRange};
pub use render_commands::{
    ComputePassCommand, ComputePassCommandView, ComputePassCommands, IndexFormat,
    RefComputePassCommand, RefComputePassCommandView, RefComputePassCommands,
    RefRenderPassCommand, RefRenderPassCommandView, RefRenderPassCommands, RenderPassCommand,
    RenderPassCommandView, RenderPassCommands, ResolveError,
};
pub use render_pipeline::{
    RenderPipeline, RenderPipelineDescriptor, RenderPipelineId, VertexBufferLayout, VertexStepMode,
};
pub use shader::{ShaderModule, ShaderModuleDescriptor, ShaderModuleId};
pub use shader_processor::{
    ShaderInclude, ShaderIncludePath, ShaderIncludePathView, ShaderProcessor,
    ShaderProcessorError, ShaderProcessorErrorView,
};
pub use vertex::Vertex;
pub use vertex_attribute::{AsVertexAttribute, VertexAttribute, VertexFormat};
pub use resources::{GpuResourceDescriptor, GpuResourceDescriptorMap, GpuResourceMap};
pub use sync::{GpuSync, GpuSyncState};
