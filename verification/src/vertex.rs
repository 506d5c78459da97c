//! Vertex types usable in a vertex buffer.

use vstd::prelude::*;

use crate::render_pipeline::{VertexBufferLayout, VertexStepMode};
use crate::vertex_attribute::VertexAttribute;

verus! {

/// Implemented by types that can be laid out in a vertex buffer.
pub trait Vertex {
    /// The byte stride between consecutive vertices.
    fn array_stride() -> u64;

    /// The attributes of one vertex, in shader location order.
    fn attributes() -> Vec<VertexAttribute>;

    /// The buffer layout of this vertex type under the given step mode.
    fn buffer_layout(step_mode: VertexStepMode) -> VertexBufferLayout {
        VertexBufferLayout {
            array_stride: Self::array_stride(),
            step_mode,
            attributes: Self::attributes(),
        }
    }
}

} // verus!
