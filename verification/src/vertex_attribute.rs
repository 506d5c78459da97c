//! Vertex attribute formats.

use vstd::prelude::*;

verus! {

/// The scalar format of a vertex attribute.
#[derive(Clone, Copy, Debug, PartialEq, Eq, Structural)]
pub enum VertexFormat {
    Sint32,
    Uint32,
    Float32,
}

/// One attribute of a vertex buffer layout.
#[derive(Clone, Copy, Debug, PartialEq, Eq, Structural)]
pub struct VertexAttribute {
    pub format: VertexFormat,
    pub offset: u64,
    pub shader_location: u32,
}

/// Implemented by scalar types that can stand as a vertex attribute.
pub trait AsVertexAttribute {
    /// The format such an attribute has.
    fn vertex_format() -> VertexFormat;
}

impl AsVertexAttribute for i32 {
    fn vertex_format() -> (r: VertexFormat)
        ensures
            r == VertexFormat::Sint32,
    {
        VertexFormat::Sint32
    }
}

impl AsVertexAttribute for u32 {
    fn vertex_format() -> (r: VertexFormat)
        ensures
            r == VertexFormat::Uint32,
    {
        VertexFormat::Uint32
    }
}

} // verus!
