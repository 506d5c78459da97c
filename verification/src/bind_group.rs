//! Bind group layouts and bind groups, described by value.
//!
//! Both descriptor types are cache keys: equal descriptors stand for the
//! same device object, and the descriptor cache creates that object at most
//! once.

use vstd::prelude::*;

use crate::buffer::BufferId;
use crate::id::Id;
use crate::label::{label_eq, label_view};
use crate::resources::GpuResourceDescriptor;

verus! {

/// Handle tag for bind group layouts.
#[derive(Debug)]
pub struct BindGroupLayout;

/// Handle tag for bind groups.
#[derive(Debug)]
pub struct BindGroup;

pub type BindGroupLayoutId = Id<BindGroupLayout>;

pub type BindGroupId = Id<BindGroup>;

/// How a buffer is bound at a layout entry.
#[derive(Clone, Copy, Debug, PartialEq, Eq, Structural)]
pub enum BufferBindingType {
    Uniform,
    Storage { read_only: bool },
}

/// What kind of resource a layout entry admits.
#[derive(Clone, Copy, Debug, PartialEq, Eq, Structural)]
pub enum BindingType {
    Buffer { ty: BufferBindingType, has_dynamic_offset: bool, min_binding_size: u64 },
    Sampler,
    Texture { multisampled: bool },
    StorageTexture,
}

/// One entry of a bind group layout.
///
/// `visibility` is the shader stage mask; a `min_binding_size` of zero in a
/// buffer binding means no minimum is declared, and a `count` of zero means
/// the entry is not arrayed.
#[derive(Clone, Copy, Debug, PartialEq, Eq, Structural)]
pub struct BindGroupLayoutEntry {
    pub binding: u32,
    pub visibility: u32,
    pub ty: BindingType,
    pub count: u32,
}

/// Describes a bind group layout: a labelled list of entries.
pub struct BindGroupLayoutDescriptor {
    pub label: Option<String>,
    pub entries: Vec<BindGroupLayoutEntry>,
}

impl View for BindGroupLayoutDescriptor {
    type V = (Option<Seq<char>>, Seq<BindGroupLayoutEntry>);

    open spec fn view(&self) -> (Option<Seq<char>>, Seq<BindGroupLayoutEntry>) {
        (label_view(self.label), self.entries@)
    }
}

impl GpuResourceDescriptor for BindGroupLayoutDescriptor {
    type Resource = BindGroupLayout;

    fn desc_eq(&self, other: &Self) -> (r: bool) {
        if !label_eq(&self.label, &other.label) {
            return false;
        }
        if self.entries.len() != other.entries.len() {
            proof {
                assert(self.entries@ != other.entries@);
            }
            return false;
        }
        let n = self.entries.len();
        let mut i: usize = 0;
        while i < n
            invariant
                n == self.entries@.len() == other.entries@.len(),
                i <= n,
                forall|j: int| 0 <= j < i ==> self.entries@[j] == other.entries@[j],
            decreases n - i,
        {
            if self.entries[i] != other.entries[i] {
                proof {
                    assert(self.entries@ != other.entries@);
                }
                return false;
            }
            i = i + 1;
        }
        proof {
            assert(self.entries@ =~= other.entries@);
        }
        true
    }
}

/// A buffer region used as a binding resource.
#[derive(Clone, Copy, Debug)]
pub struct BufferBinding {
    pub buffer: BufferId,
    pub offset: u64,
    pub size: u64,
}

impl BufferBinding {
    /// The binding as a mathematical key: buffer handle, offset, and size,
    /// where a size of zero means the rest of the buffer.
    pub open spec fn key(self) -> (u64, u64, u64) {
        (self.buffer@, self.offset, self.size)
    }
}

/// The resource bound at a bind group entry.
#[derive(Clone, Copy, Debug)]
pub enum BindingResource {
    Buffer(BufferBinding),
}

impl BindingResource {
    /// The resource as a mathematical key.
    pub open spec fn key(self) -> (u64, u64, u64) {
        match self {
            BindingResource::Buffer(b) => b.key(),
        }
    }
}

/// One entry of a bind group: a binding index and the bound resource.
#[derive(Clone, Copy, Debug)]
pub struct BindGroupEntry {
    pub binding: u32,
    pub resource: BindingResource,
}

impl BindGroupEntry {
    /// The entry as a mathematical key.
    pub open spec fn key(self) -> (u32, (u64, u64, u64)) {
        (self.binding, self.resource.key())
    }
}

fn bind_group_entry_eq(a: &BindGroupEntry, b: &BindGroupEntry) -> (r: bool)
    ensures
        r == (a.key() == b.key()),
{
    if a.binding != b.binding {
        return false;
    }
    match (&a.resource, &b.resource) {
        (BindingResource::Buffer(x), BindingResource::Buffer(y)) => {
            x.buffer.value() == y.buffer.value() && x.offset == y.offset && x.size == y.size
        },
    }
}

/// Describes a bind group: a label, the layout it instantiates, and the
/// bound resources.
pub struct BindGroupDescriptor {
    pub label: Option<String>,
    pub layout: BindGroupLayoutId,
    pub entries: Vec<BindGroupEntry>,
}

impl View for BindGroupDescriptor {
    type V = (Option<Seq<char>>, u64, Seq<(u32, (u64, u64, u64))>);

    open spec fn view(&self) -> (Option<Seq<char>>, u64, Seq<(u32, (u64, u64, u64))>) {
        (label_view(self.label), self.layout@, self.entries@.map_values(|e: BindGroupEntry| e.key()))
    }
}

impl GpuResourceDescriptor for BindGroupDescriptor {
    type Resource = BindGroup;

    fn desc_eq(&self, other: &Self) -> (r: bool) {
        if !label_eq(&self.label, &other.label) {
            return false;
        }
        if self.layout.value() != other.layout.value() {
            return false;
        }
        if self.entries.len() != other.entries.len() {
            proof {
                assert(self.entries@.map_values(|e: BindGroupEntry| e.key()).len() != other.entries@
                    .map_values(|e: BindGroupEntry| e.key()).len());
            }
            return false;
        }
        let n = self.entries.len();
        let mut i: usize = 0;
        while i < n
            invariant
                n == self.entries@.len() == other.entries@.len(),
                i <= n,
                forall|j: int| 0 <= j < i ==> self.entries@[j].key() == other.entries@[j].key(),
            decreases n - i,
        {
            if !bind_group_entry_eq(&self.entries[i], &other.entries[i]) {
                proof {
                    let ka = self.entries@.map_values(|e: BindGroupEntry| e.key());
                    let kb = other.entries@.map_values(|e: BindGroupEntry| e.key());
                    assert(ka[i as int] != kb[i as int]);
                }
                return false;
            }
            i = i + 1;
        }
        proof {
            assert(self.entries@.map_values(|e: BindGroupEntry| e.key()) =~= other.entries@
                .map_values(|e: BindGroupEntry| e.key()));
        }
        true
    }
}

} // verus!
