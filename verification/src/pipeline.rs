//! Pipeline layouts, described by value.

use vstd::prelude::*;

use crate::bind_group::BindGroupLayoutId;
use crate::id::Id;
use crate::label::{label_eq, label_view};
use crate::resources::GpuResourceDescriptor;

verus! {

/// Handle tag for pipeline layouts.
#[derive(Debug)]
pub struct PipelineLayout;

pub type PipelineLayoutId = Id<PipelineLayout>;

/// A push constant range: a shader stage mask and a byte range.
#[derive(Clone, Copy, Debug, PartialEq, Eq, Structural)]
pub struct PushConstantRange {
    pub stages: u32,
    pub start: u32,
    pub end: u32,
}

/// Describes a pipeline layout: the bind group layouts it composes and its
/// push constant ranges.
pub struct PipelineLayoutDescriptor {
    pub label: Option<String>,
    pub bind_group_layouts: Vec<BindGroupLayoutId>,
    pub push_constant_ranges: Vec<PushConstantRange>,
}

impl View for PipelineLayoutDescriptor {
    type V = (Option<Seq<char>>, Seq<u64>, Seq<PushConstantRange>);

    open spec fn view(&self) -> (Option<Seq<char>>, Seq<u64>, Seq<PushConstantRange>) {
        (
            label_view(self.label),
            self.bind_group_layouts@.map_values(|id: BindGroupLayoutId| id@),
            self.push_constant_ranges@,
        )
    }
}

impl GpuResourceDescriptor for PipelineLayoutDescriptor {
    type Resource = PipelineLayout;

    fn desc_eq(&self, other: &Self) -> (r: bool) {
        if !label_eq(&self.label, &other.label) {
            return false;
        }
        if self.bind_group_layouts.len() != other.bind_group_layouts.len() {
            proof {
                assert(self@.1.len() != other@.1.len());
            }
            return false;
        }
        let n = self.bind_group_layouts.len();
        let mut i: usize = 0;
        while i < n
            invariant
                n == self.bind_group_layouts@.len() == other.bind_group_layouts@.len(),
                i <= n,
                forall|j: int|
                    0 <= j < i ==> self.bind_group_layouts@[j]@ == other.bind_group_layouts@[j]@,
            decreases n - i,
        {
            if self.bind_group_layouts[i].value() != other.bind_group_layouts[i].value() {
                proof {
                    assert(self@.1[i as int] != other@.1[i as int]);
                }
                return false;
            }
            i = i + 1;
        }
        if self.push_constant_ranges.len() != other.push_constant_ranges.len() {
            return false;
        }
        let m = self.push_constant_ranges.len();
        let mut k: usize = 0;
        while k < m
            invariant
                m == self.push_constant_ranges@.len() == other.push_constant_ranges@.len(),
                k <= m,
                forall|j: int|
                    0 <= j < k ==> self.push_constant_ranges@[j] == other.push_constant_ranges@[j],
            decreases m - k,
        {
            if self.push_constant_ranges[k] != other.push_constant_ranges[k] {
                proof {
                    assert(self@.2 != other@.2);
                }
                return false;
            }
            k = k + 1;
        }
        proof {
            assert(self@.1 =~= other@.1);
            assert(self@.2 =~= other@.2);
        }
        true
    }
}

} // verus!
