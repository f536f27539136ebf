//! The vertex layout registry: the fixed attribute groups a mesh may carry
//! and their per-vertex sizes.
//!
//! Each group lives in its own raw buffer, so a group's stride is the size
//! of that group's own data, not an interleaved stride.

use vstd::prelude::*;

verus! {

/// One group of vertex attributes, stored in a separate (non-interleaved)
/// buffer.
#[derive(Clone, Copy, Debug, PartialEq, Eq, Structural)]
pub enum AttributeGroup {
    /// Three 32-bit floats.
    Position,
    /// Three 32-bit floats.
    Normal,
    /// Three 32-bit floats.
    Tangent,
    /// Two 32-bit floats.
    TexCoord,
    /// Four 16-bit joint indices.
    JointIds,
    /// Four 32-bit joint weights.
    JointWeights,
}

impl AttributeGroup {
    /// Bytes one vertex occupies in this group's buffer; equal to the
    /// buffer's stride, since the buffers are not interleaved.
    pub open spec fn size_spec(self) -> u32 {
        match self {
            AttributeGroup::Position => 12,
            AttributeGroup::Normal => 12,
            AttributeGroup::Tangent => 12,
            AttributeGroup::TexCoord => 8,
            AttributeGroup::JointIds => 8,
            AttributeGroup::JointWeights => 16,
        }
    }

    /// Bytes one vertex occupies in this group's buffer.
    pub fn size(self) -> (r: u32)
        ensures
            r == self.size_spec(),
    {
        match self {
            AttributeGroup::Position => 12,
            AttributeGroup::Normal => 12,
            AttributeGroup::Tangent => 12,
            AttributeGroup::TexCoord => 8,
            AttributeGroup::JointIds => 8,
            AttributeGroup::JointWeights => 16,
        }
    }
}

/// A raw vertex buffer binding registered with an effect.
#[derive(Clone, Copy, Debug, PartialEq, Eq, Structural)]
pub struct VertexBufferBinding {
    /// The attribute group served by the bound buffer.
    pub group: AttributeGroup,
    /// Distance in bytes between consecutive vertices in the buffer.
    pub stride: u32,
}

/// Total bytes per vertex consumed by a sequence of buffer bindings.
pub open spec fn stride_sum(bindings: Seq<VertexBufferBinding>) -> int
    decreases bindings.len(),
{
    if bindings.len() == 0 {
        0
    } else {
        stride_sum(bindings.drop_last()) + bindings.last().stride
    }
}

/// Total declared bytes per vertex of a sequence of attribute groups.
pub open spec fn size_sum(groups: Seq<AttributeGroup>) -> int
    decreases groups.len(),
{
    if groups.len() == 0 {
        0
    } else {
        size_sum(groups.drop_last()) + groups.last().size_spec()
    }
}

} // verus!
