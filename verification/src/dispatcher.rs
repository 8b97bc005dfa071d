//! Dispatch geometry: how many workgroups a compute dispatch launches.
use vstd::prelude::*;
use ash::vk;

verus! {

/// Declares the Vulkan command-buffer handle of `ash` so that it can stand in fields.
#[verifier::external_type_specification]
#[verifier::external_body]
pub struct ExCommandBuffer(vk::CommandBuffer);

/// Declares the Vulkan fence handle of `ash` so that it can stand in fields.
#[verifier::external_type_specification]
#[verifier::external_body]
pub struct ExFence(vk::Fence);

/// A command buffer and the fence that signals its completion.
pub struct Dispatcher {
    pub command_buffer: vk::CommandBuffer,
    pub fence: vk::Fence,
}

/// Number of workgroups launched along each axis.
#[derive(Clone, Copy)]
pub struct WorkgroupCount {
    pub x: u32,
    pub y: u32,
    pub z: u32,
}

/// The number of groups of `local_size` items needed to cover `total` items.
pub open spec fn ceil_div(total: int, local_size: int) -> int {
    (total + local_size - 1) / local_size
}

/// `ceil_div` groups cover every item, and one group fewer would not.
pub proof fn lemma_ceil_div_is_minimal_cover(total: int, local_size: int)
    requires
        total >= 0,
        local_size > 0,
    ensures
        ceil_div(total, local_size) >= 0,
        ceil_div(total, local_size) * local_size >= total,
        ceil_div(total, local_size) * local_size < total + local_size,
{
    let q = ceil_div(total, local_size);
    let r = (total + local_size - 1) % local_size;
    assert(q * local_size + r == total + local_size - 1 && 0 <= r < local_size) by (nonlinear_arith)
        requires
            q == (total + local_size - 1) / local_size,
            r == (total + local_size - 1) % local_size,
            local_size > 0,
    ;
    assert(q >= 0) by (nonlinear_arith)
        requires
            q == (total + local_size - 1) / local_size,
            total >= 0,
            local_size > 0,
    ;
}

impl Dispatcher {
    /// One-dimensional launch geometry: enough workgroups of `local_size`
    /// invocations to cover `total_elements`, one row and one layer.
    pub fn workgroup_count_1d(total_elements: u32, local_size: u32) -> (wg: WorkgroupCount)
        requires
            local_size > 0,
            total_elements + local_size <= u32::MAX,
        ensures
            wg.x == ceil_div(total_elements as int, local_size as int),
            wg.x * local_size >= total_elements,
            wg.x * local_size < total_elements + local_size,
            wg.y == 1,
            wg.z == 1,
    {
        let x = (total_elements + local_size - 1) / local_size;
        proof {
            lemma_ceil_div_is_minimal_cover(total_elements as int, local_size as int);
        }
        WorkgroupCount { x, y: 1, z: 1 }
    }
}

} // verus!
