//! The decisions taken while a Vulkan context is set up: which physical
//! device, which queue family, whether validation is on, and the device's
//! name. The Vulkan calls themselves are made by the caller, which hands
//! their results here as plain values.
use vstd::prelude::*;
use vstd::string::StringExecFns;
use crate::error::GpuError;

verus! {

/// The kind of a physical device, as far as the choice of device goes.
#[derive(PartialEq, Eq, Structural, Clone, Copy, Debug)]
pub enum DeviceKind {
    DiscreteGpu,
    Other,
}

/// Picks a physical device: the first discrete GPU, else the first device.
/// Refused when there is no device at all.
pub fn pick_physical_device(kinds: &[DeviceKind]) -> (r: Result<usize, GpuError>)
    ensures
        kinds@.len() == 0 <==> r is Err,
        r matches Err(e) ==> e matches GpuError::Init(m) && m@ == "No GPUs found"@,
        r matches Ok(i) ==> i < kinds@.len() && {
            ||| kinds@[i as int] == DeviceKind::DiscreteGpu
                && forall|j: int| 0 <= j < i ==> kinds@[j] != DeviceKind::DiscreteGpu
            ||| i == 0 && forall|j: int| 0 <= j < kinds@.len() ==> kinds@[j] != DeviceKind::DiscreteGpu
        },
{
    let mut i: usize = 0;
    while i < kinds.len()
        invariant
            i <= kinds@.len(),
            forall|j: int| 0 <= j < i ==> kinds@[j] != DeviceKind::DiscreteGpu,
        decreases kinds@.len() - i,
    {
        if kinds[i] == DeviceKind::DiscreteGpu {
            return Ok(i);
        }
        i = i + 1;
    }
    if kinds.len() > 0 {
        Ok(0)
    } else {
        Err(GpuError::Init("No GPUs found"))
    }
}

/// The first queue family that supports compute work, given for each family
/// whether it does (Vulkan counts queue families with a `u32`).
pub fn find_compute_queue_family(supports_compute: &[bool]) -> (r: Option<u32>)
    requires
        supports_compute@.len() <= u32::MAX,
    ensures
        match r {
            Some(i) => i < supports_compute@.len() && supports_compute@[i as int]
                && forall|j: int| 0 <= j < i ==> !supports_compute@[j],
            None => forall|j: int| 0 <= j < supports_compute@.len() ==> !supports_compute@[j],
        },
{
    let mut i: usize = 0;
    while i < supports_compute.len()
        invariant
            i <= supports_compute@.len(),
            supports_compute@.len() <= u32::MAX,
            forall|j: int| 0 <= j < i ==> !supports_compute@[j],
        decreases supports_compute@.len() - i,
    {
        if supports_compute[i] {
            return Some(i as u32);
        }
        i = i + 1;
    }
    None
}

/// Whether the name of an instance layer is that of the Khronos validation
/// layer.
pub open spec fn is_validation_layer(name: Seq<char>) -> bool {
    name == "VK_LAYER_KHRONOS_validation"@
}

/// Whether the Khronos validation layer is among the available layers.
pub fn has_validation_layer(names: &Vec<String>) -> (b: bool)
    ensures
        b == exists|i: int| 0 <= i < names@.len() && is_validation_layer(#[trigger] names@[i]@),
{
    let mut i: usize = 0;
    while i < names.len()
        invariant
            i <= names@.len(),
            forall|j: int| 0 <= j < i ==> !is_validation_layer(#[trigger] names@[j]@),
        decreases names@.len() - i,
    {
        let n = names[i].as_str();
        let chars = crate::shaderc::text::chars_of(n);
        if crate::shaderc::text::spells(chars.as_slice(), "VK_LAYER_KHRONOS_validation") {
            assert(is_validation_layer(names@[i as int]@));
            return true;
        }
        i = i + 1;
    }
    false
}

/// The length of a device name stored as a NUL-terminated byte array: up to
/// the first NUL, or the whole array when there is none.
pub fn device_name_len(raw: &[u8]) -> (n: usize)
    ensures
        n <= raw@.len(),
        forall|j: int| 0 <= j < n ==> raw@[j] != 0,
        n < raw@.len() ==> raw@[n as int] == 0,
{
    let mut i: usize = 0;
    while i < raw.len()
        invariant
            i <= raw@.len(),
            forall|j: int| 0 <= j < i ==> raw@[j] != 0,
        decreases raw@.len() - i,
    {
        if raw[i] == 0 {
            return i;
        }
        i = i + 1;
    }
    i
}

/// The label of the severity of a validation message, from the bits of
/// `VkDebugUtilsMessageSeverityFlagBitsEXT`.
pub fn severity_label(bits: u32) -> (s: &'static str)
    ensures
        bits == 0x1000 ==> s@ == "ERROR"@,
        bits == 0x100 ==> s@ == "WARNING"@,
        bits == 0x10 ==> s@ == "INFO"@,
        bits != 0x1000 && bits != 0x100 && bits != 0x10 ==> s@ == "VERBOSE"@,
{
    if bits == 0x1000 {
        "ERROR"
    } else if bits == 0x100 {
        "WARNING"
    } else if bits == 0x10 {
        "INFO"
    } else {
        "VERBOSE"
    }
}

/// The bit of Vulkan's subgroup feature flags for arithmetic operations.
pub const SUBGROUP_FEATURE_ARITHMETIC: u32 = 0x4;

/// The bit of Vulkan's shader stage flags for the compute stage.
pub const SHADER_STAGE_COMPUTE: u32 = 0x20;

/// Whether a device offers subgroup arithmetic (such as
/// `subgroupInclusiveAdd`) to compute shaders, from the subgroup operations
/// and the shader stages its subgroup properties list.
pub fn subgroup_arithmetic(supported_operations: u32, supported_stages: u32) -> (b: bool)
    ensures
        b == ((supported_operations & SUBGROUP_FEATURE_ARITHMETIC) != 0
            && (supported_stages & SHADER_STAGE_COMPUTE) != 0),
{
    (supported_operations & SUBGROUP_FEATURE_ARITHMETIC) != 0 && (supported_stages & SHADER_STAGE_COMPUTE) != 0
}

} // verus!
