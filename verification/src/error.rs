//! The runtime's error type.
use vstd::prelude::*;
use vstd::string::StringExecFns;
use ash::vk;
use gpu_allocator::AllocationError;

verus! {

/// Declares `gpu_allocator`'s allocation error so that it can stand in a variant.
#[verifier::external_type_specification]
#[verifier::external_body]
pub struct ExAllocationError(AllocationError);

/// Declares std's I/O error so that it can stand in a variant.
#[verifier::external_type_specification]
#[verifier::external_body]
pub struct ExIoError(std::io::Error);

/// Why the GPU memory allocator refused: the cases of
/// `gpu_allocator::AllocationError`, with the details they carry.
#[derive(Debug)]
pub enum AllocFailure {
    OutOfMemory,
    FailedToMap(String),
    NoCompatibleMemoryTypeFound,
    InvalidAllocationCreateDesc,
    InvalidAllocatorCreateDesc(String),
    Internal(String),
    BarrierLayoutNeedsDevice10,
    CastableFormatsRequiresEnhancedBarriers,
    CastableFormatsRequiresAtLeastDevice12,
}

/// The text of an allocation failure, as the allocator words each case.
pub open spec fn alloc_failure_text(f: AllocFailure) -> Seq<char> {
    match f {
        AllocFailure::OutOfMemory => "Out of memory"@,
        AllocFailure::FailedToMap(d) => "Failed to map memory: "@ + d@,
        AllocFailure::NoCompatibleMemoryTypeFound => "No compatible memory type available"@,
        AllocFailure::InvalidAllocationCreateDesc => "Invalid AllocationCreateDesc"@,
        AllocFailure::InvalidAllocatorCreateDesc(d) => "Invalid AllocatorCreateDesc "@ + d@,
        AllocFailure::Internal(d) => "Internal error: "@ + d@,
        AllocFailure::BarrierLayoutNeedsDevice10 => "Initial `BARRIER_LAYOUT` needs at least `Device10`"@,
        AllocFailure::CastableFormatsRequiresEnhancedBarriers => "Castable formats require enhanced barriers"@,
        AllocFailure::CastableFormatsRequiresAtLeastDevice12 => "Castable formats require at least `Device12`"@,
    }
}

/// The text of an allocation failure: exactly `alloc_failure_text`.
pub fn alloc_failure_message(f: &AllocFailure) -> (s: String)
    ensures
        s@ == alloc_failure_text(*f),
{
    match f {
        AllocFailure::OutOfMemory => String::from_str("Out of memory"),
        AllocFailure::FailedToMap(d) => String::from_str("Failed to map memory: ").concat(d.as_str()),
        AllocFailure::NoCompatibleMemoryTypeFound => String::from_str("No compatible memory type available"),
        AllocFailure::InvalidAllocationCreateDesc => String::from_str("Invalid AllocationCreateDesc"),
        AllocFailure::InvalidAllocatorCreateDesc(d) => String::from_str("Invalid AllocatorCreateDesc ").concat(d.as_str()),
        AllocFailure::Internal(d) => String::from_str("Internal error: ").concat(d.as_str()),
        AllocFailure::BarrierLayoutNeedsDevice10 => String::from_str("Initial `BARRIER_LAYOUT` needs at least `Device10`"),
        AllocFailure::CastableFormatsRequiresEnhancedBarriers => String::from_str("Castable formats require enhanced barriers"),
        AllocFailure::CastableFormatsRequiresAtLeastDevice12 => String::from_str("Castable formats require at least `Device12`"),
    }
}

/// Converts `gpu_allocator::AllocationError` into the library's
/// `AllocFailure`, case by case, moving each case's detail. The outside
/// value is opaque here, so nothing is stated of which case comes back.
#[verifier::external_body]
fn alloc_failure_of(e: AllocationError) -> (f: AllocFailure) {
    match e {
        AllocationError::OutOfMemory => AllocFailure::OutOfMemory,
        AllocationError::FailedToMap(d) => AllocFailure::FailedToMap(d),
        AllocationError::NoCompatibleMemoryTypeFound => AllocFailure::NoCompatibleMemoryTypeFound,
        AllocationError::InvalidAllocationCreateDesc => AllocFailure::InvalidAllocationCreateDesc,
        AllocationError::InvalidAllocatorCreateDesc(d) => AllocFailure::InvalidAllocatorCreateDesc(d),
        AllocationError::Internal(d) => AllocFailure::Internal(d),
        AllocationError::BarrierLayoutNeedsDevice10 => AllocFailure::BarrierLayoutNeedsDevice10,
        AllocationError::CastableFormatsRequiresEnhancedBarriers => AllocFailure::CastableFormatsRequiresEnhancedBarriers,
        AllocationError::CastableFormatsRequiresAtLeastDevice12 => AllocFailure::CastableFormatsRequiresAtLeastDevice12,
    }
}

/// Everything that can go wrong in the runtime.
///
/// A Vulkan failure carries the raw `VkResult` code that the driver returned
/// (`ash::vk::Result::as_raw`).
#[derive(Debug)]
pub enum GpuError {
    Init(&'static str),
    Vk(&'static str, i32),
    Alloc(AllocFailure),
    Io(std::io::Error),
    Shader(String),
    Buffer(&'static str),
}

/// The text that `ash` displays for the `VkResult` with this raw code: the
/// description from the Vulkan registry for the codes it names, else the
/// code's debug form.
pub uninterp spec fn vk_result_display(code: i32) -> Seq<char>;

/// Calls `Display` of `ash::vk::Result` on `vk::Result::from_raw(code)`,
/// which writes a text that depends on the code alone.
#[verifier::external_body]
fn vk_result_text(code: i32) -> (s: String)
    ensures
        s@ == vk_result_display(code),
{
    vk::Result::from_raw(code).to_string()
}

/// Calls `Display` of `std::io::Error`. What text comes back is not stated
/// here.
#[verifier::external_body]
fn io_error_text(e: &std::io::Error) -> (s: String) {
    e.to_string()
}

impl GpuError {
    /// The message of an error whose text the library knows in full: every
    /// kind but the I/O one, whose detail is the operating system's.
    pub open spec fn message_spec(&self) -> Seq<char> {
        match self {
            GpuError::Init(msg) => "Vulkan init: "@ + msg@,
            GpuError::Vk(msg, code) => "Vulkan "@ + vk_result_display(*code) + ": "@ + msg@,
            GpuError::Shader(msg) => "Shader: "@ + msg@,
            GpuError::Buffer(msg) => "Buffer: "@ + msg@,
            GpuError::Alloc(f) => "GPU Alloc: "@ + alloc_failure_text(*f),
            GpuError::Io(_) => "I/O: "@,
        }
    }

    /// The human-readable message of the error: its kind, then its detail.
    /// For an I/O error the message starts with the kind and goes on with
    /// the text that std displays for the error.
    pub fn message(&self) -> (s: String)
        ensures
            !(self is Io) ==> s@ == self.message_spec(),
            self is Io ==> s@.take(self.message_spec().len() as int) == self.message_spec(),
    {
        match self {
            GpuError::Init(msg) => String::from_str("Vulkan init: ").concat(msg),
            GpuError::Vk(msg, code) => {
                let r = String::from_str("Vulkan ").concat(vk_result_text(*code).as_str());
                r.concat(": ").concat(msg)
            },
            GpuError::Shader(msg) => String::from_str("Shader: ").concat(msg.as_str()),
            GpuError::Buffer(msg) => String::from_str("Buffer: ").concat(msg),
            GpuError::Alloc(f) => String::from_str("GPU Alloc: ").concat(alloc_failure_message(f).as_str()),
            GpuError::Io(e) => {
                let s = String::from_str("I/O: ").concat(io_error_text(e).as_str());
                proof {
                    assert(s@.take(self.message_spec().len() as int) =~= self.message_spec());
                }
                s
            },
        }
    }
}

impl From<AllocationError> for GpuError {
    /// An allocation error, as the library's `AllocFailure`.
    fn from(value: AllocationError) -> (e: GpuError)
        ensures
            e is Alloc,
    {
        GpuError::Alloc(alloc_failure_of(value))
    }
}

/// Which case of `AllocFailure` an allocation error becomes is not modelled
/// (the outside error is opaque), so `from` promises only the `Alloc` kind.
impl vstd::std_specs::convert::FromSpecImpl<AllocationError> for GpuError {
    open spec fn obeys_from_spec() -> bool {
        false
    }

    open spec fn from_spec(v: AllocationError) -> GpuError {
        GpuError::Alloc(vstd::pervasive::arbitrary())
    }
}

impl From<std::io::Error> for GpuError {
    fn from(value: std::io::Error) -> (e: GpuError) {
        GpuError::Io(value)
    }
}

impl vstd::std_specs::convert::FromSpecImpl<std::io::Error> for GpuError {
    open spec fn obeys_from_spec() -> bool {
        true
    }

    open spec fn from_spec(v: std::io::Error) -> GpuError {
        GpuError::Io(v)
    }
}

} // verus!
