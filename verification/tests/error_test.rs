use runtime::error::AllocFailure;
use runtime::error::GpuError;

#[test]
fn display_init() {
    let e: GpuError = GpuError::Init("create_instance");
    let s: String = e.message();
    assert!(s.contains("Vulkan init"));
    assert!(s.contains("create_instance"));
}

#[test]
fn display_vk() {
    let e: GpuError = GpuError::Vk("alloc_buffers", ash::vk::Result::ERROR_OUT_OF_DEVICE_MEMORY.as_raw());
    let s: String = e.message();
    assert!(s.contains("alloc_buffers"));
    assert!(s.contains("Vulkan"));
}

#[test]
fn display_alloc() {
    let e: GpuError = GpuError::Alloc(AllocFailure::OutOfMemory);
    let s: String = e.message();
    assert!(s.contains("GPU Alloc"));
}

#[test]
fn display_io() {
    let e: GpuError = GpuError::Io(std::io::Error::new(std::io::ErrorKind::NotFound, "file missing"));
    let s: String = e.message();
    assert!(s.contains("I/O"));
}

#[test]
fn display_shader() {
    let e: GpuError = GpuError::Shader("invalid spirv".to_string());
    let s: String = e.message();
    assert!(s.contains("Shader"));
    assert!(s.contains("invalid spirv"));
}

#[test]
fn display_buffer() {
    let e: GpuError = GpuError::Buffer("size mismatch");
    let s: String = e.message();
    assert!(s.contains("Buffer"));
    assert!(s.contains("size mismatch"));
}

#[test]
fn from_alloc_error() {
    let err: GpuError = gpu_allocator::AllocationError::OutOfMemory.into();
    assert!(matches!(err, GpuError::Alloc(_)));
    assert_eq!(err.message(), "GPU Alloc: Out of memory");
}

#[test]
fn from_io_error() {
    let io_err: std::io::Error = std::io::Error::new(std::io::ErrorKind::Other, "io failure");
    let err: GpuError = io_err.into();
    assert!(matches!(err, GpuError::Io(_)));
}

#[test]
fn message_texts_exactly() {
    assert_eq!(GpuError::Init("x").message(), "Vulkan init: x");
    assert_eq!(GpuError::Shader("bad".to_string()).message(), "Shader: bad");
    assert_eq!(GpuError::Buffer("b").message(), "Buffer: b");
    assert_eq!(
        GpuError::Vk("alloc_buffers", -2).message(),
        "Vulkan A device memory allocation has failed: alloc_buffers"
    );
    assert_eq!(GpuError::Alloc(AllocFailure::OutOfMemory).message(), "GPU Alloc: Out of memory");
    assert_eq!(
        GpuError::Io(std::io::Error::new(std::io::ErrorKind::NotFound, "file missing")).message(),
        "I/O: file missing"
    );
}

#[test]
fn message_of_unnamed_vk_code_uses_debug_form() {
    let s = GpuError::Vk("queue_submit", 12345).message();
    assert!(s.starts_with("Vulkan "));
    assert!(s.ends_with(": queue_submit"));
    assert!(s.contains("12345"));
}

#[test]
fn alloc_messages_carry_details() {
    let e = GpuError::Alloc(AllocFailure::FailedToMap("no host pointer".to_string()));
    assert_eq!(e.message(), "GPU Alloc: Failed to map memory: no host pointer");
    let e = GpuError::Alloc(AllocFailure::InvalidAllocatorCreateDesc("no device".to_string()));
    assert_eq!(e.message(), "GPU Alloc: Invalid AllocatorCreateDesc no device");
    let e = GpuError::Alloc(AllocFailure::Internal("pool".to_string()));
    assert_eq!(e.message(), "GPU Alloc: Internal error: pool");
    assert_eq!(
        GpuError::Alloc(AllocFailure::NoCompatibleMemoryTypeFound).message(),
        "GPU Alloc: No compatible memory type available"
    );
}

#[test]
fn from_alloc_error_keeps_detail() {
    let err: GpuError = gpu_allocator::AllocationError::Internal("heap".to_string()).into();
    assert_eq!(err.message(), "GPU Alloc: Internal error: heap");
    let err: GpuError = gpu_allocator::AllocationError::CastableFormatsRequiresEnhancedBarriers.into();
    assert_eq!(err.message(), "GPU Alloc: Castable formats require enhanced barriers");
}
