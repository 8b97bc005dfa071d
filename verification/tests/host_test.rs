use runtime::cli::compile_plan;
use runtime::cli::CompileArgs;
use runtime::cli::ZoomPreset;
use runtime::context::device_name_len;
use runtime::context::find_compute_queue_family;
use runtime::context::has_validation_layer;
use runtime::context::pick_physical_device;
use runtime::context::severity_label;
use runtime::context::subgroup_arithmetic;
use runtime::context::DeviceKind;
use runtime::demos::mandelbrot::count_mismatches;
use runtime::demos::mandelbrot::mandelbrot_workgroups;
use runtime::demos::mandelbrot::output_bytes;
use runtime::demos::mandelbrot::render_output_bytes;
use runtime::error::GpuError;
use runtime::pipeline::descriptor_sizing;
use runtime::pipeline::spirv_words;
use runtime::pipeline::BufferBinding;
use runtime::profiler::lookup_peak_bandwidth;
use runtime::shaderc::status::check_c_string;
use runtime::shaderc::status::compilation_error;
use runtime::shaderc::status::compile_outcome;
use runtime::shaderc::status::error_from_status;
use runtime::shaderc::status::CArg;

fn args() -> CompileArgs {
    CompileArgs {
        input: "in.comp".to_string(),
        output: "out.spv".to_string(),
        no_preprocess: false,
        no_unroll: false,
        no_ast_opt: false,
        include_dirs: vec![],
        defines: vec![],
        optimize: false,
        validate: false,
        verbose: false,
    }
}

#[test]
fn plan_runs_every_pass_by_default() {
    let p = compile_plan(&args());
    assert!(p.preprocess && p.unroll && p.constant_propagation);
    assert!(!p.optimize && !p.validate);
    assert!(p.include_dirs.is_none() && p.defines.is_none());
}

#[test]
fn plan_joins_include_dirs_and_defines() {
    let mut a = args();
    a.include_dirs = vec!["inc".to_string(), "lib/shaders".to_string()];
    a.defines = vec!["N=4".to_string()];
    a.no_ast_opt = true;
    a.optimize = true;
    let p = compile_plan(&a);
    assert_eq!(p.include_dirs.as_deref(), Some("inc;lib/shaders"));
    assert_eq!(p.defines.as_deref(), Some("N=4"));
    assert!(!p.constant_propagation);
    assert!(p.optimize);
}

#[test]
fn zoom_presets_are_distinct() {
    assert!(ZoomPreset::Full != ZoomPreset::Seahorse);
    assert!(ZoomPreset::Elephant == ZoomPreset::Elephant);
    assert!(ZoomPreset::Spiral != ZoomPreset::Elephant);
}

#[test]
fn binding_slot() {
    let b = BufferBinding { slot: 3 };
    assert_eq!(b.slot, 3);
}

#[test]
fn picks_first_discrete_gpu() {
    assert_eq!(pick_physical_device(&[DeviceKind::Other, DeviceKind::DiscreteGpu, DeviceKind::DiscreteGpu]).unwrap(), 1);
    assert_eq!(pick_physical_device(&[DeviceKind::Other, DeviceKind::Other]).unwrap(), 0);
    match pick_physical_device(&[]) {
        Err(GpuError::Init(m)) => assert_eq!(m, "No GPUs found"),
        _ => panic!("expected an init error"),
    }
}

#[test]
fn finds_compute_queue_family() {
    assert_eq!(find_compute_queue_family(&[false, true, true]), Some(1));
    assert_eq!(find_compute_queue_family(&[false, false]), None);
}

#[test]
fn detects_validation_layer() {
    let layers = vec!["VK_LAYER_LUNARG_monitor".to_string(), "VK_LAYER_KHRONOS_validation".to_string()];
    assert!(has_validation_layer(&layers));
    assert!(!has_validation_layer(&vec!["VK_LAYER_KHRONOS_validation2".to_string()]));
}

#[test]
fn device_name_stops_at_nul() {
    assert_eq!(device_name_len(b"RTX\0junk"), 3);
    assert_eq!(device_name_len(b"abc"), 3);
    assert_eq!(device_name_len(b"\0"), 0);
}

#[test]
fn severity_labels() {
    assert_eq!(severity_label(0x1000), "ERROR");
    assert_eq!(severity_label(0x100), "WARNING");
    assert_eq!(severity_label(0x10), "INFO");
    assert_eq!(severity_label(0x1), "VERBOSE");
}

#[test]
fn mandelbrot_sizes() {
    assert_eq!(render_output_bytes(1920, 1080).unwrap(), 1920 * 1080 * 4);
    match render_output_bytes(0, 10) {
        Err(GpuError::Buffer(m)) => assert_eq!(m, "image dimensions must be non-zero"),
        _ => panic!("expected a buffer error"),
    }
    match output_bytes(u32::MAX, u32::MAX) {
        Err(GpuError::Buffer(m)) => assert_eq!(m, "output buffer size overflow"),
        _ => panic!("expected an overflow"),
    }
    assert_eq!(output_bytes(0, 5).unwrap(), 0);
}

#[test]
fn mandelbrot_grid() {
    let wg = mandelbrot_workgroups(1920, 1080);
    assert_eq!((wg.x, wg.y, wg.z), (120, 68, 1));
    let wg = mandelbrot_workgroups(17, 16);
    assert_eq!((wg.x, wg.y, wg.z), (2, 1, 1));
}

#[test]
fn mismatches_count_differences_above_five() {
    assert_eq!(count_mismatches(&[10, 10, 10, 0], &[15, 16, 4, 6]), 3);
    assert_eq!(count_mismatches(&[1, 2, 3], &[1]), 0);
}

#[test]
fn peak_bandwidth_table() {
    assert_eq!(lookup_peak_bandwidth("NVIDIA GeForce RTX 2060 SUPER"), 448);
    assert_eq!(lookup_peak_bandwidth("NVIDIA GeForce RTX 2060"), 100);
    assert_eq!(lookup_peak_bandwidth("NVIDIA GeForce RTX 4090"), 1008);
    assert_eq!(lookup_peak_bandwidth("AMD Radeon"), 100);
    assert_eq!(lookup_peak_bandwidth(""), 100);
}

#[test]
fn spirv_words_little_endian() {
    assert_eq!(spirv_words(&[0x03, 0x02, 0x23, 0x07, 0x00, 0x00, 0x01, 0x00, 0xff]), vec![0x0723_0203, 0x0001_0000]);
    assert!(spirv_words(&[1, 2, 3]).is_empty());
}

#[test]
fn status_messages() {
    match error_from_status(-3, b"bad include\0tail") {
        GpuError::Shader(m) => assert_eq!(m, "operation failed (-3): bad include"),
        _ => panic!("expected a shader error"),
    }
    match error_from_status(7, b"\0") {
        GpuError::Shader(m) => assert_eq!(m, "operation failed with code 7"),
        _ => panic!("expected a shader error"),
    }
    match compilation_error(i32::MIN) {
        GpuError::Shader(m) => assert_eq!(m, "compilation failed with code -2147483648"),
        _ => panic!("expected a shader error"),
    }
    assert_eq!(compile_outcome(0, b"warning: x\0").unwrap(), "warning: x");
    match compile_outcome(1, b"error: y\0") {
        Err(GpuError::Shader(m)) => assert_eq!(m, "compilation failed(1): error: y"),
        _ => panic!("expected a shader error"),
    }
}

#[test]
fn c_string_checks() {
    assert!(check_c_string("void main() {}", CArg::Source).is_ok());
    match check_c_string("a\0b", CArg::Defines) {
        Err(GpuError::Shader(m)) => assert_eq!(m, "defines contains null byte"),
        _ => panic!("expected a shader error"),
    }
}

#[test]
fn descriptor_sizing_of_three_bindings() {
    let bindings = vec![BufferBinding { slot: 0 }, BufferBinding { slot: 1 }, BufferBinding { slot: 2 }];
    let s = descriptor_sizing(&bindings);
    assert_eq!(s.binding_count, 3);
    assert_eq!(s.pool_descriptors, 96);
    assert_eq!(s.max_sets, 32);
}

#[test]
fn descriptor_sizing_of_no_bindings() {
    let s = descriptor_sizing(&[]);
    assert_eq!(s.binding_count, 0);
    assert_eq!(s.pool_descriptors, 0);
    assert_eq!(s.max_sets, 32);
}

#[test]
fn subgroup_arithmetic_needs_the_operation_and_the_compute_stage() {
    assert!(subgroup_arithmetic(0b1111, 0x20));
    assert!(subgroup_arithmetic(0x4, 0x7FFF_FFFF));
    assert!(!subgroup_arithmetic(0b1011, 0x20));
    assert!(!subgroup_arithmetic(0b1111, 0x1F));
    assert!(!subgroup_arithmetic(0, 0));
}
