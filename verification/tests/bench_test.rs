use runtime::bench::histogram::histogram_cpu;
use runtime::bench::scan::scan_cpu;
use runtime::bench::scan::scan_kernel_files;
use runtime::bench::scan::scan_shaders;
use runtime::bench::scan::ScanShaders;
use runtime::bench::spmv::csr_row_ptrs;
use runtime::bench::spmv::spmv_plan;
use runtime::bench::spmv::SpmvShader;

#[test]
fn scan_four_nonzero_then_zeros() {
    let mut d = vec![0u32; 256];
    d[..4].copy_from_slice(&[1u32, 2, 3, 4]);
    let r = scan_cpu(&d);
    assert_eq!(r.len(), 256);
    assert_eq!(&r[..4], &[1, 3, 6, 10]);
    assert!(r[4..].iter().all(|&v| v == 10));
}

#[test]
fn scan_single_element() {
    assert_eq!(scan_cpu(&[42u32]), vec![42]);
}

#[test]
fn scan_two_elements() {
    assert_eq!(scan_cpu(&[5u32, 7u32]), vec![5, 12]);
}

#[test]
fn scan_wrapping_add() {
    assert_eq!(scan_cpu(&[u32::MAX, 1u32, 1u32]), vec![u32::MAX, 0, 1]);
}

#[test]
fn scan_non_power_of_two() {
    let d: Vec<u32> = (0u32..100).collect();
    let r = scan_cpu(&d);
    assert_eq!(r.len(), 100);
    assert_eq!(r[99], 4950);
    for i in 1..100 {
        assert_eq!(r[i], r[i - 1].wrapping_add(d[i]));
    }
}

#[test]
fn scan_empty() {
    assert!(scan_cpu(&[]).is_empty());
}

#[test]
fn histogram_all_same_bucket() {
    let h = histogram_cpu(&vec![42u32; 256]);
    assert_eq!(h.len(), 256);
    assert_eq!(h[42], 256);
    assert_eq!(h.iter().sum::<u32>(), 256);
}

#[test]
fn histogram_all_255() {
    let h = histogram_cpu(&vec![255u32; 256]);
    assert_eq!(h[255], 256);
    assert_eq!(h[0], 0);
}

#[test]
fn histogram_alternating() {
    let mut d = vec![0u32; 256];
    for i in (1..256).step_by(2) {
        d[i] = 127;
    }
    let h = histogram_cpu(&d);
    assert_eq!(h[0], 128);
    assert_eq!(h[127], 128);
    assert_eq!(h.iter().sum::<u32>(), 256);
}

#[test]
fn histogram_wraps_values_by_256() {
    let h = histogram_cpu(&[256u32, 513, 1023, 7]);
    assert_eq!(h[0], 1);
    assert_eq!(h[1], 1);
    assert_eq!(h[255], 1);
    assert_eq!(h[7], 1);
    assert_eq!(h.iter().sum::<u32>(), 4);
}

#[test]
fn histogram_of_nothing() {
    let h = histogram_cpu(&[]);
    assert_eq!(h, vec![0u32; 256]);
}

#[test]
fn csr_row_pointers_of_small_matrix() {
    assert_eq!(csr_row_ptrs(&[2, 1, 2]), vec![0, 2, 3, 5]);
    assert_eq!(csr_row_ptrs(&[]), vec![0]);
    assert_eq!(csr_row_ptrs(&[1, 1, 1, 1]), vec![0, 1, 2, 3, 4]);
}

#[test]
fn scan_shaders_follow_subgroup_arithmetic() {
    assert_eq!(scan_shaders(true), ScanShaders::WarpShuffle);
    assert_eq!(scan_shaders(false), ScanShaders::SharedMemory);
    assert_eq!(scan_kernel_files(ScanShaders::WarpShuffle), ("scan_pass1_warp.comp", "scan_pass2_warp.comp", "scan_pass3.comp"));
    assert_eq!(scan_kernel_files(ScanShaders::SharedMemory), ("scan_pass1.comp", "scan_pass2.comp", "scan_pass3.comp"));
}

#[test]
fn spmv_plan_tiled_with_subgroups_of_32() {
    let p = spmv_plan(262_144, true, 32);
    assert_eq!(p.shader, SpmvShader::Tiled);
    assert_eq!(p.workgroups.x, 32_768);
    assert_eq!((p.workgroups.y, p.workgroups.z), (1, 1));
    assert_eq!(spmv_plan(9, true, 32).workgroups.x, 2);
}

#[test]
fn spmv_plan_naive_without_subgroup_arithmetic() {
    let p = spmv_plan(262_144, false, 32);
    assert_eq!(p.shader, SpmvShader::Naive);
    assert_eq!(p.workgroups.x, 1_024);
    assert_eq!(spmv_plan(257, false, 32).workgroups.x, 2);
    assert_eq!(spmv_plan(0, false, 32).workgroups.x, 0);
    assert_eq!(spmv_plan(u32::MAX, false, 0).workgroups.x, 16_777_216);
}

#[test]
fn spmv_plan_naive_when_subgroups_do_not_fit() {
    assert_eq!(spmv_plan(100, true, 0).shader, SpmvShader::Naive);
    assert_eq!(spmv_plan(100, true, 512).shader, SpmvShader::Naive);
    assert_eq!(spmv_plan(100, true, 256).shader, SpmvShader::Tiled);
    assert_eq!(spmv_plan(100, true, 256).workgroups.x, 100);
}
