//! The integer side of the Mandelbrot demo: the size of its output, its
//! dispatch grid, and the comparison of a GPU image with the CPU one.
use vstd::prelude::*;
use crate::dispatcher::ceil_div;
use crate::dispatcher::lemma_ceil_div_is_minimal_cover;
use crate::dispatcher::WorkgroupCount;
use crate::error::GpuError;

verus! {

/// Workgroups are 16 by 16 invocations, one per pixel.
pub const WG: u32 = 16;

/// The size in bytes of an image of `width` by `height` iteration counts
/// (`u32` each), when it fits in 64 bits.
pub fn output_bytes(width: u32, height: u32) -> (r: Result<u64, GpuError>)
    ensures
        match r {
            Ok(n) => n == width * height * 4,
            Err(e) => width * height * 4 > u64::MAX && (e matches GpuError::Buffer(m)
                && m@ == "output buffer size overflow"@),
        },
{
    let w = width as u64;
    let h = height as u64;
    proof {
        assert(w * h <= 0xffff_ffff * 0xffff_ffff) by (nonlinear_arith)
            requires
                w <= 0xffff_ffff,
                h <= 0xffff_ffff,
        ;
    }
    let total: u64 = w * h;
    match total.checked_mul(4) {
        Some(n) => Ok(n),
        None => Err(GpuError::Buffer("output buffer size overflow")),
    }
}

/// The size of the image that a render of `width` by `height` pixels
/// produces; a dimension of zero is refused.
pub fn render_output_bytes(width: u32, height: u32) -> (r: Result<u64, GpuError>)
    ensures
        (width == 0 || height == 0) ==> (r matches Err(GpuError::Buffer(m))
            && m@ == "image dimensions must be non-zero"@),
        (width != 0 && height != 0) ==> match r {
            Ok(n) => n == width * height * 4,
            Err(e) => width * height * 4 > u64::MAX && (e matches GpuError::Buffer(m)
                && m@ == "output buffer size overflow"@),
        },
{
    if width == 0 || height == 0 {
        return Err(GpuError::Buffer("image dimensions must be non-zero"));
    }
    output_bytes(width, height)
}

/// The dispatch grid of a render: one 16 by 16 workgroup per started tile
/// of the image, so that every pixel has an invocation and no workgroup
/// lies wholly outside the image.
pub fn mandelbrot_workgroups(width: u32, height: u32) -> (wg: WorkgroupCount)
    ensures
        wg.x == ceil_div(width as int, WG as int),
        wg.y == ceil_div(height as int, WG as int),
        wg.z == 1,
        wg.x * WG >= width && wg.x * WG < width + WG,
        wg.y * WG >= height && wg.y * WG < height + WG,
{
    let wg_x: u32 = width / WG + if width % WG != 0 { 1 } else { 0 };
    let wg_y: u32 = height / WG + if height % WG != 0 { 1 } else { 0 };
    proof {
        let w = width as int;
        let h = height as int;
        assert(ceil_div(w, 16) == w / 16 + if w % 16 != 0 { 1int } else { 0int }) by (nonlinear_arith)
            requires
                w >= 0,
        ;
        assert(ceil_div(h, 16) == h / 16 + if h % 16 != 0 { 1int } else { 0int }) by (nonlinear_arith)
            requires
                h >= 0,
        ;
        lemma_ceil_div_is_minimal_cover(w, 16);
        lemma_ceil_div_is_minimal_cover(h, 16);
    }
    WorkgroupCount { x: wg_x, y: wg_y, z: 1 }
}

/// Whether two iteration counts differ by more than 5.
pub open spec fn differs(a: u32, b: u32) -> bool {
    a > b + 5 || b > a + 5
}

/// How many of the first `n` pixels differ between two images.
pub open spec fn mismatch_count(a: Seq<u32>, b: Seq<u32>, n: int) -> int
    decreases n,
{
    if n <= 0 {
        0
    } else {
        mismatch_count(a, b, n - 1) + if differs(a[n - 1], b[n - 1]) { 1int } else { 0int }
    }
}

/// How many pixels of the GPU image differ from the CPU one by more than 5
/// iterations, over the pixels that both images have.
pub fn count_mismatches(gpu: &[u32], cpu: &[u32]) -> (n: usize)
    ensures
        n == mismatch_count(gpu@, cpu@, if gpu@.len() < cpu@.len() { gpu@.len() as int } else { cpu@.len() as int }),
{
    let len = if gpu.len() < cpu.len() { gpu.len() } else { cpu.len() };
    let mut count: usize = 0;
    let mut i: usize = 0;
    while i < len
        invariant
            i <= len,
            len <= gpu@.len(),
            len <= cpu@.len(),
            count <= i,
            count == mismatch_count(gpu@, cpu@, i as int),
        decreases len - i,
    {
        let a = gpu[i];
        let b = cpu[i];
        let diff: u32 = if a > b { a - b } else { b - a };
        if diff > 5 {
            count = count + 1;
        }
        i = i + 1;
    }
    count
}

} // verus!
