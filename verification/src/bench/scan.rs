//! The CPU reference of the prefix-sum benchmark.
use vstd::prelude::*;

verus! {

/// The sum of a sequence of integers.
pub open spec fn seq_sum(s: Seq<u32>) -> int
    decreases s.len(),
{
    if s.len() == 0 {
        0
    } else {
        seq_sum(s.drop_last()) + s.last()
    }
}

/// The inclusive prefix sum of the first `n` values, wrapped to 32 bits as
/// the GPU's `uint` arithmetic wraps.
pub open spec fn prefix_sum(s: Seq<u32>, n: int) -> u32 {
    (seq_sum(s.take(n)) % 0x1_0000_0000) as u32
}

proof fn lemma_wrapping_step(acc: u32, total: int, v: u32)
    requires
        acc == total % 0x1_0000_0000,
        total >= 0,
    ensures
        vstd::wrapping::u32_specs::wrapping_add(acc, v) == (total + v) % 0x1_0000_0000,
{
    let m: int = 0x1_0000_0000;
    assert(total == (total / m) * m + acc) by (nonlinear_arith)
        requires
            acc == total % m,
            m > 0,
    ;
    let q = total / m;
    if acc + v > u32::MAX {
        assert((total + v) % m == acc + v - m) by (nonlinear_arith)
            requires
                total + v == (q + 1) * m + (acc + v - m),
                0 <= acc + v - m < m,
                m > 0,
        ;
    } else {
        assert((total + v) % m == acc + v) by (nonlinear_arith)
            requires
                total + v == q * m + (acc + v),
                0 <= acc + v < m,
                m > 0,
        ;
    }
}

proof fn lemma_seq_sum_nonneg(s: Seq<u32>)
    ensures
        seq_sum(s) >= 0,
    decreases s.len(),
{
    if s.len() > 0 {
        lemma_seq_sum_nonneg(s.drop_last());
    }
}

/// The inclusive prefix sums of `data` with wrapping `u32` addition: each
/// output is the running total up to and including its input.
pub fn scan_cpu(data: &[u32]) -> (result: Vec<u32>)
    ensures
        result@.len() == data@.len(),
        forall|i: int| 0 <= i < data@.len() ==> #[trigger] result@[i] == prefix_sum(data@, i + 1),
        data@.len() > 0 ==> result@[0] == data@[0],
        forall|i: int| 1 <= i < data@.len() ==> #[trigger] result@[i]
            == vstd::wrapping::u32_specs::wrapping_add(result@[i - 1], data@[i]),
{
    let mut result: Vec<u32> = Vec::with_capacity(data.len());
    let mut sum: u32 = 0;
    let mut i: usize = 0;
    while i < data.len()
        invariant
            i <= data@.len(),
            result@.len() == i,
            sum as int == seq_sum(data@.take(i as int)) % 0x1_0000_0000,
            forall|j: int| 0 <= j < i ==> #[trigger] result@[j] == prefix_sum(data@, j + 1),
            i > 0 ==> result@[i - 1] == sum,
            i > 0 ==> result@[0] == data@[0],
            forall|j: int| 1 <= j < i ==> #[trigger] result@[j]
                == vstd::wrapping::u32_specs::wrapping_add(result@[j - 1], data@[j]),
        decreases data@.len() - i,
    {
        let v = data[i];
        proof {
            lemma_seq_sum_nonneg(data@.take(i as int));
            assert(data@.take(i + 1).drop_last() =~= data@.take(i as int));
            lemma_wrapping_step(sum, seq_sum(data@.take(i as int)), v);
            if i == 0 {
                assert(seq_sum(data@.take(0)) == 0);
            }
        }
        sum = sum.wrapping_add(v);
        result.push(sum);
        i = i + 1;
    }
    result
}

/// The shaders of the scan's first two passes: subgroup operations
/// (`subgroupInclusiveAdd`) where the device has subgroup arithmetic, else
/// shared-memory stride trees. The third pass, which adds the carries, is
/// the same for both.
#[derive(PartialEq, Eq, Structural, Clone, Copy, Debug)]
pub enum ScanShaders {
    WarpShuffle,
    SharedMemory,
}

/// Chooses the scan's shaders from the device's subgroup arithmetic.
pub fn scan_shaders(subgroup_arithmetic: bool) -> (v: ScanShaders)
    ensures
        v == (if subgroup_arithmetic { ScanShaders::WarpShuffle } else { ScanShaders::SharedMemory }),
{
    if subgroup_arithmetic { ScanShaders::WarpShuffle } else { ScanShaders::SharedMemory }
}

/// The kernel files of the three passes of a scan with these shaders.
pub fn scan_kernel_files(v: ScanShaders) -> (f: (&'static str, &'static str, &'static str))
    ensures
        v == ScanShaders::WarpShuffle ==> f.0@ == "scan_pass1_warp.comp"@ && f.1@ == "scan_pass2_warp.comp"@,
        v == ScanShaders::SharedMemory ==> f.0@ == "scan_pass1.comp"@ && f.1@ == "scan_pass2.comp"@,
        f.2@ == "scan_pass3.comp"@,
{
    match v {
        ScanShaders::WarpShuffle => ("scan_pass1_warp.comp", "scan_pass2_warp.comp", "scan_pass3.comp"),
        ScanShaders::SharedMemory => ("scan_pass1.comp", "scan_pass2.comp", "scan_pass3.comp"),
    }
}

} // verus!
