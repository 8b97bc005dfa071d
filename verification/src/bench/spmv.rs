//! The integer side of the sparse matrix-vector benchmark: the row
//! pointers of a CSR matrix, and the choice of shader and dispatch size.
use vstd::prelude::*;
use crate::bench::scan::seq_sum;
use crate::dispatcher::ceil_div;
use crate::dispatcher::WorkgroupCount;

verus! {

/// The row pointers of a CSR matrix whose rows hold `nnz[i]` non-zeros:
/// where each row starts in the column and value arrays, and where the last
/// one ends.
pub fn csr_row_ptrs(nnz: &[u32]) -> (ptrs: Vec<u32>)
    requires
        seq_sum(nnz@) <= u32::MAX,
    ensures
        ptrs@.len() == nnz@.len() + 1,
        forall|i: int| 0 <= i <= nnz@.len() ==> #[trigger] ptrs@[i] == seq_sum(nnz@.take(i)),
{
    let mut ptrs: Vec<u32> = Vec::new();
    ptrs.push(0);
    assert(seq_sum(nnz@.take(0)) == 0);
    let mut acc: u32 = 0;
    let mut i: usize = 0;
    while i < nnz.len()
        invariant
            i <= nnz@.len(),
            seq_sum(nnz@) <= u32::MAX,
            ptrs@.len() == i + 1,
            acc == seq_sum(nnz@.take(i as int)),
            forall|j: int| 0 <= j <= i ==> #[trigger] ptrs@[j] == seq_sum(nnz@.take(j)),
        decreases nnz@.len() - i,
    {
        proof {
            assert(nnz@.take(i + 1).drop_last() =~= nnz@.take(i as int));
            lemma_prefix_sum_le(nnz@, i + 1);
        }
        acc = acc + nnz[i];
        ptrs.push(acc);
        i = i + 1;
    }
    ptrs
}

proof fn lemma_prefix_sum_le(s: Seq<u32>, k: int)
    requires
        0 <= k <= s.len(),
    ensures
        seq_sum(s.take(k)) <= seq_sum(s),
    decreases s.len() - k,
{
    if k < s.len() {
        lemma_prefix_sum_le(s, k + 1);
        assert(s.take(k + 1).drop_last() =~= s.take(k));
    } else {
        assert(s.take(k) =~= s);
    }
}

/// Threads in a workgroup of the SpMV shaders.
pub const SPMV_WORKGROUP_SIZE: u32 = 256;

/// The SpMV shaders: one subgroup per row, reduced with `subgroupAdd`, or
/// one thread per row.
#[derive(PartialEq, Eq, Structural, Clone, Copy, Debug)]
pub enum SpmvShader {
    Tiled,
    Naive,
}

/// The shader and the number of workgroups of an SpMV dispatch.
#[derive(Clone, Copy)]
pub struct SpmvPlan {
    pub shader: SpmvShader,
    pub workgroups: WorkgroupCount,
}

/// Whether the tiled shader applies: the device has subgroup arithmetic,
/// and its subgroups are not empty and fit in a workgroup.
pub open spec fn tiled(subgroup_arithmetic: bool, subgroup_size: u32) -> bool {
    subgroup_arithmetic && 1 <= subgroup_size <= SPMV_WORKGROUP_SIZE
}

/// `n / k` rounded up, for `k > 0`, with no overflow.
fn ceil_div_u32(n: u32, k: u32) -> (r: u32)
    requires
        k > 0,
    ensures
        r == ceil_div(n as int, k as int),
{
    let q = n / k;
    let m = n % k;
    assert(((q * k + m + k - 1) as int) / (k as int) == (if m == 0 { q as int } else { q + 1 })) by (nonlinear_arith)
        requires
            k > 0,
            0 <= m < k,
            q >= 0,
    {
        if m == 0 {
            assert((q * k + k - 1) == q * k + (k - 1));
        } else {
            assert(q * k + m + k - 1 == (q + 1) * k + (m - 1));
        }
    }
    assert(n == q * k + m) by (nonlinear_arith)
        requires
            q == n / k,
            m == n % k,
            k > 0,
    ;
    if m == 0 {
        q
    } else {
        assert(q * k <= n) by (nonlinear_arith)
            requires
                n == q * k + m,
                m >= 0,
        ;
        assert(q < n || k == 1 || q == 0) by (nonlinear_arith)
            requires
                n == q * k + m,
                k > 0,
                m > 0,
        ;
        q + 1
    }
}

/// The plan of an SpMV dispatch over `rows` rows: the tiled shader where it
/// applies, with `SPMV_WORKGROUP_SIZE / subgroup_size` rows per workgroup,
/// else the naive one, with one row per thread.
pub fn spmv_plan(rows: u32, subgroup_arithmetic: bool, subgroup_size: u32) -> (p: SpmvPlan)
    ensures
        p.shader == (if tiled(subgroup_arithmetic, subgroup_size) { SpmvShader::Tiled } else { SpmvShader::Naive }),
        tiled(subgroup_arithmetic, subgroup_size) ==> p.workgroups.x
            == ceil_div(rows as int, (SPMV_WORKGROUP_SIZE / subgroup_size) as int),
        !tiled(subgroup_arithmetic, subgroup_size) ==> p.workgroups.x
            == ceil_div(rows as int, SPMV_WORKGROUP_SIZE as int),
        p.workgroups.y == 1,
        p.workgroups.z == 1,
{
    if subgroup_arithmetic && 1 <= subgroup_size && subgroup_size <= SPMV_WORKGROUP_SIZE {
        let per_group = SPMV_WORKGROUP_SIZE / subgroup_size;
        assert(per_group >= 1) by (nonlinear_arith)
            requires
                per_group == 256u32 / subgroup_size,
                1 <= subgroup_size <= 256,
        ;
        SpmvPlan { shader: SpmvShader::Tiled, workgroups: WorkgroupCount { x: ceil_div_u32(rows, per_group), y: 1, z: 1 } }
    } else {
        SpmvPlan {
            shader: SpmvShader::Naive,
            workgroups: WorkgroupCount { x: ceil_div_u32(rows, SPMV_WORKGROUP_SIZE), y: 1, z: 1 },
        }
    }
}

} // verus!
