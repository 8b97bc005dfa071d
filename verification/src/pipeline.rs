//! Descriptor bindings of a compute pipeline.
use vstd::prelude::*;

verus! {

/// A storage buffer bound at a binding slot of a compute shader.
pub struct BufferBinding {
    pub slot: u32,
}

/// How many descriptor sets the descriptor pool of a pipeline can hand out.
pub const MAX_DESCRIPTOR_SETS: u32 = 32;

/// The sizes of a compute pipeline's descriptor set layout and descriptor
/// pool.
#[derive(Clone, Copy, Debug)]
pub struct DescriptorSizing {
    /// Bindings of the set layout: one per buffer binding.
    pub binding_count: u32,
    /// Storage buffer descriptors in the pool: one per binding for each of
    /// the sets the pool can hand out.
    pub pool_descriptors: u32,
    /// Sets the pool can hand out.
    pub max_sets: u32,
}

/// Sizes the descriptor layout and pool of a pipeline with these bindings.
/// A count of descriptors that does not fit in 32 bits is an overflow,
/// which callers rule out.
pub fn descriptor_sizing(bindings: &[BufferBinding]) -> (r: DescriptorSizing)
    requires
        bindings@.len() * 32 <= u32::MAX,
    ensures
        r.binding_count == bindings@.len(),
        r.pool_descriptors == bindings@.len() * MAX_DESCRIPTOR_SETS,
        r.max_sets == MAX_DESCRIPTOR_SETS,
{
    let n: u32 = bindings.len() as u32;
    DescriptorSizing { binding_count: n, pool_descriptors: n * MAX_DESCRIPTOR_SETS, max_sets: MAX_DESCRIPTOR_SETS }
}

/// The word of a SPIR-V module at index `i`: four bytes, least significant
/// first.
pub open spec fn word_at(bytes: Seq<u8>, i: int) -> u32 {
    (bytes[4 * i] + bytes[4 * i + 1] * 0x100 + bytes[4 * i + 2] * 0x1_0000 + bytes[4 * i + 3] * 0x100_0000) as u32
}

/// The 32-bit words of a SPIR-V module that the compiler returned as bytes,
/// read little-endian (the byte order of the hosts this runtime runs on);
/// trailing bytes that make no whole word are dropped.
pub fn spirv_words(bytes: &[u8]) -> (words: Vec<u32>)
    ensures
        words@.len() == bytes@.len() / 4,
        forall|i: int| 0 <= i < words@.len() ==> #[trigger] words@[i] == word_at(bytes@, i),
{
    let len = bytes.len();
    let n = len / 4;
    let mut words: Vec<u32> = Vec::with_capacity(n);
    let mut i: usize = 0;
    while i < n
        invariant
            len == bytes@.len(),
            n == bytes@.len() / 4,
            i <= n,
            words@.len() == i,
            forall|j: int| 0 <= j < i ==> #[trigger] words@[j] == word_at(bytes@, j),
        decreases n - i,
    {
        assert(4 * i + 3 < bytes@.len()) by (nonlinear_arith)
            requires
                i < n,
                n == bytes@.len() / 4,
        ;
        let b0 = bytes[4 * i] as u32;
        let b1 = bytes[4 * i + 1] as u32;
        let b2 = bytes[4 * i + 2] as u32;
        let b3 = bytes[4 * i + 3] as u32;
        let w: u32 = b0 + b1 * 0x100 + b2 * 0x1_0000 + b3 * 0x100_0000;
        words.push(w);
        i = i + 1;
    }
    words
}

} // verus!
