//! The profiler's knowledge of devices: the peak memory bandwidth of the
//! GPUs it knows, by the name that the driver reports.
use vstd::prelude::*;
use vstd::slice::slice_subrange;
use crate::shaderc::fold::chars_eq;
use crate::shaderc::text::chars_of;

verus! {

/// Whether `pat` occurs in `s` at position `i`.
pub open spec fn occurs_at(s: Seq<char>, pat: Seq<char>, i: int) -> bool {
    0 <= i && i + pat.len() <= s.len() && s.subrange(i, i + pat.len() as int) == pat
}

/// Whether `pat` occurs in `s`.
pub open spec fn contains(s: Seq<char>, pat: Seq<char>) -> bool {
    exists|i: int| occurs_at(s, pat, i)
}

/// Whether `pat` occurs in `s`.
pub fn contains_exec(s: &Vec<char>, pat: &str) -> (b: bool)
    ensures
        b == contains(s@, pat@),
{
    let p = chars_of(pat);
    let n = s.len();
    let m = p.len();
    if m > n {
        assert forall|i: int| !occurs_at(s@, pat@, i) by {}
        return false;
    }
    if m == 0 {
        assert(s@.subrange(0, 0) =~= pat@);
        assert(occurs_at(s@, pat@, 0));
        return true;
    }
    let mut i: usize = 0;
    while i <= n - m
        invariant
            0 < m <= n,
            n == s@.len(),
            m == p@.len(),
            p@ == pat@,
            forall|j: int| 0 <= j < i ==> !occurs_at(s@, pat@, j),
        decreases n - m + 1 - i,
    {
        if chars_eq(slice_subrange(s.as_slice(), i, i + m), p.as_slice()) {
            assert(occurs_at(s@, pat@, i as int));
            return true;
        }
        i = i + 1;
    }
    assert forall|j: int| !occurs_at(s@, pat@, j) by {
        if 0 <= j && j + m <= n {
            assert(j < i);
        }
    }
    false
}

/// The peak memory bandwidth, in GB/s, of a device of the given name: the
/// figures of the NVIDIA RTX cards it knows, and 100 for any other device.
pub open spec fn peak_bandwidth(name: Seq<char>) -> u32 {
    if contains(name, "RTX 2060 SUPER"@) { 448 }
    else if contains(name, "RTX 3060"@) { 360 }
    else if contains(name, "RTX 3070"@) { 448 }
    else if contains(name, "RTX 3080"@) { 760 }
    else if contains(name, "RTX 3090"@) { 936 }
    else if contains(name, "RTX 4060"@) { 272 }
    else if contains(name, "RTX 4070"@) { 504 }
    else if contains(name, "RTX 4080"@) { 736 }
    else if contains(name, "RTX 4090"@) { 1008 }
    else { 100 }
}

/// The peak memory bandwidth, in GB/s, of the device named `device_name`.
pub fn lookup_peak_bandwidth(device_name: &str) -> (gbps: u32)
    ensures
        gbps == peak_bandwidth(device_name@),
{
    let name = chars_of(device_name);
    if contains_exec(&name, "RTX 2060 SUPER") { 448 }
    else if contains_exec(&name, "RTX 3060") { 360 }
    else if contains_exec(&name, "RTX 3070") { 448 }
    else if contains_exec(&name, "RTX 3080") { 760 }
    else if contains_exec(&name, "RTX 3090") { 936 }
    else if contains_exec(&name, "RTX 4060") { 272 }
    else if contains_exec(&name, "RTX 4070") { 504 }
    else if contains_exec(&name, "RTX 4080") { 736 }
    else if contains_exec(&name, "RTX 4090") { 1008 }
    else { 100 }
}

/// The vendor figures of the GPUs the profiler knows: a name that the
/// driver's device name contains, and the card's peak memory bandwidth in
/// GB/s. A more specific name comes before a name it contains.
pub open spec fn known_cards() -> Seq<(Seq<char>, u32)> {
    seq![
        ("RTX 2060 SUPER"@, 448u32),
        ("RTX 3060"@, 360u32),
        ("RTX 3070"@, 448u32),
        ("RTX 3080"@, 760u32),
        ("RTX 3090"@, 936u32),
        ("RTX 4060"@, 272u32),
        ("RTX 4070"@, 504u32),
        ("RTX 4080"@, 736u32),
        ("RTX 4090"@, 1008u32),
    ]
}

/// The figure of the first known card whose name the device name contains
/// is the device's peak bandwidth; a device that contains none of them gets
/// 100 GB/s.
pub proof fn lemma_peak_bandwidth_follows_table(name: Seq<char>, i: int)
    ensures
        0 <= i < known_cards().len() && contains(name, known_cards()[i].0)
            && (forall|j: int| 0 <= j < i ==> !contains(name, #[trigger] known_cards()[j].0))
            ==> peak_bandwidth(name) == known_cards()[i].1,
        (forall|j: int| 0 <= j < known_cards().len() ==> !contains(name, #[trigger] known_cards()[j].0))
            ==> peak_bandwidth(name) == 100,
{
    let t = known_cards();
    assert(t[0].0 == "RTX 2060 SUPER"@ && t[1].0 == "RTX 3060"@ && t[2].0 == "RTX 3070"@);
    assert(t[3].0 == "RTX 3080"@ && t[4].0 == "RTX 3090"@ && t[5].0 == "RTX 4060"@);
    assert(t[6].0 == "RTX 4070"@ && t[7].0 == "RTX 4080"@ && t[8].0 == "RTX 4090"@);
    if 0 <= i < t.len() && contains(name, t[i].0) && (forall|j: int| 0 <= j < i ==> !contains(name, #[trigger] t[j].0)) {
        if i >= 1 { assert(!contains(name, t[0].0)); }
        if i >= 2 { assert(!contains(name, t[1].0)); }
        if i >= 3 { assert(!contains(name, t[2].0)); }
        if i >= 4 { assert(!contains(name, t[3].0)); }
        if i >= 5 { assert(!contains(name, t[4].0)); }
        if i >= 6 { assert(!contains(name, t[5].0)); }
        if i >= 7 { assert(!contains(name, t[6].0)); }
        if i >= 8 { assert(!contains(name, t[7].0)); }
    }
    if forall|j: int| 0 <= j < t.len() ==> !contains(name, #[trigger] t[j].0) {
        assert(!contains(name, t[0].0));
        assert(!contains(name, t[1].0));
        assert(!contains(name, t[2].0));
        assert(!contains(name, t[3].0));
        assert(!contains(name, t[4].0));
        assert(!contains(name, t[5].0));
        assert(!contains(name, t[6].0));
        assert(!contains(name, t[7].0));
        assert(!contains(name, t[8].0));
    }
}

} // verus!
