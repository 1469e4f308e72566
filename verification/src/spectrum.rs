//! Sizing of the sample windows a telemetry plot is drawn from.
use vstd::prelude::*;
use vstd::std_specs::bits::{axiom_u32_leading_zeros, u32_leading_zeros};

verus! {

/// `n` is a power of two.
pub open spec fn is_power_of_two(n: u64) -> bool {
    n > 0 && n & ((n - 1) as u64) == 0
}

/// How many of `len` log rows a plot uses: none for an empty log; all of
/// them for a plot over time; for a spectrum, none when there are fewer than
/// two rows, otherwise the largest power of two not above the row count
/// taken modulo 2^32 (the count is narrowed to 32 bits first).
pub fn plot_sample_count(len: usize, use_fft: bool) -> (r: Option<usize>)
    requires
        !(use_fft && len >= 2 && len as int % 0x1_0000_0000 == 0),
    ensures
        len == 0 ==> r is None,
        len > 0 && !use_fft ==> r == Some(len),
        use_fft && len == 1 ==> r is None,
        use_fft && len >= 2 ==> (r matches Some(n) && is_power_of_two(n as u64) && n <= len as int
            % 0x1_0000_0000 < 2 * n),
{
    if len == 0 {
        return None;
    }
    if !use_fft {
        return Some(len);
    }
    if len < 2 {
        return None;
    }
    let l = len as u32;
    assert(l == len as int % 0x1_0000_0000) by (bit_vector)
        requires
            l == len as u32,
    ;
    let lz = l.leading_zeros();
    proof {
        axiom_u32_leading_zeros(l);
    }
    assert(lz < 32);
    let k: u32 = 31 - lz;
    let k1: u32 = 32 - lz;
    assert(l >> k1 == 0);
    assert((l >> k) & 1u32 != 0u32);
    let n: usize = 1usize << k;
    assert(n as u64 == 1u64 << (k as u64)) by (bit_vector)
        requires
            k < 32,
            n == 1usize << k,
    ;
    assert((1u64 << (k as u64)) <= (l as u64) && (l as u64) < 2 * (1u64 << (k as u64))
        && is_power_of_two(1u64 << (k as u64))) by (bit_vector)
        requires
            k < 32,
            (l >> k) & 1u32 != 0u32,
            k1 == k + 1,
            l >> k1 == 0,
    ;
    Some(n)
}

/// Number of frequency bins a real spectrum of `n` samples has: `n / 2 + 1`.
pub fn spectrum_bin_count(n: usize) -> (r: usize)
    ensures
        r == n / 2 + 1,
{
    n / 2 + 1
}

} // verus!
