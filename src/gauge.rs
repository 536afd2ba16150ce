use vstd::prelude::*;

verus! {

/// Full scale of a gauge: 10000 stands for 100.00%.
pub const GAUGE_MAX: u32 = 10000;

/// A value held to the gauge's scale: values above full scale read as full.
pub open spec fn within_scale_of(v: int) -> int {
    if v > GAUGE_MAX {
        GAUGE_MAX as int
    } else if v < 0 {
        0
    } else {
        v
    }
}

/// CPU gauge for a reading already scaled to hundredths of a percent
/// (45.67% is 4567): the reading, held to scale.
pub open spec fn cpu_gauge_of(scaled: int) -> int {
    within_scale_of(scaled)
}

/// Memory gauge for `used` out of `total` (one unit for both):
/// `floor(used / total * 10000)`, held to scale. An unknown total (zero)
/// gives 0.
pub open spec fn memory_gauge_of(total: int, used: int) -> int {
    if total <= 0 {
        0
    } else {
        within_scale_of(used * GAUGE_MAX / total)
    }
}

/// Holds a value to the gauge's scale.
pub fn within_scale(v: u32) -> (r: u32)
    ensures
        r == within_scale_of(v as int),
{
    if v > GAUGE_MAX {
        GAUGE_MAX
    } else {
        v
    }
}

/// Turns a CPU reading in hundredths of a percent into a gauge value.
pub fn cpu_gauge(scaled: u32) -> (r: u32)
    ensures
        r == cpu_gauge_of(scaled as int),
        r <= GAUGE_MAX,
{
    within_scale(scaled)
}

/// Turns total and used physical memory (in the same unit) into a gauge value.
pub fn memory_gauge(total: u64, used: u64) -> (r: u32)
    ensures
        r == memory_gauge_of(total as int, used as int),
        r <= GAUGE_MAX,
{
    if total == 0 {
        return 0;
    }
    if used >= total {
        proof {
            lemma_full_or_more(total as int, used as int);
        }
        return GAUGE_MAX;
    }
    assert(used * GAUGE_MAX <= u64::MAX * 10000) by (nonlinear_arith)
        requires
            used <= u64::MAX,
    ;
    let scaled: u128 = (used as u128) * (GAUGE_MAX as u128);
    let q: u128 = scaled / (total as u128);
    proof {
        lemma_below_full(total as int, used as int);
    }
    q as u32
}

/// With `used` at least `total`, the ratio is at least full scale.
proof fn lemma_full_or_more(total: int, used: int)
    requires
        0 < total <= used,
    ensures
        used * GAUGE_MAX / total >= GAUGE_MAX,
{
    assert(total * GAUGE_MAX <= used * GAUGE_MAX) by (nonlinear_arith)
        requires
            0 < total <= used,
    ;
    vstd::arithmetic::div_mod::lemma_div_is_ordered(
        total * GAUGE_MAX,
        used * GAUGE_MAX,
        total,
    );
    vstd::arithmetic::div_mod::lemma_div_multiples_vanish(GAUGE_MAX as int, total);
}

/// With `used` below `total`, the ratio is below full scale.
proof fn lemma_below_full(total: int, used: int)
    requires
        0 <= used < total,
    ensures
        used * GAUGE_MAX / total < GAUGE_MAX,
        used * GAUGE_MAX / total >= 0,
{
    let scaled = used * GAUGE_MAX;
    let q = scaled / total;
    assert(0 <= scaled < total * GAUGE_MAX) by (nonlinear_arith)
        requires
            0 <= used < total,
            scaled == used * GAUGE_MAX,
    ;
    vstd::arithmetic::div_mod::lemma_fundamental_div_mod(scaled, total);
    vstd::arithmetic::div_mod::lemma_mod_pos_bound(scaled, total);
    vstd::arithmetic::div_mod::lemma_div_pos_is_pos(scaled, total);
    assert(q < GAUGE_MAX) by (nonlinear_arith)
        requires
            total * q <= scaled,
            scaled < total * GAUGE_MAX,
            total > 0,
    ;
}

/// Both gauges stay within [0, 10000] for every reading the probe can give.
pub proof fn lemma_gauges_within_scale(cpu_scaled: u32, total: u64, used: u64)
    ensures
        0 <= cpu_gauge_of(cpu_scaled as int) <= GAUGE_MAX,
        0 <= memory_gauge_of(total as int, used as int) <= GAUGE_MAX,
{
}

/// An unknown memory total (zero) reads as a zero gauge, whatever is used.
pub proof fn lemma_unknown_total_reads_zero(used: u64)
    ensures
        memory_gauge_of(0, used as int) == 0,
{
}

/// Used memory at or above the total reads as a full gauge.
pub proof fn lemma_all_used_reads_full(total: u64, used: u64)
    requires
        0 < total <= used,
    ensures
        memory_gauge_of(total as int, used as int) == GAUGE_MAX,
{
    lemma_full_or_more(total as int, used as int);
}

} // verus!
