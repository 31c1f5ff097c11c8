//! Plot layout rules shared by the line plots and spectra.
use vstd::prelude::*;

verus! {

/// Which spectrum to display.
#[derive(Debug, Clone, Copy, PartialEq, Eq, Structural)]
pub enum SpectrumDisplayMode {
    /// E(n), over the total wavenumber.
    TotalWavenumber,
    /// E(m), over the zonal wavenumber.
    ZonalWavenumber,
    /// E(ω), over the temporal frequency.
    TemporalFrequency,
}

/// The number of axis ticks for `n_data` points: two for at most two
/// points, otherwise `min(max_ticks, n_data)` but at least two.
pub open spec fn tick_count(n_data: nat, max_ticks: nat) -> nat {
    if n_data <= 2 {
        2
    } else {
        let m = if max_ticks <= n_data { max_ticks } else { n_data };
        if m >= 2 { m } else { 2 }
    }
}

/// The number of axis ticks for `n_data` points with at most `max_ticks`.
pub fn compute_tick_count(n_data: usize, max_ticks: usize) -> (r: usize)
    ensures
        r == tick_count(n_data as nat, max_ticks as nat),
{
    if n_data <= 2 {
        2
    } else {
        let m = if max_ticks <= n_data {
            max_ticks
        } else {
            n_data
        };
        if m >= 2 {
            m
        } else {
            2
        }
    }
}

/// There are always at least two ticks, never more than the data points
/// when there are more than two, and never more than asked for when two or
/// more are asked for.
pub proof fn lemma_tick_count_bounds(n_data: nat, max_ticks: nat)
    ensures
        tick_count(n_data, max_ticks) >= 2,
        n_data > 2 ==> tick_count(n_data, max_ticks) <= n_data,
        max_ticks >= 2 ==> tick_count(n_data, max_ticks) <= max_ticks,
{
}

} // verus!
