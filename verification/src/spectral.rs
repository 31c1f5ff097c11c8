//! The grid rules of the spherical-harmonic wavenumber filter: which
//! truncation a Gaussian grid supports and when a filter is applied.
use vstd::prelude::*;

verus! {

/// The truncation wavenumber of a grid: `min(2·n_lat/3, (n_lon−2)/2)` for
/// an even `n_lat ≥ 4` and `n_lon ≥ 6`; no truncation otherwise.
pub open spec fn n_trunc_of(n_lon: nat, n_lat: nat) -> Option<nat> {
    if n_lat < 4 || n_lon < 6 || n_lat % 2 != 0 {
        None
    } else {
        let from_lat = n_lat * 2 / 3;
        let from_lon = ((n_lon - 2) / 2) as nat;
        Some(if from_lat <= from_lon { from_lat } else { from_lon })
    }
}

/// Detect the truncation wavenumber from the grid dimensions.  Returns
/// `None` if the grid is too small for spectral transforms.
pub fn detect_n_trunc(n_lon: usize, n_lat: usize) -> (r: Option<usize>)
    requires
        n_lat * 2 <= usize::MAX,
    ensures
        match r {
            Some(n) => n_trunc_of(n_lon as nat, n_lat as nat) == Some(n as nat),
            None => n_trunc_of(n_lon as nat, n_lat as nat) is None,
        },
{
    if n_lat < 4 || n_lon < 6 || n_lat % 2 != 0 {
        return None;
    }
    let from_lat = n_lat * 2 / 3;
    let from_lon = (n_lon - 2) / 2;
    let n_trunc = if from_lat <= from_lon {
        from_lat
    } else {
        from_lon
    };
    if n_trunc == 0 {
        return None;
    }
    if n_lon < 2 * n_trunc + 2 {
        return None;
    }
    Some(n_trunc)
}

/// A detected truncation is positive and fits the grid: the spectral
/// transforms need `n_lon ≥ 2·n_trunc + 2`, and it never exceeds `2·n_lat/3`.
pub proof fn lemma_n_trunc_fits(n_lon: nat, n_lat: nat)
    ensures
        n_trunc_of(n_lon, n_lat) matches Some(n) ==> (n >= 2 && n_lon >= 2 * n + 2 && 3 * n <= 2 * n_lat),
{
}

/// What the wavenumber filter does with a field.
#[derive(Debug, Clone, Copy, PartialEq, Eq, Structural)]
pub enum FilterPlan {
    /// The field does not fit the grid, or the grid does not fit the transform.
    Reject,
    /// The cutoff keeps every wavenumber: the field is returned as it is.
    Unchanged,
    /// The field is transformed, truncated and transformed back.
    Transform,
}

pub open spec fn filter_plan_of(len: nat, n_lon: nat, n_lat: nat, n_trunc: nat, n_cutoff: nat) -> FilterPlan {
    if len != n_lon * n_lat {
        FilterPlan::Reject
    } else if n_cutoff >= n_trunc {
        FilterPlan::Unchanged
    } else if n_lat % 2 != 0 || n_lon < 2 * n_trunc + 2 {
        FilterPlan::Reject
    } else {
        FilterPlan::Transform
    }
}

/// Decide how the filter treats a field of `len` values on an
/// `n_lon × n_lat` grid truncated at `n_trunc` with cutoff `n_cutoff`.
pub fn filter_plan(len: usize, n_lon: usize, n_lat: usize, n_trunc: usize, n_cutoff: usize) -> (r: FilterPlan)
    ensures
        r == filter_plan_of(len as nat, n_lon as nat, n_lat as nat, n_trunc as nat, n_cutoff as nat),
{
    let a: u128 = n_lon as u128;
    let b: u128 = n_lat as u128;
    assert(a * b <= u64::MAX * u64::MAX) by (nonlinear_arith)
        requires
            a <= u64::MAX,
            b <= u64::MAX,
    ;
    let cells: u128 = a * b;
    if (len as u128) != cells {
        return FilterPlan::Reject;
    }
    if n_cutoff >= n_trunc {
        return FilterPlan::Unchanged;
    }
    if n_lat % 2 != 0 || (n_lon as u128) < 2 * (n_trunc as u128) + 2 {
        return FilterPlan::Reject;
    }
    FilterPlan::Transform
}

/// The row of the stored field that row `j` of a south-to-north grid reads.
pub open spec fn source_row(j: nat, n_lat: nat, south_to_north: bool) -> nat {
    if south_to_north {
        j
    } else {
        (n_lat - 1 - j) as nat
    }
}

/// The row of the stored field that row `j` of a south-to-north grid reads:
/// rows are taken in order when the latitudes ascend, reversed otherwise.
pub fn row_order(j: usize, n_lat: usize, south_to_north: bool) -> (r: usize)
    requires
        j < n_lat,
    ensures
        r == source_row(j as nat, n_lat as nat, south_to_north),
        r < n_lat,
{
    if south_to_north {
        j
    } else {
        n_lat - 1 - j
    }
}

/// Reordering rows twice gives back the original row.
pub proof fn lemma_row_order_involution(j: nat, n_lat: nat, s2n: bool)
    requires
        j < n_lat,
    ensures
        source_row(source_row(j, n_lat, s2n), n_lat, s2n) == j,
{
}

} // verus!
