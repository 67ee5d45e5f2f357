//! Run configuration checks: a run may only start when the requested cell
//! count is in the supported range and the host's bounding box has strictly
//! positive extent on every axis.

use vstd::prelude::*;

use crate::resolution::MAX_CELLS;
use crate::resolution::is_pow2;
use crate::resolution::next_power_of_two;

verus! {

/// The ways a run can fail. A failed run makes no handoff call: the host
/// never sees a partial or malformed mesh.
#[derive(Clone, Copy, Debug, PartialEq, Eq, Structural)]
pub enum MeshError {
    /// The requested cell count is zero or too large, or the bounding box
    /// is degenerate (zero extent on some axis).
    ConfigurationError,
    /// An output buffer's length and capacity disagree after the shrink
    /// step, so it cannot be handed across the foreign boundary.
    BufferInvariantViolation,
}

/// A run configuration is acceptable when the requested cell count is in
/// the supported range and the bounding box has strictly positive extent
/// on all three axes.
pub open spec fn config_ok(
    requested_cells: u32,
    x_positive: bool,
    y_positive: bool,
    z_positive: bool,
) -> bool {
    &&& 1 <= requested_cells <= MAX_CELLS
    &&& x_positive
    &&& y_positive
    &&& z_positive
}

/// Decides whether a run may start, and if so at which grid resolution.
///
/// The three flags report whether the host's bounding box has strictly
/// positive extent on the corresponding axis (the comparison itself happens
/// where the numeric bounding box lives). On success the result is the
/// least power of two at least as large as `requested_cells`; on any
/// misconfiguration the run is refused before the host's evaluation
/// primitive is ever queried.
pub fn plan_resolution(
    requested_cells: u32,
    x_positive: bool,
    y_positive: bool,
    z_positive: bool,
) -> (r: Result<u32, MeshError>)
    ensures
        r is Ok <==> config_ok(requested_cells, x_positive, y_positive, z_positive),
        r is Ok ==> is_pow2(r->Ok_0) && r->Ok_0 >= requested_cells && r->Ok_0 < 2
            * requested_cells,
        r is Err ==> r->Err_0 == MeshError::ConfigurationError,
{
    if 1 <= requested_cells && requested_cells <= MAX_CELLS && x_positive && y_positive
        && z_positive {
        Ok(next_power_of_two(requested_cells))
    } else {
        Err(MeshError::ConfigurationError)
    }
}

} // verus!
