//! Pixel dimensions of one monitor, computed from the bounding rectangle
//! that the platform reports for its handle.

use vstd::prelude::*;

verus! {

/// The one error kind of the library: the platform's query for a monitor's
/// information failed, or reported a malformed rectangle.
#[derive(Clone, Copy, Debug, PartialEq, Eq)]
pub enum QueryError {
    QueryFailed,
}

/// A monitor's bounding rectangle in virtual-screen coordinates.
#[derive(Clone, Copy, Debug, PartialEq, Eq)]
pub struct MonitorRect {
    pub left: i32,
    pub top: i32,
    pub right: i32,
    pub bottom: i32,
}

impl MonitorRect {
    /// A well-formed rectangle has no inverted edges. The platform reporting
    /// one is a reporting anomaly; it is answered with `QueryFailed` rather
    /// than a wrapped-around size.
    pub open spec fn well_formed(self) -> bool {
        self.left <= self.right && self.top <= self.bottom
    }

    /// Width in pixels: the horizontal extent of the rectangle.
    pub open spec fn spec_width(self) -> int {
        self.right - self.left
    }

    /// Height in pixels: the vertical extent of the rectangle.
    pub open spec fn spec_height(self) -> int {
        self.bottom - self.top
    }

    /// The rectangle's pixel dimensions: width is `right - left`, height is
    /// `bottom - top`. A rectangle with inverted edges yields `QueryFailed`,
    /// never a wrapped-around pair.
    pub fn dimensions(&self) -> (r: Result<(u32, u32), QueryError>)
        ensures
            r is Ok <==> self.well_formed(),
            r matches Ok(dims) ==> dims.0 == self.spec_width() && dims.1 == self.spec_height(),
            !self.well_formed() ==> r == Err::<(u32, u32), QueryError>(QueryError::QueryFailed),
    {
        if self.left <= self.right && self.top <= self.bottom {
            let width_wide: i64 = self.right as i64 - self.left as i64;
            let height_wide: i64 = self.bottom as i64 - self.top as i64;
            Ok((width_wide as u32, height_wide as u32))
        } else {
            Err(QueryError::QueryFailed)
        }
    }
}

/// Outcome of one size query. `report` is what the platform's information
/// call produced for a handle: `None` when the call itself reported failure
/// (an invalid or stale handle), `Some(rect)` when it filled in the
/// monitor's bounding rectangle.
pub fn query_monitor_size(report: Option<MonitorRect>) -> (r: Result<(u32, u32), QueryError>)
    ensures
        report is None ==> r == Err::<(u32, u32), QueryError>(QueryError::QueryFailed),
        report matches Some(rect) ==> {
            &&& r is Ok <==> rect.well_formed()
            &&& r matches Ok(dims) ==> dims.0 == rect.spec_width() && dims.1 == rect.spec_height()
            &&& !rect.well_formed() ==> r == Err::<(u32, u32), QueryError>(QueryError::QueryFailed)
        },
{
    match report {
        Some(rect) => rect.dimensions(),
        None => Err(QueryError::QueryFailed),
    }
}

/// A monitor whose rectangle has positive extent on both axes — any
/// physically connected display — is well formed and its query yields a
/// positive width and a positive height.
pub proof fn lemma_positive_extent_positive_size(rect: MonitorRect)
    requires
        rect.left < rect.right,
        rect.top < rect.bottom,
    ensures
        rect.well_formed(),
        rect.spec_width() > 0,
        rect.spec_height() > 0,
{
}

} // verus!
