//! What is asked of the offset search for one sync window, what the search
//! answers, and the test that decides whether an answer can be trusted.

use vstd::prelude::*;

verus! {

/// Step of the coarse pass of a search, in microseconds.
pub const PRESYNC_STEP: u32 = 3000;

/// Number of refinement levels of a full search.
pub const REFINE_DEPTH: u32 = 4;

/// An answer is trusted while its distance from the initial delay is under
/// `TRUST_NUM / TRUST_DEN` of the search radius.
pub const TRUST_NUM: u32 = 9;

pub const TRUST_DEN: u32 = 10;

/// A sync window: the time range, in microseconds, over which one offset is
/// estimated.
pub type Window = (i64, i64);

/// The caller's settings of a run, in microseconds: the offset to start
/// from and the half-width of the range to search around it.
#[derive(Clone, Copy, Debug, PartialEq, Eq)]
pub struct SyncParams {
    pub initial_offset: i32,
    pub search_size: u32,
}

impl SyncParams {
    /// The search radius is positive.
    pub open spec fn valid(&self) -> bool {
        self.search_size > 0
    }

    /// The delay at which a search starts: the initial offset with its sign
    /// turned, as the search counts delays where the caller counts offsets.
    pub open spec fn initial_delay(&self) -> int {
        -(self.initial_offset as int)
    }

    pub fn is_valid(&self) -> (ok: bool)
        ensures
            ok == self.valid(),
    {
        self.search_size > 0
    }
}

/// One call of the offset search. Times are in microseconds. A depth of
/// zero asks for the coarse pass alone.
#[derive(Clone, Copy, Debug, PartialEq, Eq)]
pub struct SearchRequest {
    pub initial_delay: i64,
    pub from_ts: i64,
    pub to_ts: i64,
    pub step: u32,
    pub radius: u32,
    pub refine_depth: u32,
}

/// The best delay that a search found, in microseconds, and what is left of
/// the cost at that delay.
#[derive(Clone, Copy, Debug, PartialEq, Eq)]
pub struct SearchOutcome {
    pub cost: u64,
    pub offset: i64,
}

/// How one call of the offset search ended.
#[derive(Clone, Copy, Debug, PartialEq, Eq)]
pub enum SearchEvent {
    /// The search ran to its end and has a best delay.
    Found(SearchOutcome),
    /// The search ran to its end and has nothing to offer.
    NoResult,
    /// The run was told to stop before the search had ended.
    Cancelled,
}

impl DeepView for SearchEvent {
    type V = SearchEvent;

    open spec fn deep_view(&self) -> SearchEvent {
        *self
    }
}

/// The offset estimated for one sync window: the middle of the window and
/// the offset in microseconds, and the cost left at that offset.
#[derive(Clone, Copy, Debug, PartialEq, Eq)]
pub struct OffsetResult {
    pub timestamp: i64,
    pub offset: i64,
    pub cost: u64,
}

/// The request for a search over `window` with the given depth.
pub open spec fn request_for(params: SyncParams, window: Window, depth: u32) -> SearchRequest {
    SearchRequest {
        initial_delay: params.initial_delay() as i64,
        from_ts: window.0,
        to_ts: window.1,
        step: PRESYNC_STEP,
        radius: params.search_size,
        refine_depth: depth,
    }
}

/// The distance between two integers.
pub open spec fn distance(a: int, b: int) -> int {
    if a >= b {
        a - b
    } else {
        b - a
    }
}

/// Whether a delay found by the search lies well inside the searched range:
/// nearer to the initial delay than nine tenths of the radius.
pub open spec fn trusted(params: SyncParams, delay: int) -> bool {
    TRUST_DEN * distance(delay, params.initial_delay()) < TRUST_NUM * params.search_size
}

/// The middle of a window, rounded down.
pub open spec fn window_center(window: Window) -> int {
    (window.0 + window.1) / 2
}

/// The offset reported for a delay: the delay with its sign turned, less
/// half the readout time (both in microseconds, the half rounded down).
pub open spec fn reported_offset(delay: int, readout: int) -> int {
    -delay - readout / 2
}

/// What one search contributes to the results of a run: an entry where it
/// found a delay that is trusted, nothing otherwise.
pub open spec fn window_result(
    params: SyncParams,
    readout: u32,
    window: Window,
    event: SearchEvent,
) -> Option<OffsetResult> {
    match event {
        SearchEvent::Found(outcome) if trusted(params, outcome.offset as int) => Some(
            OffsetResult {
                timestamp: window_center(window) as i64,
                offset: reported_offset(outcome.offset as int, readout as int) as i64,
                cost: outcome.cost,
            },
        ),
        _ => None,
    }
}

/// The delay behind a reported offset.
pub open spec fn delay_behind(offset: int, readout: int) -> int {
    -(offset + readout / 2)
}

/// Builds the request for a search over `window`.
pub fn make_request(params: &SyncParams, window: Window, depth: u32) -> (request: SearchRequest)
    ensures
        request == request_for(*params, window, depth),
        request.initial_delay == params.initial_delay(),
{
    SearchRequest {
        initial_delay: -(params.initial_offset as i64),
        from_ts: window.0,
        to_ts: window.1,
        step: PRESYNC_STEP,
        radius: params.search_size,
        refine_depth: depth,
    }
}

/// Tests whether a delay found by the search is trusted.
pub fn is_trusted(params: &SyncParams, delay: i64) -> (ok: bool)
    ensures
        ok == trusted(*params, delay as int),
{
    let start: i128 = -(params.initial_offset as i128);
    let found: i128 = delay as i128;
    let gap: i128 = if found >= start {
        found - start
    } else {
        start - found
    };
    assert(0 <= TRUST_DEN * gap <= 0x10_0000_0000_0000_0000) by (nonlinear_arith)
        requires
            TRUST_DEN == 10,
            0 <= gap <= 0x1_0000_0000_0000_0000,
    ;
    assert(0 <= TRUST_NUM * params.search_size <= 0x10_0000_0000) by (nonlinear_arith)
        requires
            TRUST_NUM == 9,
            0 <= params.search_size <= 0xffff_ffff,
    ;
    (TRUST_DEN as i128) * gap < (TRUST_NUM as i128) * (params.search_size as i128)
}

/// The middle of a window, rounded down.
pub fn center_of(window: Window) -> (center: i64)
    ensures
        center == window_center(window),
{
    let sum: i128 = window.0 as i128 + window.1 as i128;
    let half: i128 = if sum >= 0 {
        sum / 2
    } else {
        -((1 - sum) / 2)
    };
    half as i64
}

/// Decides what one search contributes to the results of a run.
pub fn accept(params: &SyncParams, readout: u32, window: Window, event: SearchEvent) -> (result:
    Option<OffsetResult>)
    ensures
        result == window_result(*params, readout, window, event),
        result is Some <==> (event matches SearchEvent::Found(o) && trusted(*params, o.offset as int)),
        result matches Some(r) ==> trusted(*params, delay_behind(r.offset as int, readout as int)),
{
    match event {
        SearchEvent::Found(outcome) => {
            if is_trusted(params, outcome.offset) {
                let offset: i64 = -outcome.offset - ((readout / 2) as i64);
                Some(OffsetResult { timestamp: center_of(window), offset, cost: outcome.cost })
            } else {
                None
            }
        },
        _ => None,
    }
}

} // verus!
