//! The run that estimates the offset between gyroscope and video: it plans
//! the sync windows from the matched points, prepares what the offset search
//! needs for each, and turns what the search answers into offsets.

use crate::frames::{
    collected, copy_points, FrameModel, FrameSize, FrameStore, MatchedEntry, MatchedEntryModel,
    PixelPoint,
};
use crate::orientation::{candidate, candidate_at, label_of, CANDIDATES};
use crate::search::{
    accept, delay_behind, make_request, request_for, trusted, window_result, OffsetResult,
    SearchEvent, SearchRequest, SyncParams, Window, REFINE_DEPTH,
};
use crate::shutter::{point_times, timestamps_of, ComputeParams};
use vstd::prelude::*;

verus! {

/// Fewest matched entries that make a sync window.
pub const MIN_ENTRIES: usize = 2;

/// The start of a window before any entry has set it.
pub const UNSET_TS: i64 = -1;

/// What the offset search is given for one matched pair: the key it is
/// filed under, the frame times at which the two point lists are to be
/// undistorted, the size of the frame, the two point lists and, for each
/// point, the moment in nanoseconds at which its scanline was captured.
#[derive(Debug, PartialEq, Eq)]
pub struct Track {
    pub key: i64,
    pub from_ts: i64,
    pub to_ts: i64,
    pub frame_size: FrameSize,
    pub points_a: Vec<PixelPoint>,
    pub points_b: Vec<PixelPoint>,
    pub times_a: Vec<i128>,
    pub times_b: Vec<i128>,
}

pub ghost struct TrackModel {
    pub key: i64,
    pub from_ts: i64,
    pub to_ts: i64,
    pub frame_size: FrameSize,
    pub points_a: Seq<PixelPoint>,
    pub points_b: Seq<PixelPoint>,
    pub times_a: Seq<i128>,
    pub times_b: Seq<i128>,
}

impl View for Track {
    type V = TrackModel;

    open spec fn view(&self) -> TrackModel {
        TrackModel {
            key: self.key,
            from_ts: self.from_ts,
            to_ts: self.to_ts,
            frame_size: self.frame_size,
            points_a: self.points_a@,
            points_b: self.points_b@,
            times_a: self.times_a@,
            times_b: self.times_b@,
        }
    }
}

impl DeepView for Track {
    type V = TrackModel;

    open spec fn deep_view(&self) -> TrackModel {
        self@
    }
}

/// The start of the window that a list of entries spans: the time of the
/// first entry whose time is not `UNSET_TS`, and `UNSET_TS` where there is
/// no such entry.
pub open spec fn window_start(entries: Seq<MatchedEntryModel>) -> i64
    decreases entries.len(),
{
    if entries.len() == 0 {
        UNSET_TS
    } else {
        let before = window_start(entries.drop_last());
        if before == UNSET_TS {
            entries.last().pair.from_ts
        } else {
            before
        }
    }
}

/// The window that a list of entries spans: from its start to the time of
/// the frame that the last entry leads to.
pub open spec fn window_of(entries: Seq<MatchedEntryModel>) -> Window
    recommends
        entries.len() > 0,
{
    (window_start(entries), entries.last().pair.to_ts)
}

/// What the search is given for entry `j` of a range.
pub open spec fn track_of(entries: Seq<MatchedEntryModel>, j: int, readout: int) -> TrackModel
    recommends
        0 <= j < entries.len(),
{
    let entry = entries[j];
    TrackModel {
        key: entry.pair.from_ts,
        from_ts: window_start(entries.take(j + 1)),
        to_ts: entry.pair.to_ts,
        frame_size: entry.frame_size,
        points_a: entry.pair.from_points,
        points_b: entry.pair.to_points,
        times_a: point_times(
            entry.pair.from_ts as int,
            entry.pair.from_points,
            readout,
            entry.frame_size.height as int,
        ),
        times_b: point_times(
            entry.pair.to_ts as int,
            entry.pair.to_points,
            readout,
            entry.frame_size.height as int,
        ),
    }
}

/// The tracks of one range, one for each entry.
pub open spec fn range_tracks(entries: Seq<MatchedEntryModel>, readout: int) -> Seq<TrackModel> {
    Seq::new(entries.len(), |j: int| track_of(entries, j, readout))
}

/// The entries of each range, in the order of the ranges.
pub open spec fn collected_all(frames: Seq<FrameModel>, ranges: Seq<(i64, i64)>) -> Seq<
    Seq<MatchedEntryModel>,
> {
    Seq::new(ranges.len(), |r: int| collected(frames, ranges[r].0 as int, ranges[r].1 as int))
}

/// Whether a range has enough entries to make a sync window.
pub open spec fn makes_window(entries: Seq<MatchedEntryModel>) -> bool {
    entries.len() >= MIN_ENTRIES
}

/// The sync windows of a run: one for each range that has enough entries,
/// in the order of the ranges.
pub open spec fn plan_windows(frames: Seq<FrameModel>, ranges: Seq<(i64, i64)>) -> Seq<Window>
    decreases ranges.len(),
{
    if ranges.len() == 0 {
        Seq::empty()
    } else {
        let before = plan_windows(frames, ranges.drop_last());
        let entries = collected(frames, ranges.last().0 as int, ranges.last().1 as int);
        if makes_window(entries) {
            before.push(window_of(entries))
        } else {
            before
        }
    }
}

/// The tracks of a run: those of each range that has enough entries, in the
/// order of the ranges.
pub open spec fn plan_tracks(frames: Seq<FrameModel>, ranges: Seq<(i64, i64)>, readout: int) -> Seq<
    TrackModel,
>
    decreases ranges.len(),
{
    if ranges.len() == 0 {
        Seq::empty()
    } else {
        let before = plan_tracks(frames, ranges.drop_last(), readout);
        let entries = collected(frames, ranges.last().0 as int, ranges.last().1 as int);
        if makes_window(entries) {
            before + range_tracks(entries, readout)
        } else {
            before
        }
    }
}

/// An entry that the run can work on: both frames have the same number of
/// points, and the frame has a height.
pub open spec fn entry_sound(entry: MatchedEntryModel) -> bool {
    entry.pair.from_points.len() == entry.pair.to_points.len() && entry.frame_size.height > 0
}

/// Every entry of every range that makes a window is sound.
pub open spec fn ranges_sound(frames: Seq<FrameModel>, ranges: Seq<(i64, i64)>) -> bool {
    forall|r: int, j: int|
        #![trigger collected(frames, ranges[r].0 as int, ranges[r].1 as int)[j]]
        0 <= r < ranges.len() && makes_window(
            collected(frames, ranges[r].0 as int, ranges[r].1 as int),
        ) && 0 <= j < collected(frames, ranges[r].0 as int, ranges[r].1 as int).len()
            ==> entry_sound(collected(frames, ranges[r].0 as int, ranges[r].1 as int)[j])
}

/// A run plans at most one window for each range.
pub proof fn lemma_windows_within_ranges(frames: Seq<FrameModel>, ranges: Seq<(i64, i64)>)
    ensures
        plan_windows(frames, ranges).len() <= ranges.len(),
    decreases ranges.len(),
{
    if ranges.len() > 0 {
        lemma_windows_within_ranges(frames, ranges.drop_last());
    }
}

/// The entries of each range, for all the ranges of a run.
pub fn collect_points(store: &FrameStore, ranges: &Vec<(i64, i64)>) -> (points: Vec<
    Vec<MatchedEntry>,
>)
    ensures
        points.deep_view() == collected_all(store@, ranges@),
{
    let mut points: Vec<Vec<MatchedEntry>> = Vec::new();
    let mut r: usize = 0;
    while r < ranges.len()
        invariant
            r <= ranges.len(),
            points.len() == r,
            forall|k: int|
                0 <= k < r ==> (#[trigger] points@[k]).deep_view() == collected(
                    store@,
                    ranges@[k].0 as int,
                    ranges@[k].1 as int,
                ),
        decreases ranges.len() - r,
    {
        let (from_ts, to_ts) = ranges[r];
        let points_per_range = if to_ts > from_ts {
            store.matched_in(from_ts, to_ts)
        } else {
            proof {
                lemma_empty_range(store@, from_ts as int, to_ts as int);
            }
            let none: Vec<MatchedEntry> = Vec::new();
            assert(none.deep_view() =~= Seq::<MatchedEntryModel>::empty());
            none
        };
        points.push(points_per_range);
        r += 1;
    }
    assert(points.deep_view() =~= collected_all(store@, ranges@));
    points
}

/// A range that ends at or before its start holds no entry.
pub proof fn lemma_empty_range(frames: Seq<FrameModel>, from_ts: int, to_ts: int)
    requires
        to_ts <= from_ts,
    ensures
        collected(frames, from_ts, to_ts) == Seq::<MatchedEntryModel>::empty(),
    decreases frames.len(),
{
    if frames.len() > 0 {
        lemma_empty_range(frames.drop_last(), from_ts, to_ts);
    }
}

/// Builds the track of entry `j` of a range whose window starts, as far as
/// the entries up to `j` tell, at `from_ts`.
fn make_track(entries: &Vec<MatchedEntry>, j: usize, from_ts: i64, readout: u32) -> (track: Track)
    requires
        j < entries.len(),
        entry_sound(entries.deep_view()[j as int]),
        from_ts == window_start(entries.deep_view().take(j + 1)),
    ensures
        track@ == track_of(entries.deep_view(), j as int, readout as int),
{
    let entry = &entries[j];
    let height = entry.frame_size.height;
    Track {
        key: entry.pair.from_ts,
        from_ts,
        to_ts: entry.pair.to_ts,
        frame_size: entry.frame_size,
        points_a: copy_points(&entry.pair.from_points),
        points_b: copy_points(&entry.pair.to_points),
        times_a: timestamps_of(entry.pair.from_ts, &entry.pair.from_points, readout, height),
        times_b: timestamps_of(entry.pair.to_ts, &entry.pair.to_points, readout, height),
    }
}

/// Tests whether every entry of a range is sound.
fn range_is_sound(entries: &Vec<MatchedEntry>) -> (ok: bool)
    ensures
        ok == (forall|j: int| 0 <= j < entries.len() ==> entry_sound(#[trigger] entries.deep_view()[j])),
{
    let mut j: usize = 0;
    while j < entries.len()
        invariant
            j <= entries.len(),
            forall|k: int| 0 <= k < j ==> entry_sound(#[trigger] entries.deep_view()[k]),
        decreases entries.len() - j,
    {
        let entry = &entries[j];
        if entry.pair.from_points.len() != entry.pair.to_points.len() || entry.frame_size.height == 0 {
            assert(!entry_sound(entries.deep_view()[j as int]));
            return false;
        }
        j += 1;
    }
    true
}

/// Tests whether a run can be made of these ranges: whether every entry of
/// every range that makes a window is sound.
pub fn can_sync(store: &FrameStore, ranges: &Vec<(i64, i64)>) -> (ok: bool)
    ensures
        ok == ranges_sound(store@, ranges@),
{
    let points = collect_points(store, ranges);
    let mut r: usize = 0;
    assert(points.deep_view().len() == points.len());
    while r < points.len()
        invariant
            r <= points.len(),
            points.len() == ranges.len(),
            points.deep_view() == collected_all(store@, ranges@),
            forall|k: int, j: int|
                #![trigger collected(store@, ranges@[k].0 as int, ranges@[k].1 as int)[j]]
                0 <= k < r && makes_window(
                    collected(store@, ranges@[k].0 as int, ranges@[k].1 as int),
                ) && 0 <= j < collected(store@, ranges@[k].0 as int, ranges@[k].1 as int).len()
                    ==> entry_sound(collected(store@, ranges@[k].0 as int, ranges@[k].1 as int)[j]),
        decreases points.len() - r,
    {
        let entries = &points[r];
        assert(entries.deep_view() == points.deep_view()[r as int]);
        assert(entries.deep_view() == collected(
            store@,
            ranges@[r as int].0 as int,
            ranges@[r as int].1 as int,
        ));
        if entries.len() >= MIN_ENTRIES && !range_is_sound(entries) {
            return false;
        }
        r += 1;
    }
    true
}

/// One run of the synchronization: the sync windows planned from the
/// matched points, what the offset search is given for each matched pair,
/// and how far the run has come.
pub struct FindOffsetsRssync {
    frame_readout_time: u32,
    sync_points: Vec<Window>,
    tracks: Vec<Track>,
    sync_params: SyncParams,
    range_count: usize,
    is_guess_orient: bool,
    cancelled: bool,
    current_sync_point: usize,
    current_orientation: usize,
    best: Option<(usize, u128)>,
}

/// A run as the contracts see it. `readout` is the readout time in
/// microseconds; `best` is the cheapest orientation recorded so far, as its
/// place in the list of candidates and its cost.
pub ghost struct SyncRunModel {
    pub readout: u32,
    pub windows: Seq<Window>,
    pub tracks: Seq<TrackModel>,
    pub params: SyncParams,
    pub range_count: nat,
    pub guessing: bool,
    pub cancelled: bool,
    pub current_window: nat,
    pub current_orientation: nat,
    pub best: Option<(usize, u128)>,
}

/// The invariant of a run: the counters stay within what they count, and the
/// best orientation is one that has been recorded.
pub open spec fn run_wf(run: SyncRunModel) -> bool {
    &&& run.params.valid()
    &&& run.current_window <= run.windows.len() <= run.range_count
    &&& run.current_orientation <= CANDIDATES
    &&& run.best matches Some(best) ==> best.0 < run.current_orientation
}

/// A run that has been planned and not yet started.
pub open spec fn fresh_run(
    frames: Seq<FrameModel>,
    ranges: Seq<(i64, i64)>,
    sync_params: SyncParams,
    params: ComputeParams,
) -> SyncRunModel {
    SyncRunModel {
        readout: params.readout_time() as u32,
        windows: plan_windows(frames, ranges),
        tracks: plan_tracks(frames, ranges, params.readout_time()),
        params: sync_params,
        range_count: ranges.len(),
        guessing: false,
        cancelled: false,
        current_window: 0,
        current_orientation: 0,
        best: None,
    }
}

impl View for FindOffsetsRssync {
    type V = SyncRunModel;

    closed spec fn view(&self) -> SyncRunModel {
        SyncRunModel {
            readout: self.frame_readout_time,
            windows: self.sync_points@,
            tracks: self.tracks.deep_view(),
            params: self.sync_params,
            range_count: self.range_count as nat,
            guessing: self.is_guess_orient,
            cancelled: self.cancelled,
            current_window: self.current_sync_point as nat,
            current_orientation: self.current_orientation as nat,
            best: self.best,
        }
    }
}

/// Whether a run waits for the answer of a search: it has not been told to
/// stop, and a window is left.
pub open spec fn awaiting(run: SyncRunModel) -> bool {
    !run.cancelled && run.current_window < run.windows.len()
}

/// What the answer of the search over the current window adds to the
/// results.
pub open spec fn search_yield(run: SyncRunModel, event: SearchEvent) -> Option<OffsetResult> {
    if awaiting(run) {
        window_result(run.params, run.readout, run.windows[run.current_window as int], event)
    } else {
        None
    }
}

/// The run after the answer of the search over the current window: stopped
/// where the search was cancelled, at the next window otherwise. A run that
/// waits for no answer stays as it is.
pub open spec fn after_search(run: SyncRunModel, event: SearchEvent) -> SyncRunModel {
    if !awaiting(run) {
        run
    } else if event == SearchEvent::Cancelled {
        SyncRunModel { cancelled: true, ..run }
    } else {
        SyncRunModel { current_window: run.current_window + 1, ..run }
    }
}

/// How many of the first `n` searches ran to their end before one was
/// cancelled: `n` where none was.
pub open spec fn searched(events: Seq<SearchEvent>, n: int) -> int
    recommends
        n <= events.len(),
    decreases n,
{
    if n <= 0 {
        0
    } else {
        let before = searched(events, n - 1);
        if before == n - 1 && events[n - 1] != SearchEvent::Cancelled {
            n
        } else {
            before
        }
    }
}

/// The results of the searches over the first `n` windows, in the order of
/// the windows.
pub open spec fn offsets_of(
    params: SyncParams,
    readout: u32,
    windows: Seq<Window>,
    events: Seq<SearchEvent>,
    n: int,
) -> Seq<OffsetResult>
    recommends
        n <= windows.len(),
        n <= events.len(),
    decreases n,
{
    if n <= 0 {
        Seq::empty()
    } else {
        let before = offsets_of(params, readout, windows, events, n - 1);
        match window_result(params, readout, windows[n - 1], events[n - 1]) {
            Some(result) => before.push(result),
            None => before,
        }
    }
}

/// The smaller of two lengths.
pub open spec fn shorter(a: int, b: int) -> int {
    if a <= b {
        a
    } else {
        b
    }
}

/// How many windows a run gets through when the searches answer with
/// `events`, one event for each window in turn: it ends with the windows,
/// with the events, or at the first search that was cancelled.
pub open spec fn attempts(windows: Seq<Window>, events: Seq<SearchEvent>) -> int {
    searched(events, shorter(windows.len() as int, events.len() as int))
}

/// The results of a run over `windows` whose searches answer with `events`.
pub open spec fn sync_offsets(
    params: SyncParams,
    readout: u32,
    windows: Seq<Window>,
    events: Seq<SearchEvent>,
) -> Seq<OffsetResult> {
    offsets_of(params, readout, windows, events, attempts(windows, events))
}

/// Once a search was cancelled, no later one counts.
pub proof fn lemma_searched_stays(events: Seq<SearchEvent>, i: int, n: int)
    requires
        0 <= i <= n,
        searched(events, i) < i,
    ensures
        searched(events, n) == searched(events, i),
    decreases n - i,
{
    if n > i {
        lemma_searched_stays(events, i, n - 1);
    }
}

/// No more searches count than were made.
pub proof fn lemma_searched_bound(events: Seq<SearchEvent>, n: int)
    requires
        0 <= n,
    ensures
        0 <= searched(events, n) <= n,
    decreases n,
{
    if n > 0 {
        lemma_searched_bound(events, n - 1);
    }
}

/// The cost that one coarse search adds to the cost of an orientation: the
/// cost it found, and nothing where it found none.
pub open spec fn estimate_cost(event: SearchEvent) -> int {
    match event {
        SearchEvent::Found(outcome) => outcome.cost as int,
        _ => 0,
    }
}

/// The cost of an orientation over the first `n` windows: the sum of what
/// the coarse searches found, one event for each window in turn. A window
/// that has no event adds nothing.
pub open spec fn candidate_cost(events: Seq<SearchEvent>, n: int) -> int
    decreases n,
{
    if n <= 0 {
        0
    } else {
        candidate_cost(events, n - 1) + (if n - 1 < events.len() {
            estimate_cost(events[n - 1])
        } else {
            0
        })
    }
}

/// The cost of candidate `k` over `windows` windows, where `all` holds the
/// events of each candidate in turn. A candidate that has no events costs
/// nothing.
pub open spec fn total_cost(all: Seq<Seq<SearchEvent>>, k: int, windows: int) -> int {
    if 0 <= k < all.len() {
        candidate_cost(all[k], windows)
    } else {
        0
    }
}

/// The cheapest of the first `n` candidates, and of several that cost the
/// same the one that comes first.
pub open spec fn cheapest(all: Seq<Seq<SearchEvent>>, windows: int, n: int) -> int
    recommends
        n >= 1,
    decreases n,
{
    if n <= 1 {
        0
    } else {
        let before = cheapest(all, windows, n - 1);
        if total_cost(all, n - 1, windows) < total_cost(all, before, windows) {
            n - 1
        } else {
            before
        }
    }
}

/// The run after the cost of the current orientation has been recorded: the
/// orientation is the best where it is the first, or cheaper than the best
/// so far. A run that has been through all orientations stays as it is.
pub open spec fn after_candidate(run: SyncRunModel, cost: u128) -> SyncRunModel {
    if run.current_orientation >= CANDIDATES {
        run
    } else {
        SyncRunModel {
            current_orientation: run.current_orientation + 1,
            best: match run.best {
                Some(best) if best.1 <= cost => Some(best),
                _ => Some((run.current_orientation as usize, cost)),
            },
            ..run
        }
    }
}

/// The cheapest candidate costs no more than any other, and less than any
/// that comes before it.
pub proof fn cheapest_is_leftmost_minimum(all: Seq<Seq<SearchEvent>>, windows: int, n: int)
    requires
        n >= 1,
    ensures
        0 <= cheapest(all, windows, n) < n,
        forall|j: int|
            0 <= j < n ==> total_cost(all, cheapest(all, windows, n), windows) <= #[trigger] total_cost(
                all,
                j,
                windows,
            ),
        forall|j: int|
            0 <= j < cheapest(all, windows, n) ==> total_cost(all, cheapest(all, windows, n), windows)
                < #[trigger] total_cost(all, j, windows),
    decreases n,
{
    if n > 1 {
        cheapest_is_leftmost_minimum(all, windows, n - 1);
    }
}

/// The cost over `n` windows is at most `n` times the largest cost of one.
pub proof fn lemma_cost_bound(events: Seq<SearchEvent>, n: int)
    requires
        0 <= n,
    ensures
        0 <= candidate_cost(events, n) <= n * u64::MAX,
    decreases n,
{
    if n > 0 {
        lemma_cost_bound(events, n - 1);
        assert((n - 1) * u64::MAX + u64::MAX == n * u64::MAX) by (nonlinear_arith);
    }
}

/// Where there are no events there is no cost.
pub proof fn lemma_no_events_no_cost(n: int)
    ensures
        candidate_cost(Seq::<SearchEvent>::empty(), n) == 0,
    decreases n,
{
    if n > 0 {
        lemma_no_events_no_cost(n - 1);
    }
}

/// The value that a search reports when it is done, and the scale of the
/// progress it reports on the way.
pub const PROGRESS_ONE: u32 = 1_000_000;

/// How far a run has come, as the fraction `done / total`.
#[derive(Clone, Copy, Debug, PartialEq, Eq)]
pub struct Progress {
    pub done: u128,
    pub total: u128,
}

/// How far a run has come while a search that is `inner / PROGRESS_ONE`
/// done is under way: the windows behind it and the share of the current
/// one, out of all ranges; in a guess, that for the orientation being tried,
/// together with the orientations behind it, out of all candidates. The
/// fraction never passes one, and is zero for a run without ranges.
pub open spec fn progress_of(run: SyncRunModel, inner: int) -> (int, int) {
    let span = run.range_count * PROGRESS_ONE;
    let here = run.current_window * PROGRESS_ONE + shorter(inner, PROGRESS_ONE as int);
    let within = shorter(here, span);
    if run.range_count == 0 {
        (0, 1)
    } else if run.guessing {
        (shorter(run.current_orientation * span + within, CANDIDATES * span), CANDIDATES * span)
    } else {
        (within, span)
    }
}

impl FindOffsetsRssync {
    pub open spec fn wf(&self) -> bool {
        run_wf(self@)
    }

    /// Plans a run over `ranges`: collects the matched points of each range,
    /// makes a sync window of each range that has at least `MIN_ENTRIES`
    /// entries and leaves the others out, and prepares a track for every
    /// entry of every window.
    pub fn new(
        ranges: &Vec<(i64, i64)>,
        store: &FrameStore,
        sync_params: &SyncParams,
        params: &ComputeParams,
    ) -> (run: FindOffsetsRssync)
        requires
            sync_params.valid(),
            params.valid(),
            ranges_sound(store@, ranges@),
        ensures
            run.wf(),
            run@ == fresh_run(store@, ranges@, *sync_params, *params),
    {
        let matched_points = collect_points(store, ranges);
        let readout = params.effective_readout_time();
        let mut sync_points: Vec<Window> = Vec::new();
        let mut tracks: Vec<Track> = Vec::new();
        let mut r: usize = 0;
        assert(matched_points.deep_view().len() == matched_points.len());
        assert(ranges@.take(0) =~= Seq::<(i64, i64)>::empty());
        assert(tracks.deep_view() =~= Seq::<TrackModel>::empty());
        while r < matched_points.len()
            invariant
                r <= matched_points.len(),
                matched_points.len() == ranges.len(),
                matched_points.deep_view() == collected_all(store@, ranges@),
                ranges_sound(store@, ranges@),
                sync_points@ == plan_windows(store@, ranges@.take(r as int)),
                tracks.deep_view() == plan_tracks(store@, ranges@.take(r as int), readout as int),
            decreases matched_points.len() - r,
        {
            let entries = &matched_points[r];
            let ghost found = entries.deep_view();
            let ghost before = tracks.deep_view();
            proof {
                assert(found == matched_points.deep_view()[r as int]);
                assert(found == collected(
                    store@,
                    ranges@[r as int].0 as int,
                    ranges@[r as int].1 as int,
                ));
                assert(ranges@.take(r + 1).drop_last() =~= ranges@.take(r as int));
                assert(ranges@.take(r + 1).last() == ranges@[r as int]);
            }
            if entries.len() < MIN_ENTRIES {
                r += 1;
                continue ;
            }
            assert forall|k: int| 0 <= k < found.len() implies entry_sound(#[trigger] found[k]) by {
                let listed = collected(store@, ranges@[r as int].0 as int, ranges@[r as int].1 as int);
                assert(entry_sound(listed[k]));
            }
            let mut from_ts: i64 = UNSET_TS;
            let mut to_ts: i64 = 0;
            let mut j: usize = 0;
            assert(found.take(0) =~= Seq::<MatchedEntryModel>::empty());
            assert(tracks.deep_view() =~= before + range_tracks(found, readout as int).take(0));
            while j < entries.len()
                invariant
                    j <= entries.len(),
                    found == entries.deep_view(),
                    forall|k: int| 0 <= k < found.len() ==> entry_sound(#[trigger] found[k]),
                    from_ts == window_start(found.take(j as int)),
                    j > 0 ==> to_ts == found[j - 1].pair.to_ts,
                    tracks.deep_view() == before + range_tracks(found, readout as int).take(j as int),
                decreases entries.len() - j,
            {
                let entry = &entries[j];
                if from_ts == UNSET_TS {
                    from_ts = entry.pair.from_ts;
                }
                to_ts = entry.pair.to_ts;
                proof {
                    assert(found.take(j + 1).drop_last() =~= found.take(j as int));
                    assert(found.take(j + 1).last() == found[j as int]);
                    assert(found[j as int] == entry@);
                }
                let ghost so_far = tracks.deep_view();
                let track = make_track(entries, j, from_ts, readout);
                tracks.push(track);
                assert(tracks.deep_view() =~= so_far.push(track@));
                assert(tracks.deep_view() =~= before + range_tracks(found, readout as int).take(
                    j + 1,
                ));
                j += 1;
            }
            assert(found.take(found.len() as int) =~= found);
            assert(range_tracks(found, readout as int).take(found.len() as int) =~= range_tracks(
                found,
                readout as int,
            ));
            sync_points.push((from_ts, to_ts));
            r += 1;
        }
        proof {
            assert(ranges@.take(ranges.len() as int) =~= ranges@);
            lemma_windows_within_ranges(store@, ranges@);
        }
        FindOffsetsRssync {
            frame_readout_time: readout,
            sync_points,
            tracks,
            sync_params: *sync_params,
            range_count: ranges.len(),
            is_guess_orient: false,
            cancelled: false,
            current_sync_point: 0,
            current_orientation: 0,
            best: None,
        }
    }

    /// Number of sync windows of the run.
    pub fn window_count(&self) -> (count: usize)
        ensures
            count == self@.windows.len(),
    {
        self.sync_points.len()
    }

    /// The sync windows of the run, in the order of the ranges they were
    /// made of.
    pub fn sync_points(&self) -> (windows: &Vec<Window>)
        ensures
            windows@ == self@.windows,
    {
        &self.sync_points
    }

    /// The tracks that the offset search is to be given before it runs.
    pub fn tracks(&self) -> (tracks: &Vec<Track>)
        ensures
            tracks.deep_view() == self@.tracks,
    {
        &self.tracks
    }

    /// The readout time in effect, in microseconds.
    pub fn frame_readout_time(&self) -> (readout: u32)
        ensures
            readout == self@.readout,
    {
        self.frame_readout_time
    }

    /// Starts the pass that estimates the offsets, at the first window.
    pub fn begin_sync(&mut self)
        requires
            old(self).wf(),
        ensures
            final(self).wf(),
            final(self)@ == (SyncRunModel {
                guessing: false,
                cancelled: false,
                current_window: 0,
                ..old(self)@
            }),
    {
        self.is_guess_orient = false;
        self.cancelled = false;
        self.current_sync_point = 0;
    }

    /// The full search to run next: over the current window, and none where
    /// the run has been told to stop or has no window left.
    pub fn next_search(&self) -> (request: Option<SearchRequest>)
        requires
            self.wf(),
        ensures
            request == (if awaiting(self@) {
                Some(
                    request_for(
                        self@.params,
                        self@.windows[self@.current_window as int],
                        REFINE_DEPTH,
                    ),
                )
            } else {
                None
            }),
    {
        if !self.cancelled && self.current_sync_point < self.sync_points.len() {
            Some(make_request(&self.sync_params, self.sync_points[self.current_sync_point], REFINE_DEPTH))
        } else {
            None
        }
    }

    /// Takes the answer of the search over the current window: hands out the
    /// offset where the search found one that is trusted, and moves on to
    /// the next window, or stops the run where the search was cancelled.
    pub fn record_window(&mut self, event: SearchEvent) -> (result: Option<OffsetResult>)
        requires
            old(self).wf(),
        ensures
            final(self).wf(),
            result == search_yield(old(self)@, event),
            final(self)@ == after_search(old(self)@, event),
            result matches Some(r) ==> trusted(
                old(self)@.params,
                delay_behind(r.offset as int, old(self)@.readout as int),
            ),
    {
        if self.cancelled || self.current_sync_point >= self.sync_points.len() {
            return None;
        }
        match event {
            SearchEvent::Cancelled => {
                self.cancelled = true;
                None
            },
            _ => {
                let window = self.sync_points[self.current_sync_point];
                let result = accept(&self.sync_params, self.frame_readout_time, window, event);
                self.current_sync_point = self.current_sync_point + 1;
                result
            },
        }
    }

    /// Estimates the offset of every window from the answers of the
    /// searches, one event for each window in turn. A window whose search
    /// found nothing, or a delay too near the edge of the searched range,
    /// gives no entry. The run ends with the windows, with the events, or at
    /// the first search that was cancelled; what was found until then is
    /// returned.
    pub fn full_sync(&mut self, events: &Vec<SearchEvent>) -> (offsets: Vec<OffsetResult>)
        requires
            old(self).wf(),
        ensures
            final(self).wf(),
            offsets@ == sync_offsets(
                old(self)@.params,
                old(self)@.readout,
                old(self)@.windows,
                events@,
            ),
            final(self)@ == (SyncRunModel {
                guessing: false,
                cancelled: attempts(old(self)@.windows, events@) < shorter(
                    old(self)@.windows.len() as int,
                    events@.len() as int,
                ),
                current_window: attempts(old(self)@.windows, events@) as nat,
                ..old(self)@
            }),
            forall|k: int|
                0 <= k < offsets@.len() ==> trusted(
                    old(self)@.params,
                    delay_behind((#[trigger] offsets@[k]).offset as int, old(self)@.readout as int),
                ),
    {
        self.begin_sync();
        let ghost start = self@;
        let ghost limit = shorter(start.windows.len() as int, events@.len() as int);
        let mut offsets: Vec<OffsetResult> = Vec::new();
        let mut i: usize = 0;
        while i < events.len() && self.next_search().is_some()
            invariant
                self.wf(),
                0 <= i <= limit,
                limit == shorter(start.windows.len() as int, events@.len() as int),
                self@ == (SyncRunModel {
                    cancelled: self@.cancelled,
                    current_window: self@.current_window,
                    ..start
                }),
                self@.current_window == searched(events@, i as int),
                self@.cancelled <==> searched(events@, i as int) < i,
                offsets@ == offsets_of(
                    start.params,
                    start.readout,
                    start.windows,
                    events@,
                    self@.current_window as int,
                ),
                forall|k: int|
                    0 <= k < offsets@.len() ==> trusted(
                        start.params,
                        delay_behind((#[trigger] offsets@[k]).offset as int, start.readout as int),
                    ),
            decreases events.len() - i,
        {
            proof {
                lemma_searched_bound(events@, i as int);
            }
            match self.record_window(events[i]) {
                Some(result) => {
                    offsets.push(result);
                },
                None => {},
            }
            i += 1;
        }
        proof {
            lemma_searched_bound(events@, i as int);
            if self@.cancelled {
                lemma_searched_stays(events@, i as int, limit);
            }
        }
        offsets
    }

    /// Starts a guess of the orientation, at the first candidate.
    pub fn begin_guess(&mut self)
        requires
            old(self).wf(),
        ensures
            final(self).wf(),
            final(self)@ == (SyncRunModel {
                guessing: true,
                current_orientation: 0,
                best: None,
                ..old(self)@
            }),
    {
        self.is_guess_orient = true;
        self.best = None;
        self.current_orientation = 0;
    }

    /// The coarse search to run over window `window` for the orientation
    /// that is being tried, and none where the run has no such window.
    pub fn estimate_request(&self, window: usize) -> (request: Option<SearchRequest>)
        ensures
            request == (if window < self@.windows.len() {
                Some(request_for(self@.params, self@.windows[window as int], 0))
            } else {
                None
            }),
    {
        if window < self.sync_points.len() {
            Some(make_request(&self.sync_params, self.sync_points[window], 0))
        } else {
            None
        }
    }

    /// Takes the answers of the coarse searches for the orientation that is
    /// being tried, one event for each window in turn; returns what the
    /// orientation costs, remembers it where it is the cheapest so far, and
    /// moves on to the next candidate.
    pub fn record_candidate(&mut self, events: &Vec<SearchEvent>) -> (cost: u128)
        requires
            old(self).wf(),
        ensures
            final(self).wf(),
            cost == candidate_cost(events@, old(self)@.windows.len() as int),
            final(self)@ == after_candidate(old(self)@, cost),
    {
        let mut cost: u128 = 0;
        let mut w: usize = 0;
        while w < self.sync_points.len()
            invariant
                w <= self.sync_points.len(),
                cost == candidate_cost(events@, w as int),
            decreases self.sync_points.len() - w,
        {
            proof {
                lemma_cost_bound(events@, w as int);
                assert(w * u64::MAX + u64::MAX <= u128::MAX) by (nonlinear_arith)
                    requires
                        0 <= w <= u64::MAX,
                ;
            }
            if w < events.len() {
                match events[w] {
                    SearchEvent::Found(outcome) => {
                        cost = cost + (outcome.cost as u128);
                    },
                    _ => {},
                }
            }
            w += 1;
        }
        if self.current_orientation < CANDIDATES {
            let cheaper = match self.best {
                Some(best) => cost < best.1,
                None => true,
            };
            if cheaper {
                self.best = Some((self.current_orientation, cost));
            }
            self.current_orientation = self.current_orientation + 1;
        }
        cost
    }

    /// The cheapest orientation recorded so far, by its name, and its cost.
    pub fn best_orientation(&self) -> (found: Option<(String, u128)>)
        requires
            self.wf(),
        ensures
            match (found, self@.best) {
                (Some(found), Some(best)) => found.0@ == label_of(candidate_at(best.0 as int))
                    && found.1 == best.1,
                (None, None) => true,
                _ => false,
            },
    {
        match self.best {
            Some(best) => match candidate(best.0) {
                Some(orientation) => Some((orientation.label(), best.1)),
                None => None,
            },
            None => None,
        }
    }

    /// Guesses the orientation of the gyroscope from the answers of the
    /// coarse searches: `events` holds, for each candidate in the order of
    /// the list, one event for each window in turn. Returns the name of the
    /// candidate whose searches cost the least in sum, the first of them
    /// where several cost the same, and that sum.
    pub fn guess_orient(&mut self, events: &Vec<Vec<SearchEvent>>) -> (guess: Option<(String, u128)>)
        requires
            old(self).wf(),
        ensures
            final(self).wf(),
            guess matches Some(found) && {
                let best = cheapest(
                    events.deep_view(),
                    old(self)@.windows.len() as int,
                    CANDIDATES as int,
                );
                &&& 0 <= best < CANDIDATES
                &&& found.0@ == label_of(candidate_at(best))
                &&& found.1 == total_cost(events.deep_view(), best, old(self)@.windows.len() as int)
                &&& forall|j: int|
                    0 <= j < CANDIDATES ==> found.1 <= #[trigger] total_cost(
                        events.deep_view(),
                        j,
                        old(self)@.windows.len() as int,
                    )
                &&& forall|j: int|
                    0 <= j < best ==> found.1 < #[trigger] total_cost(
                        events.deep_view(),
                        j,
                        old(self)@.windows.len() as int,
                    )
                &&& final(self)@ == (SyncRunModel {
                    guessing: true,
                    current_orientation: CANDIDATES as nat,
                    best: Some((best as usize, found.1)),
                    ..old(self)@
                })
            },
    {
        self.begin_guess();
        let ghost start = self@;
        let ghost all = events.deep_view();
        let ghost windows = start.windows.len() as int;
        let none: Vec<SearchEvent> = Vec::new();
        let mut k: usize = 0;
        while k < CANDIDATES
            invariant
                self.wf(),
                k <= CANDIDATES,
                all == events.deep_view(),
                windows == start.windows.len(),
                none@ == Seq::<SearchEvent>::empty(),
                self@ == (SyncRunModel {
                    current_orientation: k as nat,
                    best: self@.best,
                    ..start
                }),
                k == 0 ==> self@.best is None,
                k > 0 ==> self@.best == Some(
                    (
                        cheapest(all, windows, k as int) as usize,
                        total_cost(all, cheapest(all, windows, k as int), windows) as u128,
                    ),
                ),
            decreases CANDIDATES - k,
        {
            proof {
                lemma_no_events_no_cost(windows);
                if k > 0 {
                    cheapest_is_leftmost_minimum(all, windows, k as int);
                    let b = cheapest(all, windows, k as int);
                    if b < all.len() {
                        lemma_cost_bound(all[b], windows);
                    }
                }
                if k < all.len() {
                    lemma_cost_bound(all[k as int], windows);
                    assert(all[k as int] == events@[k as int]@);
                }
                assert(windows * u64::MAX <= u128::MAX) by (nonlinear_arith)
                    requires
                        0 <= windows <= u64::MAX,
                ;
            }
            if k < events.len() {
                self.record_candidate(&events[k]);
            } else {
                self.record_candidate(&none);
            }
            k += 1;
        }
        proof {
            cheapest_is_leftmost_minimum(all, windows, CANDIDATES as int);
            let b = cheapest(all, windows, CANDIDATES as int);
            if b < all.len() {
                lemma_cost_bound(all[b], windows);
            }
            assert(windows * u64::MAX <= u128::MAX) by (nonlinear_arith)
                requires
                    0 <= windows <= u64::MAX,
            ;
        }
        self.best_orientation()
    }

    /// How far the run has come while a search that reports `inner` is
    /// under way.
    pub fn progress(&self, inner: u32) -> (progress: Progress)
        requires
            self.wf(),
        ensures
            progress.done == progress_of(self@, inner as int).0,
            progress.total == progress_of(self@, inner as int).1,
            0 <= progress.done <= progress.total,
            progress.total > 0,
    {
        if self.range_count == 0 {
            return Progress { done: 0, total: 1 };
        }
        let one: u128 = PROGRESS_ONE as u128;
        let ranges: u128 = self.range_count as u128;
        let current: u128 = self.current_sync_point as u128;
        let tried: u128 = self.current_orientation as u128;
        let ghost limit: int = 0x1_0000_0000_0000_0000;
        proof {
            assert(0 < ranges * one <= limit * 1_000_000) by (nonlinear_arith)
                requires
                    0 < ranges <= limit,
                    one == 1_000_000,
            ;
            assert(0 <= current * one <= ranges * one) by (nonlinear_arith)
                requires
                    0 <= current <= ranges,
                    one == 1_000_000,
            ;
            assert(0 <= tried * (ranges * one) <= 48 * (ranges * one)) by (nonlinear_arith)
                requires
                    0 <= tried <= 48,
                    0 <= ranges * one,
            ;
            assert(self@.range_count * PROGRESS_ONE == ranges * one);
            assert(self@.current_window * PROGRESS_ONE == current * one);
            assert(self@.current_orientation * (ranges * one) == tried * (ranges * one));
            assert(CANDIDATES * (ranges * one) == 48 * (ranges * one));
        }
        let span: u128 = ranges * one;
        let step: u128 = if inner < PROGRESS_ONE {
            inner as u128
        } else {
            one
        };
        let here: u128 = current * one + step;
        let within: u128 = if here <= span {
            here
        } else {
            span
        };
        if self.is_guess_orient {
            let total: u128 = (CANDIDATES as u128) * span;
            let raw: u128 = tried * span + within;
            let done: u128 = if raw <= total {
                raw
            } else {
                total
            };
            Progress { done, total }
        } else {
            Progress { done: within, total: span }
        }
    }
}

/// Estimates the offset between gyroscope and video over each of `ranges`,
/// from the matched points of `store` and the answers of the full searches,
/// one event for each sync window in turn. A range with fewer than
/// `MIN_ENTRIES` entries makes no window and takes no event. The run ends
/// with the windows, with the events, or at the first search that was
/// cancelled; each window before that gives an entry where its search found
/// a delay that is trusted.
pub fn find_offsets(
    store: &FrameStore,
    ranges: &Vec<(i64, i64)>,
    sync_params: &SyncParams,
    params: &ComputeParams,
    events: &Vec<SearchEvent>,
) -> (offsets: Vec<OffsetResult>)
    requires
        sync_params.valid(),
        params.valid(),
        ranges_sound(store@, ranges@),
    ensures
        offsets@ == sync_offsets(
            *sync_params,
            params.readout_time() as u32,
            plan_windows(store@, ranges@),
            events@,
        ),
        forall|k: int|
            0 <= k < offsets@.len() ==> trusted(
                *sync_params,
                delay_behind((#[trigger] offsets@[k]).offset as int, params.readout_time()),
            ),
        events@.len() > 0 && events@[0] == SearchEvent::Cancelled ==> offsets@.len() == 0,
{
    let mut run = FindOffsetsRssync::new(ranges, store, sync_params, params);
    proof {
        if events@.len() > 0 && events@[0] == SearchEvent::Cancelled {
            cancelled_at_once_finds_nothing(
                *sync_params,
                params.readout_time() as u32,
                plan_windows(store@, ranges@),
                events@,
            );
        }
    }
    run.full_sync(events)
}

/// A run whose first search is cancelled has no results.
pub proof fn cancelled_at_once_finds_nothing(
    params: SyncParams,
    readout: u32,
    windows: Seq<Window>,
    events: Seq<SearchEvent>,
)
    requires
        events.len() > 0,
        events[0] == SearchEvent::Cancelled,
    ensures
        attempts(windows, events) == 0,
        sync_offsets(params, readout, windows, events) == Seq::<OffsetResult>::empty(),
{
    let limit = shorter(windows.len() as int, events.len() as int);
    if limit >= 1 {
        assert(searched(events, 1) == 0) by {
            assert(searched(events, 0) == 0);
        }
        lemma_searched_stays(events, 1, limit);
    }
}

/// A run without windows has no results, whatever the searches answer.
pub proof fn no_windows_no_offsets(params: SyncParams, readout: u32, events: Seq<SearchEvent>)
    ensures
        sync_offsets(params, readout, Seq::<Window>::empty(), events) == Seq::<OffsetResult>::empty(),
{
}

/// A range with fewer than `MIN_ENTRIES` entries adds nothing to a run: the
/// windows and the tracks, and with them the results, are those of the run
/// without that range.
pub proof fn sparse_range_adds_nothing(
    frames: Seq<FrameModel>,
    ranges: Seq<(i64, i64)>,
    i: int,
    readout: int,
)
    requires
        0 <= i < ranges.len(),
        collected(frames, ranges[i].0 as int, ranges[i].1 as int).len() < MIN_ENTRIES,
    ensures
        plan_windows(frames, ranges) == plan_windows(frames, ranges.remove(i)),
        plan_tracks(frames, ranges, readout) == plan_tracks(frames, ranges.remove(i), readout),
    decreases ranges.len(),
{
    if i == ranges.len() - 1 {
        assert(ranges.remove(i) =~= ranges.drop_last());
    } else {
        sparse_range_adds_nothing(frames, ranges.drop_last(), i, readout);
        assert(ranges.remove(i).drop_last() =~= ranges.drop_last().remove(i));
        assert(ranges.remove(i).last() == ranges.last());
    }
}

} // verus!
