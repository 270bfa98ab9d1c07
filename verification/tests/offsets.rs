use gyro_sync::frames::{
    FlowEntry, FrameResult, FrameSize, FrameStore, MatchedPair, OpticalFlow, PixelPoint,
    FLOW_METHOD, SUBPIXEL_ONE,
};
use gyro_sync::offsets::{
    can_sync, find_offsets, FindOffsetsRssync, Progress, Track, MIN_ENTRIES, PROGRESS_ONE,
};
use gyro_sync::search::{
    OffsetResult, SearchEvent, SearchOutcome, SearchRequest, SyncParams,
};
use gyro_sync::shutter::{ComputeParams, LensProfile};

fn point(x: i32, y: i32) -> PixelPoint {
    PixelPoint { x: x * SUBPIXEL_ONE as i32, y: y * SUBPIXEL_ONE as i32 }
}

fn size() -> FrameSize {
    FrameSize { width: 960, height: 720 }
}

fn flow_frame_with(ts: i64, pair: MatchedPair, frame_size: FrameSize) -> FrameResult {
    FrameResult {
        timestamp: ts,
        frame_size,
        optical_flow: OpticalFlow::Ready(vec![FlowEntry { method: FLOW_METHOD, pair: Some(pair) }]),
    }
}

fn flow_frame(ts: i64, to_ts: i64) -> FrameResult {
    let pair = MatchedPair {
        from_ts: ts,
        from_points: vec![point(100, 0), point(200, 360)],
        to_ts,
        to_points: vec![point(101, 180), point(202, 720)],
    };
    flow_frame_with(ts, pair, size())
}

fn store_of(frames: Vec<FrameResult>) -> FrameStore {
    let mut store = FrameStore::new();
    for f in frames {
        store.insert(f);
    }
    store
}

/// Three matched pairs in the first second, one in the third.
fn two_range_store() -> FrameStore {
    store_of(vec![
        flow_frame(100_000, 133_333),
        flow_frame(133_333, 166_666),
        flow_frame(166_666, 200_000),
        flow_frame(2_100_000, 2_133_333),
    ])
}

fn two_ranges() -> Vec<(i64, i64)> {
    vec![(0, 1_000_000), (2_000_000, 3_000_000)]
}

fn sync_params() -> SyncParams {
    SyncParams { initial_offset: 0, search_size: 5_000_000 }
}

fn global_shutter() -> ComputeParams {
    ComputeParams { frame_readout_time: 0, scaled_fps: 30_000, lens: LensProfile { global_shutter: true } }
}

fn rolling_shutter(readout: u32) -> ComputeParams {
    ComputeParams { frame_readout_time: readout, scaled_fps: 30_000, lens: LensProfile { global_shutter: false } }
}

fn found(cost: u64, offset: i64) -> SearchEvent {
    SearchEvent::Found(SearchOutcome { cost, offset })
}

#[test]
fn window_with_one_pair_is_skipped() {
    let store = two_range_store();
    let ranges = two_ranges();
    assert!(can_sync(&store, &ranges));
    let events = vec![found(2469, -49_075), found(1, 0)];
    let offsets = find_offsets(&store, &ranges, &sync_params(), &global_shutter(), &events);
    assert_eq!(offsets, vec![OffsetResult { timestamp: 150_000, offset: 49_070, cost: 2469 }]);
    assert_eq!(offsets[0].offset as f64 / 1000.0, 49.07);
}

#[test]
fn ranges_with_too_few_pairs_make_no_window() {
    assert_eq!(MIN_ENTRIES, 2);
    let store = two_range_store();
    let ranges = vec![(2_000_000, 3_000_000), (5_000_000, 6_000_000), (100_000, 133_333), (7, 7)];
    let run = FindOffsetsRssync::new(&ranges, &store, &sync_params(), &global_shutter());
    assert_eq!(run.window_count(), 0);
    assert!(run.sync_points().is_empty());
    assert!(run.tracks().is_empty());
    assert!(run.next_search().is_none());
    let events = vec![found(1, 0), found(1, 0), found(1, 0), found(1, 0)];
    assert!(find_offsets(&store, &ranges, &sync_params(), &global_shutter(), &events).is_empty());
}

#[test]
fn sparse_range_changes_nothing() {
    let store = two_range_store();
    let with = FindOffsetsRssync::new(&two_ranges(), &store, &sync_params(), &rolling_shutter(8000));
    let without = FindOffsetsRssync::new(&vec![(0, 1_000_000)], &store, &sync_params(), &rolling_shutter(8000));
    assert_eq!(with.sync_points(), without.sync_points());
    assert_eq!(with.tracks(), without.tracks());
    let events = vec![found(5, 100)];
    assert_eq!(
        find_offsets(&store, &two_ranges(), &sync_params(), &rolling_shutter(8000), &events),
        find_offsets(&store, &vec![(0, 1_000_000)], &sync_params(), &rolling_shutter(8000), &events)
    );
}

#[test]
fn no_ranges_no_offsets() {
    let store = two_range_store();
    let events = vec![found(1, 0)];
    assert!(find_offsets(&store, &Vec::new(), &sync_params(), &global_shutter(), &events).is_empty());
    assert!(find_offsets(&FrameStore::new(), &two_ranges(), &sync_params(), &global_shutter(), &events).is_empty());
}

#[test]
fn window_spans_first_to_last_frame_of_the_range() {
    let store = two_range_store();
    let ranges = vec![(0, 150_000), (0, 1_000_000), (0, 5_000_000)];
    let run = FindOffsetsRssync::new(&ranges, &store, &sync_params(), &global_shutter());
    assert_eq!(run.sync_points(), &vec![(100_000, 166_666), (100_000, 200_000), (100_000, 2_133_333)]);
    assert_eq!(run.window_count(), 3);
    assert_eq!(run.frame_readout_time(), 10);
}

#[test]
fn window_start_skips_the_unset_mark() {
    let pair_at = |from_ts: i64, to_ts: i64| MatchedPair {
        from_ts,
        from_points: vec![point(1, 1)],
        to_ts,
        to_points: vec![point(2, 2)],
    };
    let store = store_of(vec![
        flow_frame_with(-1, pair_at(-1, 40), size()),
        flow_frame_with(40, pair_at(40, 80), size()),
        flow_frame_with(80, pair_at(80, 120), size()),
    ]);
    let run = FindOffsetsRssync::new(&vec![(-10, 100)], &store, &sync_params(), &global_shutter());
    assert_eq!(run.sync_points(), &vec![(40, 120)]);
    let starts: Vec<i64> = run.tracks().iter().map(|t| t.from_ts).collect();
    assert_eq!(starts, vec![-1, 40, 40]);
    let store = store_of(vec![
        flow_frame_with(-1, pair_at(-1, 40), size()),
        flow_frame_with(0, pair_at(-1, 80), size()),
    ]);
    let run = FindOffsetsRssync::new(&vec![(-10, 100)], &store, &sync_params(), &global_shutter());
    assert_eq!(run.sync_points(), &vec![(-1, 80)]);
}

#[test]
fn tracks_carry_scanline_times() {
    let store = two_range_store();
    let run = FindOffsetsRssync::new(&two_ranges(), &store, &sync_params(), &rolling_shutter(8000));
    assert_eq!(run.frame_readout_time(), 8000);
    let tracks = run.tracks();
    assert_eq!(tracks.len(), 3);
    assert_eq!(
        tracks[0],
        Track {
            key: 100_000,
            from_ts: 100_000,
            to_ts: 133_333,
            frame_size: size(),
            points_a: vec![point(100, 0), point(200, 360)],
            points_b: vec![point(101, 180), point(202, 720)],
            times_a: vec![100_000_000, 104_000_000],
            times_b: vec![135_333_000, 141_333_000],
        }
    );
    assert_eq!(tracks[1].key, 133_333);
    assert_eq!(tracks[1].from_ts, 100_000);
    assert_eq!(tracks[1].to_ts, 166_666);
    assert_eq!(tracks[2].key, 166_666);
    assert_eq!(tracks[2].times_b, vec![202_000_000, 208_000_000]);
}

#[test]
fn mismatched_point_lists_are_refused() {
    let uneven = MatchedPair {
        from_ts: 133_333,
        from_points: vec![point(1, 1), point(2, 2)],
        to_ts: 166_666,
        to_points: vec![point(1, 1)],
    };
    let mut store = two_range_store();
    store.insert(flow_frame_with(133_333, uneven.duplicate(), size()));
    assert!(!can_sync(&store, &two_ranges()));
    // a range that holds the pair but makes no window is no obstacle
    assert!(can_sync(&store, &vec![(133_333, 133_334), (2_000_000, 3_000_000)]));
    assert!(can_sync(&store, &vec![(0, 133_333)]));
    assert!(can_sync(&two_range_store(), &two_ranges()));
}

#[test]
fn frame_without_height_is_refused() {
    let mut store = two_range_store();
    let pair = store.get(0).unwrap().usable().unwrap().duplicate();
    store.insert(flow_frame_with(100_000, pair, FrameSize { width: 960, height: 0 }));
    assert!(!can_sync(&store, &two_ranges()));
    assert!(can_sync(&store, &vec![(133_333, 1_000_000)]));
}

#[test]
fn cancelled_before_first_window_returns_nothing() {
    let store = two_range_store();
    let ranges = vec![(0, 150_000), (0, 1_000_000)];
    let events = vec![SearchEvent::Cancelled, found(1, 0)];
    assert!(find_offsets(&store, &ranges, &sync_params(), &global_shutter(), &events).is_empty());
    let mut run = FindOffsetsRssync::new(&ranges, &store, &sync_params(), &global_shutter());
    assert!(run.full_sync(&events).is_empty());
    assert!(run.next_search().is_none());
    assert_eq!(run.record_window(found(1, 0)), None);
}

#[test]
fn cancelled_run_keeps_what_was_found() {
    let store = two_range_store();
    let ranges = vec![(0, 150_000), (0, 1_000_000), (0, 5_000_000)];
    let events = vec![found(3, 10), SearchEvent::Cancelled, found(4, 20)];
    let offsets = find_offsets(&store, &ranges, &sync_params(), &global_shutter(), &events);
    assert_eq!(offsets, vec![OffsetResult { timestamp: 133_333, offset: -15, cost: 3 }]);
}

#[test]
fn window_without_result_is_skipped() {
    let store = two_range_store();
    let ranges = vec![(0, 150_000), (0, 1_000_000), (0, 5_000_000)];
    let events = vec![SearchEvent::NoResult, found(4, 4_500_000), found(5, -4_499_999)];
    let offsets = find_offsets(&store, &ranges, &sync_params(), &rolling_shutter(3), &events);
    assert_eq!(offsets, vec![OffsetResult { timestamp: 1_116_666, offset: 4_499_998, cost: 5 }]);
}

#[test]
fn run_ends_with_the_events() {
    let store = two_range_store();
    let ranges = vec![(0, 150_000), (0, 1_000_000), (0, 5_000_000)];
    let mut run = FindOffsetsRssync::new(&ranges, &store, &sync_params(), &global_shutter());
    let offsets = run.full_sync(&vec![found(3, 10), found(4, 20)]);
    assert_eq!(offsets.len(), 2);
    assert_eq!(run.next_search().unwrap().from_ts, 100_000);
    assert_eq!(run.next_search().unwrap().to_ts, 2_133_333);
    assert!(run.full_sync(&Vec::new()).is_empty());
    let offsets = run.full_sync(&vec![found(3, 10), found(4, 20), found(5, 30), found(6, 40)]);
    assert_eq!(offsets.len(), 3);
    assert!(run.next_search().is_none());
}

#[test]
fn searches_are_asked_window_by_window() {
    let store = two_range_store();
    let ranges = vec![(0, 150_000), (0, 1_000_000)];
    let params = SyncParams { initial_offset: -7_000, search_size: 2_000_000 };
    let mut run = FindOffsetsRssync::new(&ranges, &store, &params, &global_shutter());
    run.begin_sync();
    let first = run.next_search().unwrap();
    assert_eq!(
        first,
        SearchRequest {
            initial_delay: 7_000,
            from_ts: 100_000,
            to_ts: 166_666,
            step: 3_000,
            radius: 2_000_000,
            refine_depth: 4,
        }
    );
    assert_eq!(
        run.record_window(found(9, 7_100)),
        Some(OffsetResult { timestamp: 133_333, offset: -7_105, cost: 9 })
    );
    let second = run.next_search().unwrap();
    assert_eq!((second.from_ts, second.to_ts), (100_000, 200_000));
    assert_eq!(run.record_window(found(9, 1_807_000)), None);
    assert!(run.next_search().is_none());
    assert_eq!(run.record_window(found(9, 7_000)), None);
}

#[test]
fn every_result_lies_inside_the_trusted_range() {
    let store = two_range_store();
    let ranges = vec![(0, 150_000), (0, 1_000_000), (0, 5_000_000)];
    let params = SyncParams { initial_offset: 1_000, search_size: 10_000 };
    let readout: u32 = 4_001;
    let events = vec![found(1, 7_999), found(2, 8_000), found(3, -9_999)];
    let offsets = find_offsets(&store, &ranges, &params, &rolling_shutter(readout), &events);
    assert_eq!(offsets.len(), 2);
    for r in &offsets {
        let delay = -(r.offset + (readout / 2) as i64);
        assert!(10 * (delay + 1_000).abs() < 9 * 10_000);
    }
    assert_eq!(offsets[0].offset, -7_999 - 2_000);
    assert_eq!(offsets[1].offset, 9_999 - 2_000);
}

#[test]
fn progress_counts_windows_out_of_ranges() {
    let store = two_range_store();
    let ranges = vec![(0, 150_000), (2_000_000, 3_000_000), (0, 1_000_000), (0, 5_000_000)];
    let mut run = FindOffsetsRssync::new(&ranges, &store, &sync_params(), &global_shutter());
    assert_eq!(PROGRESS_ONE, 1_000_000);
    assert_eq!(run.progress(0), Progress { done: 0, total: 4_000_000 });
    assert_eq!(run.progress(250_000), Progress { done: 250_000, total: 4_000_000 });
    assert_eq!(run.progress(u32::MAX), Progress { done: 1_000_000, total: 4_000_000 });
    run.record_window(found(1, 0));
    assert_eq!(run.progress(500_000), Progress { done: 1_500_000, total: 4_000_000 });
    run.record_window(SearchEvent::NoResult);
    run.record_window(found(1, 0));
    assert_eq!(run.progress(0), Progress { done: 3_000_000, total: 4_000_000 });
    assert_eq!(run.progress(PROGRESS_ONE), Progress { done: 4_000_000, total: 4_000_000 });
    run.begin_sync();
    assert_eq!(run.progress(0), Progress { done: 0, total: 4_000_000 });
}

#[test]
fn progress_of_a_guess_counts_orientations() {
    let store = two_range_store();
    let ranges = vec![(0, 150_000), (0, 1_000_000)];
    let mut run = FindOffsetsRssync::new(&ranges, &store, &sync_params(), &global_shutter());
    run.begin_guess();
    assert_eq!(run.progress(0), Progress { done: 0, total: 96_000_000 });
    assert_eq!(run.progress(500_000), Progress { done: 500_000, total: 96_000_000 });
    run.record_candidate(&Vec::new());
    assert_eq!(run.progress(500_000), Progress { done: 2_500_000, total: 96_000_000 });
    for _ in 1..48 {
        run.record_candidate(&Vec::new());
    }
    assert_eq!(run.progress(500_000), Progress { done: 96_000_000, total: 96_000_000 });
    run.begin_sync();
    assert_eq!(run.progress(500_000), Progress { done: 500_000, total: 2_000_000 });
}

#[test]
fn progress_never_passes_one() {
    let store = two_range_store();
    let none: Vec<(i64, i64)> = Vec::new();
    let run = FindOffsetsRssync::new(&none, &store, &sync_params(), &global_shutter());
    assert_eq!(run.progress(700_000), Progress { done: 0, total: 1 });
    let ranges = vec![(0, 150_000)];
    let mut run = FindOffsetsRssync::new(&ranges, &store, &sync_params(), &global_shutter());
    run.record_window(found(1, 0));
    let p = run.progress(900_000);
    assert_eq!(p, Progress { done: 1_000_000, total: 1_000_000 });
    assert!(p.done <= p.total);
}
