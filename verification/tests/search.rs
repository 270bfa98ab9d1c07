use gyro_sync::search::{
    accept, center_of, is_trusted, make_request, OffsetResult, SearchEvent, SearchOutcome,
    SearchRequest, SyncParams, PRESYNC_STEP, REFINE_DEPTH,
};

fn params(initial_offset: i32, search_size: u32) -> SyncParams {
    SyncParams { initial_offset, search_size }
}

fn found(cost: u64, offset: i64) -> SearchEvent {
    SearchEvent::Found(SearchOutcome { cost, offset })
}

#[test]
fn search_radius_must_be_positive() {
    assert!(params(0, 1).is_valid());
    assert!(!params(0, 0).is_valid());
}

#[test]
fn request_starts_at_the_inverted_offset() {
    let request = make_request(&params(250_000, 5_000_000), (1_000, 9_000), REFINE_DEPTH);
    assert_eq!(
        request,
        SearchRequest {
            initial_delay: -250_000,
            from_ts: 1_000,
            to_ts: 9_000,
            step: 3_000,
            radius: 5_000_000,
            refine_depth: 4,
        }
    );
    assert_eq!(PRESYNC_STEP, 3_000);
    let coarse = make_request(&params(i32::MIN, 1), (0, 0), 0);
    assert_eq!(coarse.initial_delay, 2_147_483_648);
    assert_eq!(coarse.refine_depth, 0);
}

#[test]
fn delay_is_trusted_inside_nine_tenths_of_the_radius() {
    let p = params(0, 1000);
    assert!(is_trusted(&p, 0));
    assert!(is_trusted(&p, 899));
    assert!(is_trusted(&p, -899));
    assert!(!is_trusted(&p, 900));
    assert!(!is_trusted(&p, -900));
    assert!(!is_trusted(&p, 5000));
    // around an initial offset of 300: the initial delay is -300
    let p = params(300, 1000);
    assert!(is_trusted(&p, -300));
    assert!(is_trusted(&p, 599));
    assert!(!is_trusted(&p, 600));
    assert!(is_trusted(&p, -1199));
    assert!(!is_trusted(&p, -1200));
    // radii that are no multiple of ten
    let p = params(0, 1);
    assert!(is_trusted(&p, 0));
    assert!(!is_trusted(&p, 1));
    let p = params(0, 11);
    assert!(is_trusted(&p, 9));
    assert!(!is_trusted(&p, 10));
}

#[test]
fn trust_test_at_the_limits() {
    assert!(!is_trusted(&params(i32::MIN, u32::MAX), i64::MIN));
    assert!(!is_trusted(&params(i32::MAX, u32::MAX), i64::MAX));
    assert!(is_trusted(&params(i32::MIN, u32::MAX), 2_147_483_648));
}

#[test]
fn window_center_rounds_down() {
    assert_eq!(center_of((0, 10)), 5);
    assert_eq!(center_of((0, 11)), 5);
    assert_eq!(center_of((-11, 0)), -6);
    assert_eq!(center_of((-10, 0)), -5);
    assert_eq!(center_of((-1, 0)), -1);
    assert_eq!(center_of((i64::MAX, i64::MAX)), i64::MAX);
    assert_eq!(center_of((i64::MIN, i64::MIN)), i64::MIN);
    assert_eq!(center_of((i64::MIN, i64::MAX)), -1);
}

#[test]
fn accepted_offset_is_inverted_and_corrected_by_half_the_readout_time() {
    let p = params(0, 100_000);
    let result = accept(&p, 16_000, (3_000_000, 3_806_800), found(2469, -49_071));
    assert_eq!(result, Some(OffsetResult { timestamp: 3_403_400, offset: 41_071, cost: 2469 }));
    let result = accept(&p, 0, (0, 2), found(7, 1234));
    assert_eq!(result, Some(OffsetResult { timestamp: 1, offset: -1234, cost: 7 }));
    // half of an odd readout time is rounded down
    let result = accept(&p, 11, (0, 2), found(7, 100));
    assert_eq!(result, Some(OffsetResult { timestamp: 1, offset: -105, cost: 7 }));
}

#[test]
fn offset_at_the_edge_of_the_range_is_rejected() {
    let p = params(0, 100_000);
    assert_eq!(accept(&p, 10, (0, 10), found(1, 90_000)), None);
    assert_eq!(accept(&p, 10, (0, 10), found(1, -90_000)), None);
    assert_eq!(accept(&p, 10, (0, 10), found(1, 100_000)), None);
    assert!(accept(&p, 10, (0, 10), found(1, 89_999)).is_some());
    assert!(accept(&p, 10, (0, 10), found(1, -89_999)).is_some());
}

#[test]
fn search_without_result_gives_no_entry() {
    let p = params(0, 100_000);
    assert_eq!(accept(&p, 10, (0, 10), SearchEvent::NoResult), None);
    assert_eq!(accept(&p, 10, (0, 10), SearchEvent::Cancelled), None);
}
