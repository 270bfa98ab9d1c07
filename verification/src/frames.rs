//! The frame-result store: per-frame optical-flow records in time order,
//! and the query that hands out the matched point pairs of a time range.

use vstd::prelude::*;

verus! {

/// Number of coordinate units in one pixel: coordinates are 16.16 fixed point.
pub const SUBPIXEL_ONE: u32 = 65536;

/// The flow method whose results the synchronization reads.
pub const FLOW_METHOD: usize = 1;

/// An image position, each coordinate in units of `1 / SUBPIXEL_ONE` pixel.
#[derive(Clone, Copy, Debug, PartialEq, Eq)]
pub struct PixelPoint {
    pub x: i32,
    pub y: i32,
}

/// The size of a frame in whole pixels.
#[derive(Clone, Copy, Debug, PartialEq, Eq)]
pub struct FrameSize {
    pub width: u32,
    pub height: u32,
}

/// The points followed from one frame to the next: where they were in the
/// first frame, where they are in the second, and when each frame was taken
/// (microseconds).
#[derive(Clone, Debug, PartialEq, Eq)]
pub struct MatchedPair {
    pub from_ts: i64,
    pub from_points: Vec<PixelPoint>,
    pub to_ts: i64,
    pub to_points: Vec<PixelPoint>,
}

pub ghost struct MatchedPairModel {
    pub from_ts: i64,
    pub from_points: Seq<PixelPoint>,
    pub to_ts: i64,
    pub to_points: Seq<PixelPoint>,
}

impl View for MatchedPair {
    type V = MatchedPairModel;

    open spec fn view(&self) -> MatchedPairModel {
        MatchedPairModel {
            from_ts: self.from_ts,
            from_points: self.from_points@,
            to_ts: self.to_ts,
            to_points: self.to_points@,
        }
    }
}

/// One line of a frame's flow table: what a flow method has recorded for the
/// frame. `pair` is `None` where the method ran and matched nothing.
#[derive(Clone, Debug, PartialEq, Eq)]
pub struct FlowEntry {
    pub method: usize,
    pub pair: Option<MatchedPair>,
}

pub ghost struct FlowEntryModel {
    pub method: usize,
    pub pair: Option<MatchedPairModel>,
}

impl View for FlowEntry {
    type V = FlowEntryModel;

    open spec fn view(&self) -> FlowEntryModel {
        FlowEntryModel {
            method: self.method,
            pair: match self.pair {
                Some(p) => Some(p@),
                None => None,
            },
        }
    }
}

impl DeepView for FlowEntry {
    type V = FlowEntryModel;

    open spec fn deep_view(&self) -> FlowEntryModel {
        self@
    }
}

/// What an attempt to read a frame's flow table finds.
#[derive(Clone, Debug, PartialEq, Eq)]
pub enum OpticalFlow {
    /// The table is held by a writer and cannot be read now.
    Busy,
    /// The table, one line per flow method that has run on the frame.
    Ready(Vec<FlowEntry>),
}

pub ghost enum OpticalFlowModel {
    Busy,
    Ready(Seq<FlowEntryModel>),
}

impl View for OpticalFlow {
    type V = OpticalFlowModel;

    open spec fn view(&self) -> OpticalFlowModel {
        match self {
            OpticalFlow::Busy => OpticalFlowModel::Busy,
            OpticalFlow::Ready(table) => OpticalFlowModel::Ready(table.deep_view()),
        }
    }
}

/// The record of one video frame: its timestamp (microseconds), its size and its
/// optical-flow table.
#[derive(Clone, Debug, PartialEq, Eq)]
pub struct FrameResult {
    pub timestamp: i64,
    pub frame_size: FrameSize,
    pub optical_flow: OpticalFlow,
}

pub ghost struct FrameModel {
    pub timestamp: i64,
    pub frame_size: FrameSize,
    pub optical_flow: OpticalFlowModel,
}

impl View for FrameResult {
    type V = FrameModel;

    open spec fn view(&self) -> FrameModel {
        FrameModel {
            timestamp: self.timestamp,
            frame_size: self.frame_size,
            optical_flow: self.optical_flow@,
        }
    }
}

impl DeepView for FrameResult {
    type V = FrameModel;

    open spec fn deep_view(&self) -> FrameModel {
        self@
    }
}

/// A matched pair as the collector hands it out, with the size of the frame
/// it was found in.
#[derive(Clone, Debug, PartialEq, Eq)]
pub struct MatchedEntry {
    pub pair: MatchedPair,
    pub frame_size: FrameSize,
}

pub ghost struct MatchedEntryModel {
    pub pair: MatchedPairModel,
    pub frame_size: FrameSize,
}

impl View for MatchedEntry {
    type V = MatchedEntryModel;

    open spec fn view(&self) -> MatchedEntryModel {
        MatchedEntryModel { pair: self.pair@, frame_size: self.frame_size }
    }
}

impl DeepView for MatchedEntry {
    type V = MatchedEntryModel;

    open spec fn deep_view(&self) -> MatchedEntryModel {
        self@
    }
}

/// The first line of `table` that belongs to `method`, if there is one.
pub open spec fn find_flow(table: Seq<FlowEntryModel>, method: usize) -> Option<
    Option<MatchedPairModel>,
>
    decreases table.len(),
{
    if table.len() == 0 {
        None
    } else if table[0].method == method {
        Some(table[0].pair)
    } else {
        find_flow(table.skip(1), method)
    }
}

/// The matched pair that a frame offers to the synchronization: the one its
/// table holds under `FLOW_METHOD`, provided the table can be read, the
/// method has run and it matched something.
pub open spec fn usable_pair(frame: FrameModel) -> Option<MatchedPairModel> {
    match frame.optical_flow {
        OpticalFlowModel::Busy => None,
        OpticalFlowModel::Ready(table) => match find_flow(table, FLOW_METHOD) {
            Some(Some(pair)) => Some(pair),
            _ => None,
        },
    }
}

/// Whether a frame contributes an entry to the range `[from_ts, to_ts)`.
pub open spec fn contributes(frame: FrameModel, from_ts: int, to_ts: int) -> bool {
    from_ts <= frame.timestamp < to_ts && usable_pair(frame) is Some
}

/// The entries that the frames of `frames` contribute to `[from_ts, to_ts)`,
/// in the order of the frames.
pub open spec fn collected(frames: Seq<FrameModel>, from_ts: int, to_ts: int) -> Seq<
    MatchedEntryModel,
>
    decreases frames.len(),
{
    if frames.len() == 0 {
        Seq::empty()
    } else {
        let before = collected(frames.drop_last(), from_ts, to_ts);
        let frame = frames.last();
        if contributes(frame, from_ts, to_ts) {
            before.push(
                MatchedEntryModel { pair: usable_pair(frame).unwrap(), frame_size: frame.frame_size },
            )
        } else {
            before
        }
    }
}

/// Copies a list of points.
pub fn copy_points(points: &Vec<PixelPoint>) -> (copy: Vec<PixelPoint>)
    ensures
        copy@ == points@,
{
    let mut copy: Vec<PixelPoint> = Vec::new();
    let mut i: usize = 0;
    while i < points.len()
        invariant
            i <= points.len(),
            copy@ == points@.take(i as int),
        decreases points.len() - i,
    {
        copy.push(points[i]);
        i += 1;
        assert(points@.take(i as int) =~= points@.take(i - 1).push(points@[i - 1]));
    }
    assert(points@.take(points.len() as int) =~= points@);
    copy
}

impl MatchedPair {
    /// A copy of the pair that owns its point lists.
    pub fn duplicate(&self) -> (copy: MatchedPair)
        ensures
            copy@ == self@,
    {
        MatchedPair {
            from_ts: self.from_ts,
            from_points: copy_points(&self.from_points),
            to_ts: self.to_ts,
            to_points: copy_points(&self.to_points),
        }
    }
}

impl FrameResult {
    /// The matched pair that the frame offers to the synchronization.
    pub fn usable(&self) -> (pair: Option<&MatchedPair>)
        ensures
            match pair {
                Some(p) => usable_pair(self@) == Some(p@),
                None => usable_pair(self@) is None,
            },
    {
        match &self.optical_flow {
            OpticalFlow::Busy => None,
            OpticalFlow::Ready(table) => {
                let mut i: usize = 0;
                assert(table.deep_view().skip(0) =~= table.deep_view());
                while i < table.len()
                    invariant
                        i <= table.len(),
                        self.optical_flow@ == OpticalFlowModel::Ready(table.deep_view()),
                        find_flow(table.deep_view(), FLOW_METHOD) == find_flow(
                            table.deep_view().skip(i as int),
                            FLOW_METHOD,
                        ),
                    decreases table.len() - i,
                {
                    assert(table.deep_view().skip(i as int)[0] == table@[i as int]@);
                    if table[i].method == FLOW_METHOD {
                        assert(find_flow(table.deep_view(), FLOW_METHOD) == Some(
                            table@[i as int]@.pair,
                        ));
                        return match &table[i].pair {
                            Some(p) => Some(p),
                            None => None,
                        };
                    }
                    assert(table.deep_view().skip(i as int).skip(1) =~= table.deep_view().skip(
                        i + 1,
                    ));
                    i += 1;
                }
                None
            },
        }
    }
}

/// The frame records of one video, in time order: no two frames share a
/// timestamp, and each frame stands before every later one.
pub struct FrameStore {
    frames: Vec<FrameResult>,
}

/// Whether the timestamps of `frames` strictly increase.
pub open spec fn time_ordered(frames: Seq<FrameModel>) -> bool {
    forall|i: int, j: int|
        0 <= i < j < frames.len() ==> (#[trigger] frames[i]).timestamp < (
        #[trigger] frames[j]).timestamp
}

impl View for FrameStore {
    type V = Seq<FrameModel>;

    closed spec fn view(&self) -> Seq<FrameModel> {
        self.frames.deep_view()
    }
}

/// The number of frames at the head of `frames` that are earlier than `ts`.
pub open spec fn insertion_point(frames: Seq<FrameModel>, ts: int) -> int
    decreases frames.len(),
{
    if frames.len() == 0 || frames[0].timestamp >= ts {
        0
    } else {
        1 + insertion_point(frames.skip(1), ts)
    }
}

/// The frames after `frame` has been put in: in place of the frame of the
/// same timestamp where there is one, else before the first later frame.
pub open spec fn inserted(frames: Seq<FrameModel>, frame: FrameModel) -> Seq<FrameModel> {
    let at = insertion_point(frames, frame.timestamp as int);
    if at < frames.len() && frames[at].timestamp == frame.timestamp {
        frames.update(at, frame)
    } else {
        frames.insert(at, frame)
    }
}

/// The insertion point lies within the frames, the frames before it are
/// earlier than `ts`, and the frame at it is not.
pub proof fn lemma_insertion_point(frames: Seq<FrameModel>, ts: int)
    ensures
        0 <= insertion_point(frames, ts) <= frames.len(),
        forall|k: int|
            0 <= k < insertion_point(frames, ts) ==> (#[trigger] frames[k]).timestamp < ts,
        insertion_point(frames, ts) < frames.len() ==> frames[insertion_point(
            frames,
            ts,
        )].timestamp >= ts,
    decreases frames.len(),
{
    if !(frames.len() == 0 || frames[0].timestamp >= ts) {
        let rest = frames.skip(1);
        lemma_insertion_point(rest, ts);
        assert forall|k: int| 0 <= k < insertion_point(frames, ts) implies (
        #[trigger] frames[k]).timestamp < ts by {
            if k > 0 {
                assert(frames[k] == rest[k - 1]);
            }
        }
        if insertion_point(frames, ts) < frames.len() {
            assert(frames[insertion_point(frames, ts)] == rest[insertion_point(rest, ts)]);
        }
    }
}

/// Putting a frame into frames that are in time order leaves them in time
/// order.
pub proof fn lemma_inserted_ordered(frames: Seq<FrameModel>, frame: FrameModel)
    requires
        time_ordered(frames),
    ensures
        time_ordered(inserted(frames, frame)),
{
    lemma_insertion_point(frames, frame.timestamp as int);
    let at = insertion_point(frames, frame.timestamp as int);
    let after = inserted(frames, frame);
    assert forall|i: int, j: int| 0 <= i < j < after.len() implies (#[trigger] after[i]).timestamp < (
    #[trigger] after[j]).timestamp by {
        if at < frames.len() && frames[at].timestamp == frame.timestamp {
            if i != at {
                assert(after[i] == frames[i]);
            }
            if j != at {
                assert(after[j] == frames[j]);
            }
            if i == at {
                assert(frames[at].timestamp < frames[j].timestamp);
            }
            if j == at {
                assert(frames[i].timestamp < frames[at].timestamp);
            }
        } else {
            if i < at {
                assert(after[i] == frames[i]);
            } else if i > at {
                assert(after[i] == frames[i - 1]);
            }
            if j < at {
                assert(after[j] == frames[j]);
            } else if j > at {
                assert(after[j] == frames[j - 1]);
                if at < frames.len() {
                    assert(frames[at].timestamp <= frames[j - 1].timestamp) by {
                        if at < j - 1 {
                            assert(frames[at].timestamp < frames[j - 1].timestamp);
                        }
                    }
                }
            }
        }
    }
}

impl FrameStore {
    /// The store's invariant: its frames are in time order.
    pub open spec fn wf(&self) -> bool {
        time_ordered(self@)
    }

    /// A store without frames.
    pub fn new() -> (store: FrameStore)
        ensures
            store.wf(),
            store@ == Seq::<FrameModel>::empty(),
    {
        let store = FrameStore { frames: Vec::new() };
        assert(store@ =~= Seq::<FrameModel>::empty());
        store
    }

    /// Number of frames in the store.
    pub fn len(&self) -> (count: usize)
        ensures
            count == self@.len(),
    {
        self.frames.len()
    }

    /// The frame at place `i` in time order, and `None` past the last.
    pub fn get(&self, i: usize) -> (frame: Option<&FrameResult>)
        ensures
            match frame {
                Some(f) => i < self@.len() && f@ == self@[i as int],
                None => i >= self@.len(),
            },
    {
        if i < self.frames.len() {
            Some(&self.frames[i])
        } else {
            None
        }
    }

    /// Puts a frame into the store, in place of the frame of the same
    /// timestamp where the store holds one. Returns whether it took the
    /// place of another.
    pub fn insert(&mut self, frame: FrameResult) -> (replaced: bool)
        requires
            old(self).wf(),
        ensures
            final(self).wf(),
            final(self)@ == inserted(old(self)@, frame@),
            replaced == (final(self)@.len() == old(self)@.len()),
    {
        let ghost before = self@;
        let ghost ts = frame.timestamp as int;
        let mut at: usize = 0;
        assert(before.skip(0) =~= before);
        while at < self.frames.len() && self.frames[at].timestamp < frame.timestamp
            invariant
                at <= self.frames.len(),
                self.frames.deep_view() == before,
                ts == frame.timestamp,
                insertion_point(before, ts) == at + insertion_point(before.skip(at as int), ts),
            decreases self.frames.len() - at,
        {
            assert(before[at as int] == self.frames@[at as int]@);
            assert(before.skip(at as int)[0] == before[at as int]);
            assert(before.skip(at as int).skip(1) =~= before.skip(at + 1));
            at += 1;
        }
        proof {
            if at < self.frames.len() {
                assert(before[at as int] == self.frames@[at as int]@);
                assert(before.skip(at as int)[0] == before[at as int]);
            }
            assert(insertion_point(before, ts) == at);
            lemma_inserted_ordered(before, frame@);
        }
        if at < self.frames.len() && self.frames[at].timestamp == frame.timestamp {
            self.frames.set(at, frame);
            assert(self.frames.deep_view() =~= before.update(at as int, frame@));
            true
        } else {
            self.frames.insert(at, frame);
            assert(self.frames.deep_view() =~= before.insert(at as int, frame@));
            false
        }
    }

    /// The entries that the store's frames contribute to `[from_ts, to_ts)`,
    /// earliest frame first. A range that ends at or before its start holds
    /// no frame and yields nothing.
    pub fn matched_in(&self, from_ts: i64, to_ts: i64) -> (entries: Vec<MatchedEntry>)
        ensures
            entries.deep_view() == collected(self@, from_ts as int, to_ts as int),
    {
        let mut entries: Vec<MatchedEntry> = Vec::new();
        let mut i: usize = 0;
        assert(self@.take(0) =~= Seq::<FrameModel>::empty());
        assert(entries.deep_view() =~= Seq::<MatchedEntryModel>::empty());
        while i < self.frames.len()
            invariant
                i <= self.frames.len(),
                self@ == self.frames.deep_view(),
                entries.deep_view() == collected(self@.take(i as int), from_ts as int, to_ts as int),
            decreases self.frames.len() - i,
        {
            let frame = &self.frames[i];
            let ghost before = entries.deep_view();
            assert(self@.take(i + 1).drop_last() =~= self@.take(i as int));
            assert(self@.take(i + 1).last() == frame@);
            if from_ts <= frame.timestamp && frame.timestamp < to_ts {
                match frame.usable() {
                    Some(pair) => {
                        let entry = MatchedEntry { pair: pair.duplicate(), frame_size: frame.frame_size };
                        entries.push(entry);
                        assert(entries.deep_view() =~= before.push(entry@));
                    },
                    None => {},
                }
            }
            i += 1;
        }
        assert(self@.take(self.frames.len() as int) =~= self@);
        entries
    }
}

} // verus!
