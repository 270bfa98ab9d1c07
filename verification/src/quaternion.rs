//! Rotation samples of the gyroscope, and their change from the convention
//! of the gyroscope to that of the offset search.

use vstd::prelude::*;

verus! {

/// A quaternion in fixed point: the scalar part `w` and the vector part
/// `(x, y, z)`, all four on one scale.
#[derive(Clone, Copy, Debug, PartialEq, Eq)]
pub struct Quat {
    pub w: i64,
    pub x: i64,
    pub y: i64,
    pub z: i64,
}

/// A quaternion over the integers.
pub ghost struct QuatModel {
    pub w: int,
    pub x: int,
    pub y: int,
    pub z: int,
}

impl View for Quat {
    type V = QuatModel;

    open spec fn view(&self) -> QuatModel {
        QuatModel { w: self.w as int, x: self.x as int, y: self.y as int, z: self.z as int }
    }
}

/// A rotation sample: the time in microseconds and the rotation at it.
#[derive(Clone, Copy, Debug, PartialEq, Eq)]
pub struct TimedQuat {
    pub timestamp: i64,
    pub quat: Quat,
}

/// A series of rotations as the offset search takes it: the times and, at
/// the same places, the rotations.
#[derive(Debug, PartialEq, Eq)]
pub struct AdaptedQuats {
    pub timestamps: Vec<i64>,
    pub quats: Vec<Quat>,
}

/// The product of two quaternions.
pub open spec fn product(a: QuatModel, b: QuatModel) -> QuatModel {
    QuatModel {
        w: a.w * b.w - a.x * b.x - a.y * b.y - a.z * b.z,
        x: a.w * b.x + a.x * b.w + a.y * b.z - a.z * b.y,
        y: a.w * b.y - a.x * b.z + a.y * b.w + a.z * b.x,
        z: a.w * b.z + a.x * b.y - a.y * b.x + a.z * b.w,
    }
}

/// The conjugate of a quaternion: the same scalar part, the vector part
/// with its sign turned.
pub open spec fn conjugate(q: QuatModel) -> QuatModel {
    QuatModel { w: q.w, x: -q.x, y: -q.y, z: -q.z }
}

/// The rotation by half a turn about the X axis.
pub open spec fn half_turn_x() -> QuatModel {
    QuatModel { w: 0, x: 1, y: 0, z: 0 }
}

/// A rotation of the gyroscope in the convention of the offset search: the
/// rotation followed by half a turn about X, conjugated.
pub open spec fn adapted(q: QuatModel) -> QuatModel {
    conjugate(product(q, half_turn_x()))
}

/// The square of the length of a quaternion.
pub open spec fn norm_squared(q: QuatModel) -> int {
    q.w * q.w + q.x * q.x + q.y * q.y + q.z * q.z
}

/// The times of a series, in its order.
pub open spec fn series_times(series: Seq<TimedQuat>) -> Seq<i64> {
    Seq::new(series.len(), |i: int| series[i].timestamp)
}

/// The rotations of a series in the convention of the offset search, in
/// its order.
pub open spec fn series_adapted(series: Seq<TimedQuat>) -> Seq<QuatModel> {
    Seq::new(series.len(), |i: int| adapted(series[i].quat@))
}

/// The models of a list of quaternions.
pub open spec fn models(quats: Seq<Quat>) -> Seq<QuatModel> {
    Seq::new(quats.len(), |i: int| quats[i]@)
}

/// Whether every rotation of a series can be adapted.
pub open spec fn series_valid(series: Seq<TimedQuat>) -> bool {
    forall|i: int| 0 <= i < series.len() ==> (#[trigger] series[i]).quat.valid()
}

impl Quat {
    /// Each part has its opposite in the machine's range.
    pub open spec fn valid(&self) -> bool {
        self.w > i64::MIN && self.x > i64::MIN && self.y > i64::MIN && self.z > i64::MIN
    }

    pub fn is_valid(&self) -> (ok: bool)
        ensures
            ok == self.valid(),
    {
        self.w > i64::MIN && self.x > i64::MIN && self.y > i64::MIN && self.z > i64::MIN
    }

    /// The rotation in the convention of the offset search.
    pub fn adapt(&self) -> (out: Quat)
        requires
            self.valid(),
        ensures
            out@ == adapted(self@),
            out.w == -self.x && out.x == -self.w && out.y == -self.z && out.z == self.y,
            out.valid(),
    {
        Quat { w: -self.x, x: -self.w, y: -self.z, z: self.y }
    }
}

/// Tests whether every rotation of a series can be adapted.
pub fn can_adapt(source_quats: &Vec<TimedQuat>) -> (ok: bool)
    ensures
        ok == series_valid(source_quats@),
{
    let mut i: usize = 0;
    while i < source_quats.len()
        invariant
            i <= source_quats.len(),
            forall|k: int| 0 <= k < i ==> (#[trigger] source_quats@[k]).quat.valid(),
        decreases source_quats.len() - i,
    {
        if !source_quats[i].quat.is_valid() {
            return false;
        }
        i += 1;
    }
    true
}

/// Turns a series of rotations of the gyroscope into what the offset search
/// takes: the times as they are, each rotation adapted.
pub fn set_quats(source_quats: &Vec<TimedQuat>) -> (out: AdaptedQuats)
    requires
        series_valid(source_quats@),
    ensures
        out.timestamps@ == series_times(source_quats@),
        models(out.quats@) == series_adapted(source_quats@),
{
    let mut quats: Vec<Quat> = Vec::new();
    let mut timestamps: Vec<i64> = Vec::new();
    let mut i: usize = 0;
    while i < source_quats.len()
        invariant
            i <= source_quats.len(),
            series_valid(source_quats@),
            quats.len() == i,
            timestamps.len() == i,
            forall|k: int| 0 <= k < i ==> timestamps@[k] == source_quats@[k].timestamp,
            forall|k: int| 0 <= k < i ==> quats@[k]@ == adapted(source_quats@[k].quat@),
        decreases source_quats.len() - i,
    {
        let sample = source_quats[i];
        quats.push(sample.quat.adapt());
        timestamps.push(sample.timestamp);
        i += 1;
    }
    assert(timestamps@ =~= series_times(source_quats@));
    assert(models(quats@) =~= series_adapted(source_quats@));
    AdaptedQuats { timestamps, quats }
}

/// Adapting a rotation comes to this: the parts change places and signs.
pub proof fn adapted_parts(q: QuatModel)
    ensures
        adapted(q) == (QuatModel { w: -q.x, x: -q.w, y: -q.z, z: q.y }),
{
}

/// Adapting the same series again gives the same rotations at the same
/// times.
pub proof fn adaptation_is_repeatable(first: Seq<TimedQuat>, second: Seq<TimedQuat>)
    requires
        first == second,
    ensures
        series_times(first) == series_times(second),
        series_adapted(first) == series_adapted(second),
{
}

/// Adapting a rotation keeps its length.
pub proof fn adaptation_keeps_norm(q: QuatModel)
    ensures
        norm_squared(adapted(q)) == norm_squared(q),
{
    adapted_parts(q);
    assert((-q.x) * (-q.x) == q.x * q.x) by (nonlinear_arith);
    assert((-q.w) * (-q.w) == q.w * q.w) by (nonlinear_arith);
    assert((-q.z) * (-q.z) == q.z * q.z) by (nonlinear_arith);
}

} // verus!
