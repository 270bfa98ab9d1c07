//! The orientations in which a gyroscope can be mounted: every way of
//! mapping its three axes onto those of the camera, each axis kept or
//! flipped. A guess tries them in the order of `candidate_at`.

use vstd::prelude::*;
use vstd::string::StringExecFns;

verus! {

/// Number of orientations: six orders of the axes, eight choices of signs.
pub const CANDIDATES: usize = 48;

#[derive(Clone, Copy, Debug, PartialEq, Eq, Structural)]
pub enum Axis {
    X,
    Y,
    Z,
}

/// An axis, as it is or with its direction turned round.
#[derive(Clone, Copy, Debug, PartialEq, Eq, Structural)]
pub struct SignedAxis {
    pub axis: Axis,
    pub flipped: bool,
}

/// An orientation: the gyroscope axis that each camera axis reads, in the
/// order of the camera axes.
#[derive(Clone, Copy, Debug, PartialEq, Eq, Structural)]
pub struct Orientation {
    pub first: SignedAxis,
    pub second: SignedAxis,
    pub third: SignedAxis,
}

/// The axis as it is.
#[verifier::when_used_as_spec(spec_up)]
pub fn up(axis: Axis) -> (signed: SignedAxis)
    ensures
        signed == spec_up(axis),
{
    SignedAxis { axis, flipped: false }
}

pub open spec fn spec_up(axis: Axis) -> SignedAxis {
    SignedAxis { axis, flipped: false }
}

/// The axis with its direction turned round.
#[verifier::when_used_as_spec(spec_down)]
pub fn down(axis: Axis) -> (signed: SignedAxis)
    ensures
        signed == spec_down(axis),
{
    SignedAxis { axis, flipped: true }
}

pub open spec fn spec_down(axis: Axis) -> SignedAxis {
    SignedAxis { axis, flipped: true }
}

/// The orientation made of three signed axes.
#[verifier::when_used_as_spec(spec_turned)]
pub fn turned(first: SignedAxis, second: SignedAxis, third: SignedAxis) -> (orientation: Orientation)
    ensures
        orientation == spec_turned(first, second, third),
{
    Orientation { first, second, third }
}

pub open spec fn spec_turned(first: SignedAxis, second: SignedAxis, third: SignedAxis) -> Orientation {
    Orientation { first, second, third }
}

/// The letter that stands for a signed axis: the name of the axis, in upper
/// case as it is, in lower case where it is flipped.
pub open spec fn letter(signed: SignedAxis) -> char {
    match signed.axis {
        Axis::X => if signed.flipped {
            'x'
        } else {
            'X'
        },
        Axis::Y => if signed.flipped {
            'y'
        } else {
            'Y'
        },
        Axis::Z => if signed.flipped {
            'z'
        } else {
            'Z'
        },
    }
}

/// The name of an orientation: the letters of its three axes.
pub open spec fn label_of(orientation: Orientation) -> Seq<char> {
    seq![letter(orientation.first), letter(orientation.second), letter(orientation.third)]
}

/// The candidate at place `i` of the list that a guess goes through.
pub open spec fn candidate_at(i: int) -> Orientation
    recommends
        0 <= i < CANDIDATES,
{
    if i == 0 {
        turned(up(Axis::Y), down(Axis::X), up(Axis::Z))
    } else if i == 1 {
        turned(up(Axis::X), down(Axis::Y), down(Axis::Z))
    } else if i == 2 {
        turned(up(Axis::X), up(Axis::Z), down(Axis::Y))
    } else if i == 3 {
        turned(up(Axis::Z), down(Axis::X), down(Axis::Y))
    } else if i == 4 {
        turned(down(Axis::Z), down(Axis::Y), up(Axis::X))
    } else if i == 5 {
        turned(down(Axis::Y), down(Axis::X), up(Axis::Z))
    } else if i == 6 {
        turned(up(Axis::Z), up(Axis::X), up(Axis::Y))
    } else if i == 7 {
        turned(down(Axis::Z), up(Axis::Y), down(Axis::X))
    } else if i == 8 {
        turned(up(Axis::Z), up(Axis::Y), up(Axis::X))
    } else if i == 9 {
        turned(down(Axis::Y), up(Axis::X), down(Axis::Z))
    } else if i == 10 {
        turned(up(Axis::Y), up(Axis::Z), up(Axis::X))
    } else if i == 11 {
        turned(up(Axis::X), down(Axis::Y), up(Axis::Z))
    } else if i == 12 {
        turned(up(Axis::Y), down(Axis::Z), down(Axis::X))
    } else if i == 13 {
        turned(down(Axis::Z), up(Axis::X), down(Axis::Y))
    } else if i == 14 {
        turned(up(Axis::Y), up(Axis::X), down(Axis::Z))
    } else if i == 15 {
        turned(down(Axis::X), down(Axis::Y), down(Axis::Z))
    } else if i == 16 {
        turned(down(Axis::Y), up(Axis::Z), down(Axis::X))
    } else if i == 17 {
        turned(up(Axis::X), up(Axis::Y), up(Axis::Z))
    } else if i == 18 {
        turned(down(Axis::Z), down(Axis::X), down(Axis::Y))
    } else if i == 19 {
        turned(down(Axis::X), up(Axis::Y), down(Axis::Z))
    } else if i == 20 {
        turned(up(Axis::X), up(Axis::Y), down(Axis::Z))
    } else if i == 21 {
        turned(down(Axis::Z), down(Axis::X), up(Axis::Y))
    } else if i == 22 {
        turned(down(Axis::Z), up(Axis::X), up(Axis::Y))
    } else if i == 23 {
        turned(down(Axis::X), up(Axis::Z), down(Axis::Y))
    } else if i == 24 {
        turned(down(Axis::Z), down(Axis::Y), down(Axis::X))
    } else if i == 25 {
        turned(down(Axis::X), down(Axis::Y), up(Axis::Z))
    } else if i == 26 {
        turned(up(Axis::Y), down(Axis::X), down(Axis::Z))
    } else if i == 27 {
        turned(down(Axis::X), down(Axis::Z), down(Axis::Y))
    } else if i == 28 {
        turned(down(Axis::Y), up(Axis::Z), up(Axis::X))
    } else if i == 29 {
        turned(down(Axis::Y), down(Axis::Z), up(Axis::X))
    } else if i == 30 {
        turned(up(Axis::Z), up(Axis::Y), down(Axis::X))
    } else if i == 31 {
        turned(down(Axis::X), up(Axis::Y), up(Axis::Z))
    } else if i == 32 {
        turned(down(Axis::Z), up(Axis::Y), up(Axis::X))
    } else if i == 33 {
        turned(up(Axis::Z), down(Axis::X), up(Axis::Y))
    } else if i == 34 {
        turned(down(Axis::Y), down(Axis::Z), down(Axis::X))
    } else if i == 35 {
        turned(down(Axis::X), up(Axis::Z), up(Axis::Y))
    } else if i == 36 {
        turned(up(Axis::X), down(Axis::Z), down(Axis::Y))
    } else if i == 37 {
        turned(up(Axis::X), down(Axis::Z), up(Axis::Y))
    } else if i == 38 {
        turned(up(Axis::Y), down(Axis::Z), up(Axis::X))
    } else if i == 39 {
        turned(up(Axis::Z), down(Axis::Y), down(Axis::X))
    } else if i == 40 {
        turned(up(Axis::X), up(Axis::Z), up(Axis::Y))
    } else if i == 41 {
        turned(down(Axis::Y), down(Axis::X), down(Axis::Z))
    } else if i == 42 {
        turned(down(Axis::X), down(Axis::Z), up(Axis::Y))
    } else if i == 43 {
        turned(up(Axis::Z), down(Axis::Y), up(Axis::X))
    } else if i == 44 {
        turned(up(Axis::Y), up(Axis::X), up(Axis::Z))
    } else if i == 45 {
        turned(down(Axis::Y), up(Axis::X), up(Axis::Z))
    } else if i == 46 {
        turned(up(Axis::Y), up(Axis::Z), down(Axis::X))
    } else {
        turned(up(Axis::Z), up(Axis::X), down(Axis::Y))
    }
}

/// The place of an orientation in the list of candidates, and `CANDIDATES`
/// where the list does not hold it.
pub open spec fn position(orientation: Orientation) -> int {
    if orientation == turned(up(Axis::Y), down(Axis::X), up(Axis::Z)) {
        0
    } else if orientation == turned(up(Axis::X), down(Axis::Y), down(Axis::Z)) {
        1
    } else if orientation == turned(up(Axis::X), up(Axis::Z), down(Axis::Y)) {
        2
    } else if orientation == turned(up(Axis::Z), down(Axis::X), down(Axis::Y)) {
        3
    } else if orientation == turned(down(Axis::Z), down(Axis::Y), up(Axis::X)) {
        4
    } else if orientation == turned(down(Axis::Y), down(Axis::X), up(Axis::Z)) {
        5
    } else if orientation == turned(up(Axis::Z), up(Axis::X), up(Axis::Y)) {
        6
    } else if orientation == turned(down(Axis::Z), up(Axis::Y), down(Axis::X)) {
        7
    } else if orientation == turned(up(Axis::Z), up(Axis::Y), up(Axis::X)) {
        8
    } else if orientation == turned(down(Axis::Y), up(Axis::X), down(Axis::Z)) {
        9
    } else if orientation == turned(up(Axis::Y), up(Axis::Z), up(Axis::X)) {
        10
    } else if orientation == turned(up(Axis::X), down(Axis::Y), up(Axis::Z)) {
        11
    } else if orientation == turned(up(Axis::Y), down(Axis::Z), down(Axis::X)) {
        12
    } else if orientation == turned(down(Axis::Z), up(Axis::X), down(Axis::Y)) {
        13
    } else if orientation == turned(up(Axis::Y), up(Axis::X), down(Axis::Z)) {
        14
    } else if orientation == turned(down(Axis::X), down(Axis::Y), down(Axis::Z)) {
        15
    } else if orientation == turned(down(Axis::Y), up(Axis::Z), down(Axis::X)) {
        16
    } else if orientation == turned(up(Axis::X), up(Axis::Y), up(Axis::Z)) {
        17
    } else if orientation == turned(down(Axis::Z), down(Axis::X), down(Axis::Y)) {
        18
    } else if orientation == turned(down(Axis::X), up(Axis::Y), down(Axis::Z)) {
        19
    } else if orientation == turned(up(Axis::X), up(Axis::Y), down(Axis::Z)) {
        20
    } else if orientation == turned(down(Axis::Z), down(Axis::X), up(Axis::Y)) {
        21
    } else if orientation == turned(down(Axis::Z), up(Axis::X), up(Axis::Y)) {
        22
    } else if orientation == turned(down(Axis::X), up(Axis::Z), down(Axis::Y)) {
        23
    } else if orientation == turned(down(Axis::Z), down(Axis::Y), down(Axis::X)) {
        24
    } else if orientation == turned(down(Axis::X), down(Axis::Y), up(Axis::Z)) {
        25
    } else if orientation == turned(up(Axis::Y), down(Axis::X), down(Axis::Z)) {
        26
    } else if orientation == turned(down(Axis::X), down(Axis::Z), down(Axis::Y)) {
        27
    } else if orientation == turned(down(Axis::Y), up(Axis::Z), up(Axis::X)) {
        28
    } else if orientation == turned(down(Axis::Y), down(Axis::Z), up(Axis::X)) {
        29
    } else if orientation == turned(up(Axis::Z), up(Axis::Y), down(Axis::X)) {
        30
    } else if orientation == turned(down(Axis::X), up(Axis::Y), up(Axis::Z)) {
        31
    } else if orientation == turned(down(Axis::Z), up(Axis::Y), up(Axis::X)) {
        32
    } else if orientation == turned(up(Axis::Z), down(Axis::X), up(Axis::Y)) {
        33
    } else if orientation == turned(down(Axis::Y), down(Axis::Z), down(Axis::X)) {
        34
    } else if orientation == turned(down(Axis::X), up(Axis::Z), up(Axis::Y)) {
        35
    } else if orientation == turned(up(Axis::X), down(Axis::Z), down(Axis::Y)) {
        36
    } else if orientation == turned(up(Axis::X), down(Axis::Z), up(Axis::Y)) {
        37
    } else if orientation == turned(up(Axis::Y), down(Axis::Z), up(Axis::X)) {
        38
    } else if orientation == turned(up(Axis::Z), down(Axis::Y), down(Axis::X)) {
        39
    } else if orientation == turned(up(Axis::X), up(Axis::Z), up(Axis::Y)) {
        40
    } else if orientation == turned(down(Axis::Y), down(Axis::X), down(Axis::Z)) {
        41
    } else if orientation == turned(down(Axis::X), down(Axis::Z), up(Axis::Y)) {
        42
    } else if orientation == turned(up(Axis::Z), down(Axis::Y), up(Axis::X)) {
        43
    } else if orientation == turned(up(Axis::Y), up(Axis::X), up(Axis::Z)) {
        44
    } else if orientation == turned(down(Axis::Y), up(Axis::X), up(Axis::Z)) {
        45
    } else if orientation == turned(up(Axis::Y), up(Axis::Z), down(Axis::X)) {
        46
    } else if orientation == turned(up(Axis::Z), up(Axis::X), down(Axis::Y)) {
        47
    } else {
        CANDIDATES as int
    }
}

impl Orientation {
    /// No axis of the gyroscope is read twice.
    pub open spec fn valid(&self) -> bool {
        self.first.axis != self.second.axis && self.first.axis != self.third.axis
            && self.second.axis != self.third.axis
    }

    /// The name of the orientation.
    pub fn label(&self) -> (name: String)
        ensures
            name@ == label_of(*self),
    {
        let mut name = String::from_str(letter_of(self.first));
        name.append(letter_of(self.second));
        name.append(letter_of(self.third));
        assert(name@ =~= label_of(*self));
        name
    }
}

/// The letter that stands for a signed axis, as a string.
fn letter_of(signed: SignedAxis) -> (text: &'static str)
    ensures
        text@ == seq![letter(signed)],
{
    proof {
        reveal_strlit("X");
        reveal_strlit("x");
        reveal_strlit("Y");
        reveal_strlit("y");
        reveal_strlit("Z");
        reveal_strlit("z");
    }
    let text = match signed.axis {
        Axis::X => if signed.flipped {
            "x"
        } else {
            "X"
        },
        Axis::Y => if signed.flipped {
            "y"
        } else {
            "Y"
        },
        Axis::Z => if signed.flipped {
            "z"
        } else {
            "Z"
        },
    };
    assert(text@ =~= seq![letter(signed)]);
    text
}

/// The candidate at place `i` of the list, and `None` past its end.
pub fn candidate(i: usize) -> (orientation: Option<Orientation>)
    ensures
        orientation == (if i < CANDIDATES {
            Some(candidate_at(i as int))
        } else {
            None
        }),
{
    match i {
        0 => Some(turned(up(Axis::Y), down(Axis::X), up(Axis::Z))),
        1 => Some(turned(up(Axis::X), down(Axis::Y), down(Axis::Z))),
        2 => Some(turned(up(Axis::X), up(Axis::Z), down(Axis::Y))),
        3 => Some(turned(up(Axis::Z), down(Axis::X), down(Axis::Y))),
        4 => Some(turned(down(Axis::Z), down(Axis::Y), up(Axis::X))),
        5 => Some(turned(down(Axis::Y), down(Axis::X), up(Axis::Z))),
        6 => Some(turned(up(Axis::Z), up(Axis::X), up(Axis::Y))),
        7 => Some(turned(down(Axis::Z), up(Axis::Y), down(Axis::X))),
        8 => Some(turned(up(Axis::Z), up(Axis::Y), up(Axis::X))),
        9 => Some(turned(down(Axis::Y), up(Axis::X), down(Axis::Z))),
        10 => Some(turned(up(Axis::Y), up(Axis::Z), up(Axis::X))),
        11 => Some(turned(up(Axis::X), down(Axis::Y), up(Axis::Z))),
        12 => Some(turned(up(Axis::Y), down(Axis::Z), down(Axis::X))),
        13 => Some(turned(down(Axis::Z), up(Axis::X), down(Axis::Y))),
        14 => Some(turned(up(Axis::Y), up(Axis::X), down(Axis::Z))),
        15 => Some(turned(down(Axis::X), down(Axis::Y), down(Axis::Z))),
        16 => Some(turned(down(Axis::Y), up(Axis::Z), down(Axis::X))),
        17 => Some(turned(up(Axis::X), up(Axis::Y), up(Axis::Z))),
        18 => Some(turned(down(Axis::Z), down(Axis::X), down(Axis::Y))),
        19 => Some(turned(down(Axis::X), up(Axis::Y), down(Axis::Z))),
        20 => Some(turned(up(Axis::X), up(Axis::Y), down(Axis::Z))),
        21 => Some(turned(down(Axis::Z), down(Axis::X), up(Axis::Y))),
        22 => Some(turned(down(Axis::Z), up(Axis::X), up(Axis::Y))),
        23 => Some(turned(down(Axis::X), up(Axis::Z), down(Axis::Y))),
        24 => Some(turned(down(Axis::Z), down(Axis::Y), down(Axis::X))),
        25 => Some(turned(down(Axis::X), down(Axis::Y), up(Axis::Z))),
        26 => Some(turned(up(Axis::Y), down(Axis::X), down(Axis::Z))),
        27 => Some(turned(down(Axis::X), down(Axis::Z), down(Axis::Y))),
        28 => Some(turned(down(Axis::Y), up(Axis::Z), up(Axis::X))),
        29 => Some(turned(down(Axis::Y), down(Axis::Z), up(Axis::X))),
        30 => Some(turned(up(Axis::Z), up(Axis::Y), down(Axis::X))),
        31 => Some(turned(down(Axis::X), up(Axis::Y), up(Axis::Z))),
        32 => Some(turned(down(Axis::Z), up(Axis::Y), up(Axis::X))),
        33 => Some(turned(up(Axis::Z), down(Axis::X), up(Axis::Y))),
        34 => Some(turned(down(Axis::Y), down(Axis::Z), down(Axis::X))),
        35 => Some(turned(down(Axis::X), up(Axis::Z), up(Axis::Y))),
        36 => Some(turned(up(Axis::X), down(Axis::Z), down(Axis::Y))),
        37 => Some(turned(up(Axis::X), down(Axis::Z), up(Axis::Y))),
        38 => Some(turned(up(Axis::Y), down(Axis::Z), up(Axis::X))),
        39 => Some(turned(up(Axis::Z), down(Axis::Y), down(Axis::X))),
        40 => Some(turned(up(Axis::X), up(Axis::Z), up(Axis::Y))),
        41 => Some(turned(down(Axis::Y), down(Axis::X), down(Axis::Z))),
        42 => Some(turned(down(Axis::X), down(Axis::Z), up(Axis::Y))),
        43 => Some(turned(up(Axis::Z), down(Axis::Y), up(Axis::X))),
        44 => Some(turned(up(Axis::Y), up(Axis::X), up(Axis::Z))),
        45 => Some(turned(down(Axis::Y), up(Axis::X), up(Axis::Z))),
        46 => Some(turned(up(Axis::Y), up(Axis::Z), down(Axis::X))),
        47 => Some(turned(up(Axis::Z), up(Axis::X), down(Axis::Y))),
        _ => None,
    }
}

/// Every candidate reads each axis of the gyroscope once.
pub proof fn candidates_are_valid(i: int)
    requires
        0 <= i < CANDIDATES,
    ensures
        candidate_at(i).valid(),
{
}

/// No orientation stands twice in the list of candidates.
pub proof fn candidates_are_distinct(i: int, j: int)
    requires
        0 <= i < CANDIDATES,
        0 <= j < CANDIDATES,
        i != j,
    ensures
        candidate_at(i) != candidate_at(j),
        label_of(candidate_at(i)) != label_of(candidate_at(j)),
{
    assert(position(candidate_at(i)) == i);
    assert(position(candidate_at(j)) == j);
    lemma_labels_tell_apart(candidate_at(i), candidate_at(j));
}

/// The list of candidates holds every orientation there is.
pub proof fn candidates_are_complete(orientation: Orientation)
    requires
        orientation.valid(),
    ensures
        0 <= position(orientation) < CANDIDATES,
        candidate_at(position(orientation)) == orientation,
{
}

/// Two orientations of the same name are the same.
pub proof fn lemma_labels_tell_apart(a: Orientation, b: Orientation)
    ensures
        label_of(a) == label_of(b) ==> a == b,
{
    if label_of(a) == label_of(b) {
        assert(label_of(a)[0] == label_of(b)[0]);
        assert(label_of(a)[1] == label_of(b)[1]);
        assert(label_of(a)[2] == label_of(b)[2]);
    }
}

} // verus!
