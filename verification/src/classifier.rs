//! Orientation classifier: axis corrections on the raw sample, and the choice
//! of an orientation from the reference vectors that the sample is close to.
//!
//! Scaling the corrected sample and measuring its distance to the reference
//! vectors is arithmetic on fractions, which the caller does; it hands back
//! one flag for each orientation, in classification order, that says whether
//! the sample lies within the threshold of that orientation's reference
//! vector.

use crate::orientation::{ordered, Orientation};
use crate::sensor::RawSample;
use vstd::prelude::*;

verus! {

/// A sample after the mounting corrections, still in raw counts.
#[derive(Clone, Copy, Debug, PartialEq, Eq, Structural)]
pub struct AxisVector {
    pub x: i64,
    pub y: i64,
}

/// The mounting corrections on a vector: first the Y axis is flipped, then
/// the vector is turned a quarter clockwise, each where it is asked for.
pub open spec fn corrected(x: int, y: int, flip_y: bool, rotate_90: bool) -> (int, int) {
    let flipped = if flip_y {
        -y
    } else {
        y
    };
    if rotate_90 {
        (flipped, -x)
    } else {
        (x, flipped)
    }
}

/// The first orientation, in classification order, whose flag is set.
pub open spec fn first_within(within: Seq<bool>) -> Option<Orientation> {
    if within[0] {
        Some(Orientation::Normal)
    } else if within[1] {
        Some(Orientation::Inverted)
    } else if within[2] {
        Some(Orientation::RotatedLeft)
    } else if within[3] {
        Some(Orientation::RotatedRight)
    } else {
        None
    }
}

/// The orientation that a sample is classified as: the first whose flag is
/// set, and the previous one where no flag is set.
pub open spec fn classified(within: Seq<bool>, previous: Orientation) -> Orientation {
    match first_within(within) {
        Some(orientation) => orientation,
        None => previous,
    }
}

/// Squared Euclidean distance between two points of the integer grid.
pub open spec fn squared_distance(p: (int, int), q: (int, int)) -> int {
    (p.0 - q.0) * (p.0 - q.0) + (p.1 - q.1) * (p.1 - q.1)
}

/// The flags of a grid point under the threshold `num / den`: for each
/// orientation, whether the squared distance from the point to its reference
/// vector is less than the threshold.
pub open spec fn flags_at(point: (int, int), num: int, den: int) -> Seq<bool>
    recommends
        den > 0,
{
    Seq::new(4, |i: int| squared_distance(point, ordered()[i].reference()) * den < num)
}

/// Applies the mounting corrections to a raw sample.
pub fn correct_axes(sample: RawSample, flip_y: bool, rotate_90: bool) -> (vector: AxisVector)
    ensures
        (vector.x as int, vector.y as int) == corrected(
            sample.x as int,
            sample.y as int,
            flip_y,
            rotate_90,
        ),
{
    let x: i64 = sample.x as i64;
    let y: i64 = if flip_y {
        -(sample.y as i64)
    } else {
        sample.y as i64
    };
    if rotate_90 {
        AxisVector { x: y, y: -x }
    } else {
        AxisVector { x, y }
    }
}

/// Finds the first orientation, in classification order, whose flag is set.
pub fn first_match(within: &[bool; 4]) -> (found: Option<Orientation>)
    ensures
        found == first_within(within@),
        found matches Some(orientation) ==> within@[orientation.rank()] && forall|i: int|
            0 <= i < orientation.rank() ==> !within@[i],
        found is None ==> forall|i: int| 0 <= i < 4 ==> !within@[i],
{
    if within[0] {
        Some(Orientation::Normal)
    } else if within[1] {
        Some(Orientation::Inverted)
    } else if within[2] {
        Some(Orientation::RotatedLeft)
    } else if within[3] {
        Some(Orientation::RotatedRight)
    } else {
        None
    }
}

/// Classifies a sample from its flags: the first orientation, in
/// classification order, whose flag is set; the previous orientation is kept
/// where the sample is close to none.
pub fn classify(within: &[bool; 4], previous: Orientation) -> (chosen: Orientation)
    ensures
        chosen == classified(within@, previous),
        (forall|i: int| 0 <= i < 4 ==> !within@[i]) ==> chosen == previous,
        (exists|i: int| 0 <= i < 4 && within@[i]) ==> within@[chosen.rank()] && forall|i: int|
            0 <= i < chosen.rank() ==> !within@[i],
{
    match first_match(within) {
        Some(orientation) => orientation,
        None => previous,
    }
}

/// A sample that lies within the threshold of exactly one reference vector is
/// classified as that vector's orientation, whatever came before.
pub proof fn lemma_sole_match_is_chosen(
    within: Seq<bool>,
    orientation: Orientation,
    previous: Orientation,
)
    requires
        within.len() == 4,
        forall|i: int| 0 <= i < 4 ==> (within[i] <==> i == orientation.rank()),
    ensures
        classified(within, previous) == orientation,
{
    assert(within[orientation.rank()]);
}

/// Where a sample lies within the threshold of several reference vectors, the
/// orientation that comes first in classification order is chosen: no
/// orientation is chosen over one that matches and comes before it.
pub proof fn lemma_earliest_match_is_chosen(
    within: Seq<bool>,
    earlier: Orientation,
    later: Orientation,
    previous: Orientation,
)
    requires
        within.len() == 4,
        within[earlier.rank()],
        within[later.rank()],
        earlier.rank() < later.rank(),
    ensures
        classified(within, previous) != later,
        classified(within, previous).rank() <= earlier.rank(),
        within[classified(within, previous).rank()],
{
}

/// Flipping the Y axis is the same as negating the sample's Y component, and
/// leaves the X component alone.
pub proof fn lemma_flip_negates_y(x: int, y: int, rotate_90: bool)
    ensures
        corrected(x, y, true, rotate_90) == corrected(x, -y, false, rotate_90),
        corrected(x, y, true, false).0 == x,
{
}

/// The quarter turn takes `(x, y)` to `(y, -x)`, after the flip where one is
/// asked for; it takes the reference vector of the normal orientation to that
/// of the left-rotated one.
pub proof fn lemma_quarter_turn(x: int, y: int, flip_y: bool)
    ensures
        corrected(x, y, false, true) == (y, -x),
        corrected(x, y, flip_y, true) == ({
            let flipped = corrected(x, y, flip_y, false);
            (flipped.1, -flipped.0)
        }),
        corrected(
            Orientation::Normal.reference().0,
            Orientation::Normal.reference().1,
            false,
            true,
        ) == Orientation::RotatedLeft.reference(),
{
}

/// Two different reference vectors are at squared distance 2 or more, and a
/// reference vector is at distance 0 of itself.
pub proof fn lemma_reference_vectors_apart(a: Orientation, b: Orientation)
    ensures
        a == b ==> squared_distance(a.reference(), b.reference()) == 0,
        a != b ==> squared_distance(a.reference(), b.reference()) >= 2,
{
    match a {
        Orientation::Normal => lemma_distances_from(0, -1, b),
        Orientation::Inverted => lemma_distances_from(0, 1, b),
        Orientation::RotatedLeft => lemma_distances_from(-1, 0, b),
        Orientation::RotatedRight => lemma_distances_from(1, 0, b),
    }
}

/// The squared distances from a grid point to a reference vector, written out.
proof fn lemma_distances_from(x: int, y: int, b: Orientation)
    ensures
        squared_distance((x, y), b.reference()) == match b {
            Orientation::Normal => x * x + (y + 1) * (y + 1),
            Orientation::Inverted => x * x + (y - 1) * (y - 1),
            Orientation::RotatedLeft => (x + 1) * (x + 1) + y * y,
            Orientation::RotatedRight => (x - 1) * (x - 1) + y * y,
        },
{
}

/// A reference vector is classified as its own orientation under every
/// threshold above 0 and up to 2, whatever came before: for every fraction
/// `num / den` with `0 < num <= 2 * den`, the default of one half among them.
pub proof fn lemma_reference_vector_is_fixed_point(
    orientation: Orientation,
    num: int,
    den: int,
    previous: Orientation,
)
    requires
        den > 0,
        0 < num <= 2 * den,
    ensures
        classified(flags_at(orientation.reference(), num, den), previous) == orientation,
{
    let within = flags_at(orientation.reference(), num, den);
    assert forall|i: int| 0 <= i < 4 implies (within[i] <==> i == orientation.rank()) by {
        let distance = squared_distance(orientation.reference(), ordered()[i].reference());
        lemma_reference_vectors_apart(orientation, ordered()[i]);
        if i != orientation.rank() {
            assert(distance * den >= 2 * den) by (nonlinear_arith)
                requires
                    distance >= 2,
                    den > 0,
            ;
        }
    }
    lemma_sole_match_is_chosen(within, orientation, previous);
}

} // verus!
