use vstd::prelude::*;

use crate::angle::{degrees, normalized, turn, Angle, MICRODEGREES_PER_DEGREE};

verus! {

/// A coarse classification of the device's shape.
#[derive(Clone, Copy, Debug, PartialEq, Eq, Structural)]
pub enum PostureType {
    /// Screens open flat, within ten degrees of 180.
    Continuous,
    /// Hinge closed, within thirty degrees of 0 / 360.
    Folded,
    /// Anything between folded and flat.
    HalfOpened,
    /// Opened past flat, screens facing away from each other.
    Flipped,
}

/// The posture of a normalized angle `n` (units of [`Angle`], in
/// `[0, turn())`). The rules are tried in order and the first that matches
/// wins; in particular exactly 190 degrees is `Continuous`.
pub open spec fn posture_of_normalized(n: int) -> PostureType {
    if degrees(170) <= n && n <= degrees(190) {
        PostureType::Continuous
    } else if degrees(190) <= n && n < degrees(350) {
        PostureType::Flipped
    } else if n <= degrees(30) || n >= degrees(350) {
        PostureType::Folded
    } else {
        PostureType::HalfOpened
    }
}

/// The posture of an arbitrary angle: classification of its normalization.
pub open spec fn posture_of(a: Angle) -> PostureType {
    posture_of_normalized(normalized(a.microdegrees as int))
}

/// The display label of each posture.
pub open spec fn label(p: PostureType) -> Seq<char> {
    match p {
        PostureType::Continuous => "continuous"@,
        PostureType::Folded => "folded"@,
        PostureType::HalfOpened => "half-opened"@,
        PostureType::Flipped => "flipped"@,
    }
}

impl PostureType {
    /// Classifies `angle` after reducing it onto `[0, 360)` degrees.
    pub fn from_angle(angle: Angle) -> (r: PostureType)
        ensures
            r == posture_of(angle),
    {
        let n = angle.normalize().microdegrees;
        let unit = MICRODEGREES_PER_DEGREE;
        if 170 * unit <= n && n <= 190 * unit {
            return PostureType::Continuous;
        }
        if 190 * unit <= n && n < 350 * unit {
            return PostureType::Flipped;
        }
        if n <= 30 * unit || n >= 350 * unit {
            return PostureType::Folded;
        }
        PostureType::HalfOpened
    }

    /// The display label: "continuous", "folded", "half-opened" or "flipped".
    pub fn as_str(&self) -> (r: &'static str)
        ensures
            r@ == label(*self),
    {
        match self {
            PostureType::Continuous => "continuous",
            PostureType::Folded => "folded",
            PostureType::HalfOpened => "half-opened",
            PostureType::Flipped => "flipped",
        }
    }

    /// The display label as an owned string.
    pub fn to_string(&self) -> (r: String)
        ensures
            r@ == label(*self),
    {
        String::from_str(self.as_str())
    }
}

/// Classification is total on the circle: every normalized angle gets one of
/// the four postures, namely the one of the first rule that matches.
pub proof fn lemma_classification_total(n: int)
    requires
        0 <= n < turn(),
    ensures
        posture_of_normalized(n) == PostureType::Continuous <==> (degrees(170) <= n <= degrees(
            190,
        )),
        posture_of_normalized(n) == PostureType::Flipped <==> (degrees(190) < n < degrees(350)),
        posture_of_normalized(n) == PostureType::Folded <==> (n <= degrees(30) || n >= degrees(
            350,
        )),
        posture_of_normalized(n) == PostureType::HalfOpened <==> (degrees(30) < n < degrees(170)),
{
}

/// No two postures share a display label.
pub proof fn lemma_labels_distinct(p: PostureType, q: PostureType)
    ensures
        label(p) == label(q) <==> p == q,
{
    reveal_strlit("continuous");
    reveal_strlit("folded");
    reveal_strlit("half-opened");
    reveal_strlit("flipped");
    if p != q {
        assert(label(p).len() != label(q).len());
    }
}

} // verus!
