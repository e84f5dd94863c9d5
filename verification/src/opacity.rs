use vstd::prelude::*;

verus! {

/// How much light a full cube face of a model blocks. The order matters:
/// culling and ambient-occlusion decisions take the maximum classification
/// observed across the faces that cover one cube side.
#[derive(Debug, Copy, Clone, PartialEq, Eq, Structural)]
pub enum Opacity {
    Transparent,
    TranslucentSolid,
    TransparentSolid,
    Opaque,
}

impl Opacity {
    /// Position of this classification in the order
    /// Transparent < TranslucentSolid < TransparentSolid < Opaque.
    pub open spec fn rank(self) -> int {
        match self {
            Opacity::Transparent => 0,
            Opacity::TranslucentSolid => 1,
            Opacity::TransparentSolid => 2,
            Opacity::Opaque => 3,
        }
    }

    /// The larger of two classifications, by `rank`.
    pub open spec fn spec_max(self, other: Opacity) -> Opacity {
        if self.rank() >= other.rank() {
            self
        } else {
            other
        }
    }

    pub fn is_opaque(self) -> (r: bool)
        ensures
            r == (self == Opacity::Opaque),
    {
        matches!(self, Opacity::Opaque)
    }

    pub fn is_solid(self) -> (r: bool)
        ensures
            r == (self != Opacity::Transparent),
    {
        !matches!(self, Opacity::Transparent)
    }

    /// Executable counterpart of `spec_max`.
    pub fn max(self, other: Opacity) -> (r: Opacity)
        ensures
            r == self.spec_max(other),
    {
        let mine: u8 = match self {
            Opacity::Transparent => 0,
            Opacity::TranslucentSolid => 1,
            Opacity::TransparentSolid => 2,
            Opacity::Opaque => 3,
        };
        let theirs: u8 = match other {
            Opacity::Transparent => 0,
            Opacity::TranslucentSolid => 1,
            Opacity::TransparentSolid => 2,
            Opacity::Opaque => 3,
        };
        if mine >= theirs {
            self
        } else {
            other
        }
    }
}

} // verus!
