use vstd::prelude::*;

verus! {

/// The precedence of a syntactic position, from loosest to tightest.
///
/// A sub-term is wrapped in parentheses when the precedence of its own
/// constructor is lower than the precedence that its position asks for.
#[allow(non_camel_case_types)]
#[derive(Debug, Copy, Clone, PartialEq, Eq, Structural, PartialOrd, Ord)]
pub enum Prec {
    /// A position whose term is never wrapped in parentheses.
    NO_WRAP,
    /// The position of a whole term, as in an annotation's type.
    ANN,
    /// The position of a lambda or pi body.
    LAM,
    /// The position of a pi type.
    PI,
    /// The position of an application's function or argument.
    APP,
    /// The position of the base of a projection.
    ATOMIC,
}

impl Prec {
    /// The rank of a precedence class; a higher rank binds tighter.
    pub open spec fn rank(self) -> int {
        match self {
            Prec::NO_WRAP => -1,
            Prec::ANN => 0,
            Prec::LAM => 1,
            Prec::PI => 2,
            Prec::APP => 3,
            Prec::ATOMIC => 4,
        }
    }

    /// Whether a term of this precedence must be wrapped at position `pos`.
    pub open spec fn binds_looser(self, pos: Prec) -> bool {
        self.rank() < pos.rank()
    }

    /// The rank of a precedence class.
    pub fn level(self) -> (r: i8)
        ensures
            r == self.rank(),
    {
        match self {
            Prec::NO_WRAP => -1,
            Prec::ANN => 0,
            Prec::LAM => 1,
            Prec::PI => 2,
            Prec::APP => 3,
            Prec::ATOMIC => 4,
        }
    }

    /// Whether a term of this precedence must be wrapped at position `pos`.
    pub fn is_looser_than(self, pos: Prec) -> (r: bool)
        ensures
            r == self.binds_looser(pos),
    {
        self.level() < pos.level()
    }
}

} // verus!
