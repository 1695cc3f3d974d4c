use vstd::prelude::*;

verus! {

/// What went wrong while checking the input of a derive.
#[derive(Clone, Copy, Debug, PartialEq, Eq, Structural)]
pub enum ErrorKind {
    /// A variant carries both `skip` and `weight`.
    SkipWithWeight,
    /// A weight literal is a string, byte, char, bool or verbatim literal.
    WeightNotNumber,
    /// A weight literal is of a kind that this crate does not know.
    UnknownLiteral,
    /// The enum has no variants at all.
    ZeroVariants,
    /// Every variant of the enum is skipped.
    NoChoosableVariant,
}

/// An error of a derive, with the index of the variant that it concerns when the check that
/// raised it ran over the whole list of variants.
#[derive(Clone, Copy, Debug, PartialEq, Eq)]
pub struct DeriveError {
    pub kind: ErrorKind,
    pub variant: Option<usize>,
}

impl ErrorKind {
    /// The message that the derive reports for this error.
    pub fn message(self) -> (r: String)
        ensures
            r@ == (match self {
                ErrorKind::SkipWithWeight => "skip and weight may not be specified together"@,
                ErrorKind::WeightNotNumber => "Weights must be a Int or Float literal"@,
                ErrorKind::UnknownLiteral => "Internal error: Unknown literal type provided"@,
                ErrorKind::ZeroVariants => "Cannot derive StandardDistribution for enums with zero variants"@,
                ErrorKind::NoChoosableVariant => "There must be at least one non-skipped variant"@,
            }),
    {
        match self {
            ErrorKind::SkipWithWeight => String::from_str("skip and weight may not be specified together"),
            ErrorKind::WeightNotNumber => String::from_str("Weights must be a Int or Float literal"),
            ErrorKind::UnknownLiteral => String::from_str("Internal error: Unknown literal type provided"),
            ErrorKind::ZeroVariants => String::from_str(
                "Cannot derive StandardDistribution for enums with zero variants",
            ),
            ErrorKind::NoChoosableVariant => String::from_str(
                "There must be at least one non-skipped variant",
            ),
        }
    }
}

impl DeriveError {
    /// An error that concerns no variant in particular.
    pub open spec fn plain(kind: ErrorKind) -> DeriveError {
        DeriveError { kind, variant: None }
    }
}

} // verus!
