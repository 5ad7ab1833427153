use vstd::prelude::*;

verus! {

/// Why a wrapper could not be constructed.
///
/// Every construction failure is a programming error caught while the value
/// is being placed into its binding, so each variant names its cause exactly:
/// the length variants carry the precise byte-count mismatch, and
/// `InteriorNul` carries the offending position.
#[derive(Clone, Copy, Debug, PartialEq, Eq, Structural)]
pub enum ConstructionError {
    /// The input holds `excess` more bytes than the target has room for.
    TooLong { excess: usize },
    /// The input holds `missing` fewer bytes than the target requires.
    TooShort { missing: usize },
    /// The target's length differs from the length the copy was asked for.
    LengthMismatch,
    /// A terminator byte stands at `position`, before the final slot.
    InteriorNul { position: usize },
    /// The content does not end with a terminator byte.
    MissingNulTerminator,
}

impl ConstructionError {
    /// The diagnostic text for this error.
    pub open spec fn spec_message(&self) -> Seq<char> {
        match *self {
            ConstructionError::TooLong { excess } => if excess == 1 {
                "Target length is 1 byte too small."@
            } else if excess == 2 {
                "Target length is 2 bytes too small."@
            } else if excess == 3 {
                "Target length is 3 bytes too small."@
            } else if excess == 4 {
                "Target length is 4 bytes too small."@
            } else {
                "Target length is more than 4 bytes too small."@
            },
            ConstructionError::TooShort { missing } => if missing == 1 {
                "Target length is 1 byte too large."@
            } else if missing == 2 {
                "Target length is 2 bytes too large."@
            } else if missing == 3 {
                "Target length is 3 bytes too large."@
            } else if missing == 4 {
                "Target length is 4 bytes too large."@
            } else {
                "Target length is more than 4 bytes too large."@
            },
            ConstructionError::LengthMismatch => {
                "Target slice length differs to the specified length."@
            },
            ConstructionError::InteriorNul { position: _ } => {
                "Interior NUL byte before the final position."@
            },
            ConstructionError::MissingNulTerminator => {
                "Data does not end with a NUL terminator."@
            },
        }
    }

    /// The diagnostic text, as an owned string.
    pub fn message(&self) -> (r: String)
        ensures
            r@ == self.spec_message(),
    {
        match *self {
            ConstructionError::TooLong { excess } => if excess == 1 {
                "Target length is 1 byte too small.".to_owned()
            } else if excess == 2 {
                "Target length is 2 bytes too small.".to_owned()
            } else if excess == 3 {
                "Target length is 3 bytes too small.".to_owned()
            } else if excess == 4 {
                "Target length is 4 bytes too small.".to_owned()
            } else {
                "Target length is more than 4 bytes too small.".to_owned()
            },
            ConstructionError::TooShort { missing } => if missing == 1 {
                "Target length is 1 byte too large.".to_owned()
            } else if missing == 2 {
                "Target length is 2 bytes too large.".to_owned()
            } else if missing == 3 {
                "Target length is 3 bytes too large.".to_owned()
            } else if missing == 4 {
                "Target length is 4 bytes too large.".to_owned()
            } else {
                "Target length is more than 4 bytes too large.".to_owned()
            },
            ConstructionError::LengthMismatch => {
                "Target slice length differs to the specified length.".to_owned()
            },
            ConstructionError::InteriorNul { position: _ } => {
                "Interior NUL byte before the final position.".to_owned()
            },
            ConstructionError::MissingNulTerminator => {
                "Data does not end with a NUL terminator.".to_owned()
            },
        }
    }
}

} // verus!
