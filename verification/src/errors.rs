//! The error taxonomy of the combat core. All catalog and resolution
//! failures are reported to the caller through these variants; the core
//! never logs or formats.

use vstd::prelude::*;

verus! {

/// Why a catalog load, a name resolution or a construction failed.
#[derive(Debug, Clone, Copy, PartialEq, Eq, Structural)]
pub enum CoreError {
    /// The path handed to the catalog loader was not a directory.
    NotADirectory,
    /// Some file in the catalog directory did not parse into a valid
    /// character record; the whole load is aborted.
    ConfigParseError,
    /// A free-text name matched none of the alias rules.
    NameNotRecognized,
    /// An alias rule matched, but the loaded catalog holds no record with
    /// the corresponding canonical display name.
    RecordNotFound,
    /// A character record was constructed with no attacks.
    EmptyAttackList,
    /// A mode token was neither of the accepted literals.
    UnknownMode,
}

} // verus!
