//! The error taxonomy of the engine. Every operation returns a
//! [`GrindstoneResult`]; the orchestrator aborts on the first error.

use vstd::prelude::*;

verus! {

/// Error type for the whole library.
#[derive(Debug)]
pub enum GrindstoneError {
    /// A required setup value is missing; carries the field name.
    InvalidConfig(String),
    /// A filesystem-level failure, reported by the caller-side driver.
    IO(String),
    /// A request failure or a non-success HTTP status.
    Transport(String),
    /// Malformed data from a remote or cached source.
    Decode(String),
    /// Post-fetch hash disagreement that survived the one built-in re-fetch.
    ChecksumMismatch,
    /// A checksum string inside manifest data is not valid hexadecimal.
    InvalidChecksum(String),
    /// The requested version id is absent from the version manifest.
    InvalidVersion(String),
    /// A library coordinate has fewer than three `:`-separated segments.
    LibraryNameFormat,
}

/// Result type with [`GrindstoneError`] as the error.
pub type GrindstoneResult<T> = Result<T, GrindstoneError>;

impl GrindstoneError {
    /// A short description of the error.
    pub fn describe(&self) -> (r: String)
        ensures
            match self {
                GrindstoneError::InvalidConfig(f) => r@ == "Invalid configuration `"@ + f@
                    + "`"@,
                GrindstoneError::IO(m) => r@ == m@,
                GrindstoneError::Transport(m) => r@ == m@,
                GrindstoneError::Decode(m) => r@ == m@,
                GrindstoneError::ChecksumMismatch => r@ == "Checksums do not match"@,
                GrindstoneError::InvalidChecksum(m) => r@
                    == "Checksum does not have a valid format: "@ + m@,
                GrindstoneError::InvalidVersion(id) => r@ == "Minecraft version '"@ + id@
                    + "' is invalid"@,
                GrindstoneError::LibraryNameFormat => r@
                    == "Format of a library name is invalid and not supported"@,
            },
    {
        match self {
            GrindstoneError::InvalidConfig(f) => {
                let mut r = "Invalid configuration `".to_owned();
                r.append(f.as_str());
                r.append("`");
                r
            },
            GrindstoneError::IO(m) => m.clone(),
            GrindstoneError::Transport(m) => m.clone(),
            GrindstoneError::Decode(m) => m.clone(),
            GrindstoneError::ChecksumMismatch => "Checksums do not match".to_owned(),
            GrindstoneError::InvalidChecksum(m) => {
                let mut r = "Checksum does not have a valid format: ".to_owned();
                r.append(m.as_str());
                r
            },
            GrindstoneError::InvalidVersion(id) => {
                let mut r = "Minecraft version '".to_owned();
                r.append(id.as_str());
                r.append("' is invalid");
                r
            },
            GrindstoneError::LibraryNameFormat => {
                "Format of a library name is invalid and not supported".to_owned()
            },
        }
    }
}

} // verus!
