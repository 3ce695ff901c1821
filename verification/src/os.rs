//! The platform probe's value types. Probing itself (reading the running
//! machine's OS and pointer width) cannot be verified, so callers pass the
//! probed values in and every function here is a pure one.

use vstd::prelude::*;

verus! {

/// An operating-system family.
#[derive(Clone, Copy, Debug, PartialEq, Eq, Structural)]
pub enum Platform {
    Linux,
    MacOs,
    Windows,
    Other,
}

impl Platform {
    /// Whether this platform equals the probed current one.
    pub fn matches_current(&self, current: &Platform) -> (r: bool)
        ensures
            r == (*self == *current),
    {
        self == current
    }

    /// The separator between classpath entries on this platform.
    pub fn classpath_seperator(&self) -> (c: char)
        ensures
            c == (if *self == Platform::Windows {
                ';'
            } else {
                ':'
            }),
    {
        match self {
            Platform::Windows => ';',
            _ => ':',
        }
    }
}

/// A CPU word width.
#[derive(Clone, Copy, Debug, PartialEq, Eq, Structural)]
pub enum Architecture {
    I386,
    AMD64,
}

impl Architecture {
    /// The word width in bits.
    pub fn get_bits(&self) -> (b: u8)
        ensures
            b == (if *self == Architecture::I386 {
                32u8
            } else {
                64u8
            }),
    {
        match self {
            Architecture::I386 => 32,
            Architecture::AMD64 => 64,
        }
    }

    /// The word width rendered as a decimal string.
    pub open spec fn bits_text(&self) -> Seq<char> {
        if *self == Architecture::I386 {
            "32"@
        } else {
            "64"@
        }
    }

    /// The word width rendered as a decimal string.
    pub fn bits_str(&self) -> (s: &'static str)
        ensures
            s@ == self.bits_text(),
    {
        match self {
            Architecture::I386 => "32",
            Architecture::AMD64 => "64",
        }
    }
}

} // verus!
