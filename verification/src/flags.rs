//! The capabilities of a distro, which the native side packs into one word.

use vstd::prelude::*;
use vstd::string::StringExecFns;
use crate::render::{join, joined};

verus! {

/// The bit for `DistroFlags::interop`.
pub const ENABLE_INTEROP: u32 = 1;

/// The bit for `DistroFlags::append_nt_path`.
pub const APPEND_NT_PATH: u32 = 2;

/// The bit for `DistroFlags::drive_mounting`.
pub const ENABLE_DRIVE_MOUNTING: u32 = 4;

/// The capabilities of a distro, each on or off independently.
#[derive(Clone, Copy, Debug, PartialEq, Eq, Structural)]
pub struct DistroFlags {
    /// Processes of the host can be started from inside the distro.
    pub interop: bool,
    /// The host's search path is appended to the distro's.
    pub append_nt_path: bool,
    /// The host's drives are mounted when the distro starts.
    pub drive_mounting: bool,
}

/// The flags that a word stands for: the three lowest bits, one capability
/// each. A word with any other bit set stands for none.
pub open spec fn flags_of_bits(bits: u32) -> Option<DistroFlags> {
    if bits < 8 {
        Some(
            DistroFlags {
                interop: bits % 2 == 1,
                append_nt_path: (bits / 2) % 2 == 1,
                drive_mounting: (bits / 4) % 2 == 1,
            },
        )
    } else {
        None
    }
}

impl DistroFlags {
    /// The word that the native side takes for these flags.
    pub open spec fn mask(self) -> u32 {
        ((if self.interop {
            ENABLE_INTEROP
        } else {
            0
        }) + (if self.append_nt_path {
            APPEND_NT_PATH
        } else {
            0
        }) + (if self.drive_mounting {
            ENABLE_DRIVE_MOUNTING
        } else {
            0
        })) as u32
    }

    /// The names of the capabilities that are on, each with its bit.
    pub open spec fn names(self) -> Seq<Seq<char>> {
        (if self.interop {
            seq!["ENABLE_INTEROP (1)"@]
        } else {
            Seq::empty()
        }) + (if self.append_nt_path {
            seq!["APPEND_NT_PATH (2)"@]
        } else {
            Seq::empty()
        }) + (if self.drive_mounting {
            seq!["ENABLE_DRIVE_MOUNTING (4)"@]
        } else {
            Seq::empty()
        })
    }

    /// The flags in words: the names of those that are on, or `NONE (0)`.
    pub open spec fn text(self) -> Seq<char> {
        if self.mask() == 0 {
            "NONE (0)"@
        } else {
            joined(self.names(), " | "@)
        }
    }

    /// No capability.
    pub fn empty() -> (flags: DistroFlags)
        ensures
            flags == (DistroFlags { interop: false, append_nt_path: false, drive_mounting: false }),
            flags.mask() == 0,
    {
        DistroFlags { interop: false, append_nt_path: false, drive_mounting: false }
    }

    /// Every capability.
    pub fn all() -> (flags: DistroFlags)
        ensures
            flags == (DistroFlags { interop: true, append_nt_path: true, drive_mounting: true }),
            flags.mask() == 7,
    {
        DistroFlags { interop: true, append_nt_path: true, drive_mounting: true }
    }

    /// The word that the native side takes for these flags.
    pub fn bits(&self) -> (bits: u32)
        ensures
            bits == self.mask(),
            bits < 8,
    {
        let mut bits: u32 = 0;
        if self.interop {
            bits = bits + ENABLE_INTEROP;
        }
        if self.append_nt_path {
            bits = bits + APPEND_NT_PATH;
        }
        if self.drive_mounting {
            bits = bits + ENABLE_DRIVE_MOUNTING;
        }
        bits
    }

    /// The flags that a word of the native side stands for; nothing where
    /// the word has a bit that names no capability.
    pub fn from_bits(bits: u32) -> (flags: Option<DistroFlags>)
        ensures
            flags == flags_of_bits(bits),
            flags is Some <==> bits < 8,
    {
        if bits < 8 {
            Some(
                DistroFlags {
                    interop: bits % 2 == 1,
                    append_nt_path: (bits / 2) % 2 == 1,
                    drive_mounting: (bits / 4) % 2 == 1,
                },
            )
        } else {
            None
        }
    }

    /// Whether no capability is on.
    pub fn is_empty(&self) -> (empty: bool)
        ensures
            empty == (self.mask() == 0),
            empty == (!self.interop && !self.append_nt_path && !self.drive_mounting),
    {
        !self.interop && !self.append_nt_path && !self.drive_mounting
    }

    /// Whether every capability that is on in `other` is on here.
    pub fn contains(&self, other: DistroFlags) -> (all: bool)
        ensures
            all == ((other.interop ==> self.interop) && (other.append_nt_path
                ==> self.append_nt_path) && (other.drive_mounting ==> self.drive_mounting)),
    {
        (!other.interop || self.interop) && (!other.append_nt_path || self.append_nt_path) && (
        !other.drive_mounting || self.drive_mounting)
    }

    /// The flags in words: the names of those that are on, joined by ` | `,
    /// or `NONE (0)` where none is.
    pub fn to_string(&self) -> (text: String)
        ensures
            text@ == self.text(),
    {
        if self.is_empty() {
            return String::from_str("NONE (0)");
        }
        let mut names: Vec<String> = Vec::new();
        if self.interop {
            names.push(String::from_str("ENABLE_INTEROP (1)"));
        }
        if self.append_nt_path {
            names.push(String::from_str("APPEND_NT_PATH (2)"));
        }
        if self.drive_mounting {
            names.push(String::from_str("ENABLE_DRIVE_MOUNTING (4)"));
        }
        assert(crate::render::texts(names@) =~= self.names());
        join(&names, " | ")
    }
}

impl Default for DistroFlags {
    fn default() -> (flags: DistroFlags)
        ensures
            flags == (DistroFlags { interop: false, append_nt_path: false, drive_mounting: false }),
    {
        DistroFlags { interop: false, append_nt_path: false, drive_mounting: false }
    }
}

/// Flags survive the way to the native side and back: the word of a set of
/// flags stands for those flags, and for no others.
pub proof fn lemma_flags_round_trip(flags: DistroFlags)
    ensures
        flags.mask() < 8,
        flags_of_bits(flags.mask()) == Some(flags),
{
}

/// A word stands for flags only where it has none but the three defined
/// bits, and those flags are packed into that very word.
pub proof fn lemma_bits_round_trip(bits: u32)
    ensures
        flags_of_bits(bits) is Some <==> bits < 8,
        flags_of_bits(bits) matches Some(flags) ==> flags.mask() == bits,
{
}

} // verus!
