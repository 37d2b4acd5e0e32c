//! Type-safe wrappers for hashes and identifiers.
//!
//! Each kind of hash gets its own newtype so a command hash can never be
//! handed to the module resolver by mistake; the comparison policy (exact
//! or case-folded) is fixed by the type's constructor.

use vstd::prelude::*;
use crate::hash::{djb2, djb2_ci, spec_djb2, spec_djb2_ci};

verus! {

/// Hash of a plugin command name (DJB2, case-sensitive).
#[derive(Clone, Copy, PartialEq, Eq, Structural, Hash, Debug)]
pub struct CmdHash(pub u32);

impl CmdHash {
    /// Hash a command name.
    pub fn new(name: &[u8]) -> (r: Self)
        ensures
            r.0 == spec_djb2(name@),
    {
        CmdHash(djb2(name))
    }

    /// Wrap an already-computed hash value.
    pub fn from_raw(hash: u32) -> (r: Self)
        ensures
            r.0 == hash,
    {
        CmdHash(hash)
    }

    /// The raw 32-bit hash value.
    pub fn raw(self) -> (r: u32)
        ensures
            r == self.0,
    {
        self.0
    }
}

/// Hash of a loaded module's name (DJB2, case-folded).
#[derive(Clone, Copy, PartialEq, Eq, Structural, Hash, Debug)]
pub struct ModuleHash(pub u32);

impl ModuleHash {
    /// Hash a module name, case-folded.
    pub fn new(name: &[u8]) -> (r: Self)
        ensures
            r.0 == spec_djb2_ci(name@),
    {
        ModuleHash(djb2_ci(name))
    }

    /// Wrap an already-computed hash value.
    pub fn from_raw(hash: u32) -> (r: Self)
        ensures
            r.0 == hash,
    {
        ModuleHash(hash)
    }

    /// The raw 32-bit hash value.
    pub fn raw(self) -> (r: u32)
        ensures
            r == self.0,
    {
        self.0
    }
}

/// Hash of an exported function's name (DJB2, case-folded).
#[derive(Clone, Copy, PartialEq, Eq, Structural, Hash, Debug)]
pub struct ApiHash(pub u32);

impl ApiHash {
    /// Hash an exported function name, case-folded.
    pub fn new(name: &[u8]) -> (r: Self)
        ensures
            r.0 == spec_djb2_ci(name@),
    {
        ApiHash(djb2_ci(name))
    }

    /// Wrap an already-computed hash value.
    pub fn from_raw(hash: u32) -> (r: Self)
        ensures
            r.0 == hash,
    {
        ApiHash(hash)
    }

    /// The raw 32-bit hash value.
    pub fn raw(self) -> (r: u32)
        ensures
            r == self.0,
    {
        self.0
    }
}

/// The value an identifier string packs to: byte `i` of the string (up to
/// the first 8 bytes) occupies bits `8*i .. 8*i+8`.
pub open spec fn spec_pack_prefix(s: Seq<u8>, n: int) -> u64
    decreases n,
{
    if n <= 0 {
        0u64
    } else {
        spec_pack_prefix(s, n - 1) | ((s[n - 1] as u64) << ((8 * (n - 1)) as u64))
    }
}

/// The packed identifier of a byte string: its first 8 bytes at most.
pub open spec fn spec_plugin_id(s: Seq<u8>) -> u64 {
    spec_pack_prefix(s, if s.len() < 8 { s.len() as int } else { 8 })
}

/// Opaque 64-bit identifier of the plugin that owns a command.
#[derive(Clone, Copy, PartialEq, Eq, Structural, Hash, Debug)]
pub struct PluginId(pub u64);

impl PluginId {
    /// Pack up to 8 ASCII bytes into an identifier, first byte lowest.
    pub fn from_str(s: &[u8]) -> (r: Self)
        ensures
            r.0 == spec_plugin_id(s@),
    {
        let len: usize = if s.len() > 8 {
            8
        } else {
            s.len()
        };
        let mut id: u64 = 0;
        let mut i: usize = 0;
        while i < len
            invariant
                i <= len,
                len <= s.len(),
                len <= 8,
                id == spec_pack_prefix(s@, i as int),
            decreases len - i,
        {
            id = id | ((s[i] as u64) << (8 * i));
            i = i + 1;
        }
        PluginId(id)
    }

    /// Wrap an already-packed identifier.
    pub fn from_raw(id: u64) -> (r: Self)
        ensures
            r.0 == id,
    {
        PluginId(id)
    }

    /// The raw 64-bit identifier.
    pub fn raw(self) -> (r: u64)
        ensures
            r == self.0,
    {
        self.0
    }
}

/// No capability markers.
pub const FLAG_NONE: u32 = 0;

/// The command requires elevated privileges.
pub const FLAG_ELEVATED: u32 = 1;

/// The command may run for a long time.
pub const FLAG_LONG_RUNNING: u32 = 2;

/// The command changes system state.
pub const FLAG_DESTRUCTIVE: u32 = 4;

/// The command needs network access.
pub const FLAG_NETWORK: u32 = 8;

/// The command works with the file system.
pub const FLAG_FILESYSTEM: u32 = 16;

/// A bit set of advisory capability markers attached to a command.
#[derive(Clone, Copy, PartialEq, Eq, Structural, Hash, Debug)]
pub struct CommandFlags(pub u32);

impl CommandFlags {
    /// Wrap a raw bit set.
    pub fn from_raw(flags: u32) -> (r: Self)
        ensures
            r.0 == flags,
    {
        CommandFlags(flags)
    }

    /// The raw bit set.
    pub fn raw(self) -> (r: u32)
        ensures
            r == self.0,
    {
        self.0
    }

    /// Whether every bit of `other` is set in `self`.
    pub fn contains(self, other: Self) -> (r: bool)
        ensures
            r == ((self.0 & other.0) == other.0),
    {
        (self.0 & other.0) == other.0
    }

    /// The union of two bit sets.
    pub fn union(self, other: Self) -> (r: Self)
        ensures
            r.0 == (self.0 | other.0),
    {
        CommandFlags(self.0 | other.0)
    }
}

impl Default for CommandFlags {
    /// The empty bit set.
    fn default() -> (r: Self)
        ensures
            r.0 == FLAG_NONE,
    {
        CommandFlags(FLAG_NONE)
    }
}

} // verus!
