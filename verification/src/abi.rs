//! The versioned ABI between a host and its plugins.
//!
//! The host owns a `PluginCallbackTable`; a plugin receives a mutable view
//! of it during its single initialization call, validates magic and ABI
//! version first, and registers its commands into the table's fixed eight
//! slots. There is no unregistration: registration happens once, eagerly,
//! and the table is read-only afterwards.
//!
//! On the wire a command's callback is a pointer-width field in which null
//! means "no callback"; here the resolved code address is carried as a
//! plain 64-bit value, so the field is an `Option<u64>`.

use vstd::prelude::*;
use vstd::pervasive::VecAdditionalExecFns;
use crate::types::{CmdHash, CommandFlags, PluginId};

verus! {

/// Current version of the plugin ABI.
pub const SDK_ABI_VERSION: u32 = 2;

/// Magic number validating a callback table (the ASCII bytes "MLPT").
pub const CALLBACK_TABLE_MAGIC: u32 = 0x4D4C5054;

/// Fixed capacity of the table: at most this many commands per plugin.
pub const MAX_PLUGIN_COMMANDS: usize = 8;

/// Largest number of bytes a callback may write into its result buffer.
pub const MAX_RESULT_SIZE: usize = 16384;

/// One registrable command slot (32 bytes on the wire, 8-byte aligned).
#[derive(Clone, Copy)]
pub struct PluginCommand {
    /// Exact-variant hash of the command's name.
    pub name_hash: u32,
    /// Advisory capability markers.
    pub flags: u32,
    /// Address of the callback; `None` stands for the null pointer.
    pub callback: Option<u64>,
    /// Identifier of the plugin that owns the command.
    pub plugin_id: u64,
    /// Whether the slot has been claimed by a registration.
    pub active: bool,
    /// Padding up to the 32-byte record size.
    pub _reserved: [u8; 7],
}

/// Whether a slot's padding bytes are all zero.
pub open spec fn reserved_zero(c: PluginCommand) -> bool {
    forall|j: int| 0 <= j < 7 ==> c._reserved@[j] == 0
}

/// An unclaimed slot: inactive, every field zero.
pub open spec fn slot_empty(c: PluginCommand) -> bool {
    &&& c.name_hash == 0
    &&& c.flags == 0
    &&& c.callback is None
    &&& c.plugin_id == 0
    &&& !c.active
    &&& reserved_zero(c)
}

/// A slot claimed by a registration with exactly these four values.
pub open spec fn slot_filled(
    c: PluginCommand,
    name_hash: u32,
    flags: u32,
    callback: u64,
    plugin_id: u64,
) -> bool {
    &&& c.name_hash == name_hash
    &&& c.flags == flags
    &&& c.callback == Some(callback)
    &&& c.plugin_id == plugin_id
    &&& c.active
    &&& reserved_zero(c)
}

impl PluginCommand {
    /// An unclaimed slot.
    pub fn empty() -> (r: Self)
        ensures
            slot_empty(r),
    {
        PluginCommand {
            name_hash: 0,
            flags: 0,
            callback: None,
            plugin_id: 0,
            active: false,
            _reserved: [0u8; 7],
        }
    }

    /// Whether the slot has been claimed.
    pub fn is_active(&self) -> (r: bool)
        ensures
            r == self.active,
    {
        self.active
    }

    /// The command's name hash.
    pub fn hash(&self) -> (r: CmdHash)
        ensures
            r.0 == self.name_hash,
    {
        CmdHash::from_raw(self.name_hash)
    }

    /// The command's capability markers.
    pub fn command_flags(&self) -> (r: CommandFlags)
        ensures
            r.0 == self.flags,
    {
        CommandFlags::from_raw(self.flags)
    }
}

/// How many slots of a sequence are active.
pub open spec fn count_active(s: Seq<PluginCommand>) -> int
    decreases s.len(),
{
    if s.len() == 0 {
        0int
    } else {
        count_active(s.drop_last()) + if s.last().active {
            1int
        } else {
            0int
        }
    }
}

/// The index of the first inactive slot, or the length when every slot is
/// active.
pub open spec fn first_inactive(s: Seq<PluginCommand>) -> int
    decreases s.len(),
{
    if s.len() == 0 {
        0int
    } else if !s[0].active {
        0int
    } else {
        1 + first_inactive(s.drop_first())
    }
}

/// With no slot active the active count is zero.
pub proof fn lemma_count_active_none(s: Seq<PluginCommand>)
    requires
        forall|i: int| 0 <= i < s.len() ==> !s[i].active,
    ensures
        count_active(s) == 0,
    decreases s.len(),
{
    if s.len() > 0 {
        lemma_count_active_none(s.drop_last());
    }
}

/// With every slot active the active count is the length.
pub proof fn lemma_count_active_all(s: Seq<PluginCommand>)
    requires
        forall|i: int| 0 <= i < s.len() ==> s[i].active,
    ensures
        count_active(s) == s.len(),
    decreases s.len(),
{
    if s.len() > 0 {
        lemma_count_active_all(s.drop_last());
    }
}

/// Replacing one slot changes the active count by exactly the difference
/// the replacement makes at that index.
pub proof fn lemma_count_active_update(s: Seq<PluginCommand>, i: int, c: PluginCommand)
    requires
        0 <= i < s.len(),
    ensures
        count_active(s.update(i, c)) == count_active(s) - (if s[i].active {
            1int
        } else {
            0int
        }) + (if c.active {
            1int
        } else {
            0int
        }),
    decreases s.len(),
{
    if i == s.len() - 1 {
        assert(s.update(i, c).drop_last() =~= s.drop_last());
        assert(s.update(i, c).last() == c);
    } else {
        assert(s.update(i, c).drop_last() =~= s.drop_last().update(i, c));
        assert(s.update(i, c).last() == s.last());
        lemma_count_active_update(s.drop_last(), i, c);
    }
}

/// A prefix of active slots followed by an inactive one (or by the end)
/// pins down `first_inactive`.
pub proof fn lemma_first_inactive_at(s: Seq<PluginCommand>, i: int)
    requires
        0 <= i <= s.len(),
        forall|j: int| 0 <= j < i ==> s[j].active,
        i < s.len() ==> !s[i].active,
    ensures
        first_inactive(s) == i,
    decreases i,
{
    if i > 0 {
        assert(s[0].active);
        lemma_first_inactive_at(s.drop_first(), i - 1);
    }
}

/// Fluent builder for a ready-to-store command record; building is the
/// exact equivalent of what a successful registration writes into a slot.
pub struct CommandBuilder {
    /// Exact-variant hash of the command's name.
    pub name_hash: CmdHash,
    /// Advisory capability markers.
    pub flags: CommandFlags,
    /// Address of the callback, if one was set.
    pub callback: Option<u64>,
    /// Identifier of the plugin that owns the command.
    pub plugin_id: PluginId,
}

impl CommandBuilder {
    /// Start a builder from the command's name hash.
    pub fn new(hash: CmdHash) -> (r: Self)
        ensures
            r.name_hash == hash,
            r.flags.0 == 0,
            r.callback is None,
            r.plugin_id.0 == 0,
    {
        CommandBuilder {
            name_hash: hash,
            flags: CommandFlags::from_raw(0),
            callback: None,
            plugin_id: PluginId::from_raw(0),
        }
    }

    /// Set the callback's code address.
    pub fn callback(self, cb: u64) -> (r: Self)
        ensures
            r.callback == Some(cb),
            r.name_hash == self.name_hash,
            r.flags == self.flags,
            r.plugin_id == self.plugin_id,
    {
        CommandBuilder { callback: Some(cb), ..self }
    }

    /// Set the owning plugin's identifier.
    pub fn plugin_id(self, id: PluginId) -> (r: Self)
        ensures
            r.plugin_id == id,
            r.name_hash == self.name_hash,
            r.flags == self.flags,
            r.callback == self.callback,
    {
        CommandBuilder { plugin_id: id, ..self }
    }

    /// Set the command's capability markers.
    pub fn flags(self, flags: CommandFlags) -> (r: Self)
        ensures
            r.flags == flags,
            r.name_hash == self.name_hash,
            r.callback == self.callback,
            r.plugin_id == self.plugin_id,
    {
        CommandBuilder { flags: flags, ..self }
    }

    /// Produce the finished, active command record.
    pub fn build(self) -> (r: PluginCommand)
        ensures
            r.name_hash == self.name_hash.0,
            r.flags == self.flags.0,
            r.callback == self.callback,
            r.plugin_id == self.plugin_id.0,
            r.active,
            reserved_zero(r),
    {
        PluginCommand {
            name_hash: self.name_hash.raw(),
            flags: self.flags.raw(),
            callback: self.callback,
            plugin_id: self.plugin_id.raw(),
            active: true,
            _reserved: [0u8; 7],
        }
    }
}

/// The root ABI object: magic, version, eight command slots, and the
/// count of active slots.
pub struct PluginCallbackTable {
    /// Must equal `CALLBACK_TABLE_MAGIC` for the table to be usable.
    pub magic: u32,
    /// Must equal `SDK_ABI_VERSION` for the layout assumptions to hold.
    pub abi_version: u32,
    /// The fixed array of command slots; always exactly
    /// `MAX_PLUGIN_COMMANDS` long.
    pub commands: Vec<PluginCommand>,
    /// Number of active slots; the table's central invariant keeps it
    /// equal to the count of slots with `active` set.
    pub count: usize,
}

impl PluginCallbackTable {
    /// The table's invariant: exactly eight slots, and `count` equals the
    /// number of active ones.
    pub open spec fn wf(&self) -> bool {
        &&& self.commands@.len() == MAX_PLUGIN_COMMANDS
        &&& self.count == count_active(self.commands@)
    }

    /// A fresh table: valid magic and version, all slots unclaimed.
    pub fn new() -> (r: Self)
        ensures
            r.wf(),
            r.magic == CALLBACK_TABLE_MAGIC,
            r.abi_version == SDK_ABI_VERSION,
            r.count == 0,
            forall|i: int| 0 <= i < MAX_PLUGIN_COMMANDS ==> slot_empty(#[trigger] r.commands@[i]),
    {
        let mut commands: Vec<PluginCommand> = Vec::new();
        let mut i: usize = 0;
        while i < MAX_PLUGIN_COMMANDS
            invariant
                i <= MAX_PLUGIN_COMMANDS,
                commands@.len() == i,
                forall|j: int| 0 <= j < i ==> slot_empty(#[trigger] commands@[j]),
            decreases MAX_PLUGIN_COMMANDS - i,
        {
            commands.push(PluginCommand::empty());
            i = i + 1;
        }
        proof {
            lemma_count_active_none(commands@);
        }
        PluginCallbackTable { magic: CALLBACK_TABLE_MAGIC, abi_version: SDK_ABI_VERSION, commands, count: 0 }
    }

    /// Whether the magic field matches.
    pub fn is_valid(&self) -> (r: bool)
        ensures
            r == (self.magic == CALLBACK_TABLE_MAGIC),
    {
        self.magic == CALLBACK_TABLE_MAGIC
    }

    /// Whether the ABI version matches the one this SDK was built for.
    pub fn is_abi_compatible(&self) -> (r: bool)
        ensures
            r == (self.abi_version == SDK_ABI_VERSION),
    {
        self.abi_version == SDK_ABI_VERSION
    }

    /// The validity gate: true exactly when both magic and ABI version
    /// match. A plugin must treat `false` as fatal and not touch the
    /// table further.
    pub fn is_valid_for_use(&self) -> (r: bool)
        ensures
            r == (self.magic == CALLBACK_TABLE_MAGIC && self.abi_version == SDK_ABI_VERSION),
    {
        self.is_valid() && self.is_abi_compatible()
    }

    /// Register a command with no capability markers; succeeds exactly
    /// when a slot is free, and a failure leaves the table untouched.
    pub fn register(&mut self, name_hash: u32, callback: u64, plugin_id: u64) -> (r: bool)
        requires
            old(self).wf(),
        ensures
            final(self).wf(),
            final(self).magic == old(self).magic,
            final(self).abi_version == old(self).abi_version,
            r == (old(self).count < MAX_PLUGIN_COMMANDS),
            !r ==> final(self).count == old(self).count,
            !r ==> final(self).commands@ == old(self).commands@,
            r ==> final(self).count == old(self).count + 1,
            r ==> 0 <= first_inactive(old(self).commands@) < MAX_PLUGIN_COMMANDS,
            r ==> slot_filled(
                final(self).commands@[first_inactive(old(self).commands@)],
                name_hash,
                0,
                callback,
                plugin_id,
            ),
            r ==> forall|j: int|
                0 <= j < MAX_PLUGIN_COMMANDS && j != first_inactive(old(self).commands@)
                    ==> final(self).commands@[j] == old(self).commands@[j],
    {
        self.register_with_flags(name_hash, callback, plugin_id, 0)
    }

    /// Register a command with the given capability markers: claim the
    /// first inactive slot, write all its fields, and bump the count;
    /// with no slot free, fail without mutating the table.
    pub fn register_with_flags(
        &mut self,
        name_hash: u32,
        callback: u64,
        plugin_id: u64,
        flags: u32,
    ) -> (r: bool)
        requires
            old(self).wf(),
        ensures
            final(self).wf(),
            final(self).magic == old(self).magic,
            final(self).abi_version == old(self).abi_version,
            r == (old(self).count < MAX_PLUGIN_COMMANDS),
            !r ==> final(self).count == old(self).count,
            !r ==> final(self).commands@ == old(self).commands@,
            r ==> final(self).count == old(self).count + 1,
            r ==> 0 <= first_inactive(old(self).commands@) < MAX_PLUGIN_COMMANDS,
            r ==> slot_filled(
                final(self).commands@[first_inactive(old(self).commands@)],
                name_hash,
                flags,
                callback,
                plugin_id,
            ),
            r ==> forall|j: int|
                0 <= j < MAX_PLUGIN_COMMANDS && j != first_inactive(old(self).commands@)
                    ==> final(self).commands@[j] == old(self).commands@[j],
    {
        if self.count >= MAX_PLUGIN_COMMANDS {
            return false;
        }
        let mut i: usize = 0;
        while i < MAX_PLUGIN_COMMANDS
            invariant
                i <= MAX_PLUGIN_COMMANDS,
                self == old(self),
                old(self).wf(),
                old(self).count < MAX_PLUGIN_COMMANDS,
                forall|j: int| 0 <= j < i ==> (#[trigger] self.commands@[j]).active,
            decreases MAX_PLUGIN_COMMANDS - i,
        {
            if !self.commands[i].active {
                proof {
                    lemma_first_inactive_at(self.commands@, i as int);
                }
                let cmd = PluginCommand {
                    name_hash: name_hash,
                    flags: flags,
                    callback: Some(callback),
                    plugin_id: plugin_id,
                    active: true,
                    _reserved: [0u8; 7],
                };
                proof {
                    lemma_count_active_update(self.commands@, i as int, cmd);
                }
                self.commands.set(i, cmd);
                self.count = self.count + 1;
                return true;
            }
            i = i + 1;
        }
        proof {
            lemma_count_active_all(self.commands@);
        }
        false
    }
}

/// Check a table handed across the ABI boundary before any other use:
/// false for an absent table (the null pointer on the wire) and for any
/// magic or version mismatch.
pub fn check_abi_version(table: Option<&PluginCallbackTable>) -> (r: bool)
    ensures
        r == (table matches Some(t) && t.magic == CALLBACK_TABLE_MAGIC && t.abi_version
            == SDK_ABI_VERSION),
{
    match table {
        None => false,
        Some(t) => t.is_valid() && t.is_abi_compatible(),
    }
}

} // verus!
