use milow_plugin_sdk::abi::{
    check_abi_version, CommandBuilder, PluginCallbackTable, PluginCommand, CALLBACK_TABLE_MAGIC,
    MAX_PLUGIN_COMMANDS, SDK_ABI_VERSION,
};
use milow_plugin_sdk::types::{CmdHash, CommandFlags, PluginId, FLAG_ELEVATED, FLAG_NONE};

fn assert_same_command(a: &PluginCommand, b: &PluginCommand) {
    assert_eq!(a.name_hash, b.name_hash);
    assert_eq!(a.flags, b.flags);
    assert_eq!(a.callback, b.callback);
    assert_eq!(a.plugin_id, b.plugin_id);
    assert_eq!(a.active, b.active);
    assert_eq!(a._reserved, b._reserved);
}

#[test]
fn table_new_is_valid_and_empty() {
    let table = PluginCallbackTable::new();
    assert_eq!(table.magic, CALLBACK_TABLE_MAGIC);
    assert_eq!(table.abi_version, SDK_ABI_VERSION);
    assert_eq!(table.count, 0);
    assert_eq!(table.commands.len(), MAX_PLUGIN_COMMANDS);
    for cmd in table.commands.iter() {
        assert!(!cmd.is_active());
        assert_same_command(cmd, &PluginCommand::empty());
    }
}

#[test]
fn validity_gate() {
    let good = PluginCallbackTable::new();
    assert!(good.is_valid());
    assert!(good.is_abi_compatible());
    assert!(good.is_valid_for_use());
    assert!(check_abi_version(Some(&good)));

    let mut wrong_magic = PluginCallbackTable::new();
    wrong_magic.magic = CALLBACK_TABLE_MAGIC + 1;
    assert!(!wrong_magic.is_valid());
    assert!(!wrong_magic.is_valid_for_use());
    assert!(!check_abi_version(Some(&wrong_magic)));

    let mut wrong_version = PluginCallbackTable::new();
    wrong_version.abi_version = SDK_ABI_VERSION + 1;
    assert!(wrong_version.is_valid());
    assert!(!wrong_version.is_abi_compatible());
    assert!(!wrong_version.is_valid_for_use());
    assert!(!check_abi_version(Some(&wrong_version)));

    assert!(!check_abi_version(None));
}

#[test]
fn registration_fills_first_free_slot() {
    let mut table = PluginCallbackTable::new();
    let hash = CmdHash::new(b"ping").raw();
    let id = PluginId::from_str(b"PING").raw();
    assert!(table.register(hash, 0x1000, id));
    assert_eq!(table.count, 1);
    let slot = &table.commands[0];
    assert!(slot.is_active());
    assert_eq!(slot.hash().raw(), hash);
    assert_eq!(slot.command_flags().raw(), FLAG_NONE);
    assert_eq!(slot.callback, Some(0x1000));
    assert_eq!(slot.plugin_id, id);
    for cmd in table.commands.iter().skip(1) {
        assert!(!cmd.is_active());
    }
}

#[test]
fn registration_with_flags_keeps_the_flags() {
    let mut table = PluginCallbackTable::new();
    let hash = CmdHash::new(b"exec").raw();
    assert!(table.register_with_flags(hash, 0x2000, 7, FLAG_ELEVATED));
    let slot = &table.commands[0];
    assert_eq!(slot.command_flags().raw(), FLAG_ELEVATED);
    assert_eq!(slot.name_hash, hash);
    assert_eq!(slot.callback, Some(0x2000));
    assert_eq!(slot.plugin_id, 7);
    assert!(slot.active);
}

#[test]
fn registration_succeeds_exactly_eight_times() {
    let mut table = PluginCallbackTable::new();
    for k in 0..MAX_PLUGIN_COMMANDS {
        assert!(table.register(k as u32, 0x1000 + k as u64, 1));
        assert_eq!(table.count, k + 1);
    }
    let before: Vec<PluginCommand> = table.commands.clone();
    assert!(!table.register(0xFFFF, 0x9999, 2));
    assert_eq!(table.count, MAX_PLUGIN_COMMANDS);
    for (a, b) in table.commands.iter().zip(before.iter()) {
        assert_same_command(a, b);
    }
}

#[test]
fn count_always_equals_active_slots() {
    let mut table = PluginCallbackTable::new();
    for k in 0..5u32 {
        assert!(table.register(k, 0x4000 + k as u64, 3));
        let active = table.commands.iter().filter(|c| c.is_active()).count();
        assert_eq!(table.count, active);
    }
}

#[test]
fn builder_defaults_and_setters() {
    let built = CommandBuilder::new(CmdHash::from_raw(0xAB)).build();
    assert_eq!(built.name_hash, 0xAB);
    assert_eq!(built.flags, FLAG_NONE);
    assert_eq!(built.callback, None);
    assert_eq!(built.plugin_id, 0);
    assert!(built.active);
    assert_eq!(built._reserved, [0u8; 7]);
}

#[test]
fn builder_equals_registered_slot() {
    let hash = CmdHash::new(b"ping");
    let id = PluginId::from_str(b"PING");
    let callback: u64 = 0xDEAD_0000;

    let mut table = PluginCallbackTable::new();
    assert!(table.register(hash.raw(), callback, id.raw()));

    let built = CommandBuilder::new(hash)
        .callback(callback)
        .plugin_id(id)
        .flags(CommandFlags::from_raw(FLAG_NONE))
        .build();

    assert_same_command(&table.commands[0], &built);
}

#[test]
fn empty_command_accessors() {
    let empty = PluginCommand::empty();
    assert!(!empty.is_active());
    assert_eq!(empty.hash().raw(), 0);
    assert_eq!(empty.command_flags().raw(), 0);
    assert_eq!(empty.callback, None);
}
