use milow_plugin_sdk::abi::PluginCallbackTable;
use milow_plugin_sdk::hash::djb2_ci;
use milow_plugin_sdk::resolver::{
    get_module_by_hash, get_proc_by_hash, wide_low_bytes, ModuleEntry,
};

fn wide(name: &str) -> Vec<u16> {
    name.bytes().map(|b| b as u16).collect()
}

fn put_u16(img: &mut Vec<u8>, off: usize, v: u16) {
    img[off] = (v & 0xFF) as u8;
    img[off + 1] = (v >> 8) as u8;
}

fn put_u32(img: &mut Vec<u8>, off: usize, v: u32) {
    img[off] = (v & 0xFF) as u8;
    img[off + 1] = ((v >> 8) & 0xFF) as u8;
    img[off + 2] = ((v >> 16) & 0xFF) as u8;
    img[off + 3] = ((v >> 24) & 0xFF) as u8;
}

fn put_name(img: &mut Vec<u8>, off: usize, name: &[u8]) {
    img[off..off + name.len()].copy_from_slice(name);
    img[off + name.len()] = 0;
}

/// A synthetic executable image with two named exports:
/// "LoadLibraryA" (ordinal 1, function RVA 0x2222) and
/// "Sleep" (ordinal 0, function RVA 0x1111).
fn sample_image() -> Vec<u8> {
    let mut img = vec![0u8; 0x1B0];
    img[0] = 0x4D;
    img[1] = 0x5A;
    put_u32(&mut img, 0x3C, 0x40); // image header at 0x40
    put_u32(&mut img, 0x40, 0x4550); // header marker
    put_u32(&mut img, 0x40 + 0x88, 0x100); // export directory RVA
    put_u32(&mut img, 0x100 + 0x18, 2); // named exports
    put_u32(&mut img, 0x100 + 0x1C, 0x140); // function-address table
    put_u32(&mut img, 0x100 + 0x20, 0x160); // name table
    put_u32(&mut img, 0x100 + 0x24, 0x180); // ordinal table
    put_u32(&mut img, 0x140, 0x1111);
    put_u32(&mut img, 0x144, 0x2222);
    put_u32(&mut img, 0x160, 0x190); // name 0
    put_u32(&mut img, 0x164, 0x1A0); // name 1
    put_u16(&mut img, 0x180, 1); // ordinal of name 0
    put_u16(&mut img, 0x182, 0); // ordinal of name 1
    put_name(&mut img, 0x190, b"LoadLibraryA");
    put_name(&mut img, 0x1A0, b"Sleep");
    img
}

#[test]
fn module_found_by_case_folded_hash() {
    let modules = vec![
        ModuleEntry { name: wide("ntdll.dll"), base: 0x7FF8_0000_0000 },
        ModuleEntry { name: wide("KERNEL32.DLL"), base: 0x7FF8_1000_0000 },
    ];
    assert_eq!(
        get_module_by_hash(&modules, djb2_ci(b"kernel32.dll")),
        Some(0x7FF8_1000_0000)
    );
    assert_eq!(
        get_module_by_hash(&modules, djb2_ci(b"ntdll.dll")),
        Some(0x7FF8_0000_0000)
    );
}

#[test]
fn module_miss_returns_none() {
    let modules = vec![
        ModuleEntry { name: wide("kernel32.dll"), base: 0x7FF8_1000_0000 },
    ];
    assert_eq!(get_module_by_hash(&modules, djb2_ci(b"missing.dll")), None);
    assert_eq!(get_module_by_hash(&Vec::new(), djb2_ci(b"kernel32.dll")), None);
}

#[test]
fn module_first_match_wins() {
    let modules = vec![
        ModuleEntry { name: wide("dup.dll"), base: 0x1000 },
        ModuleEntry { name: wide("DUP.DLL"), base: 0x2000 },
    ];
    assert_eq!(get_module_by_hash(&modules, djb2_ci(b"dup.dll")), Some(0x1000));
}

#[test]
fn module_name_bound_is_enforced() {
    let long_name: String = "a".repeat(65);
    let modules = vec![
        ModuleEntry { name: wide(&long_name), base: 0x1000 },
        ModuleEntry { name: wide(""), base: 0x2000 },
    ];
    assert_eq!(get_module_by_hash(&modules, djb2_ci(long_name.as_bytes())), None);
    assert_eq!(get_module_by_hash(&modules, djb2_ci(b"")), None);
}

#[test]
fn module_name_narrowing_takes_low_bytes() {
    let narrowed = wide_low_bytes(&[0x6B, 0x165, 0xFF41]);
    assert_eq!(narrowed, vec![0x6B, 0x65, 0x41]);
}

#[test]
fn export_found_by_case_folded_hash() {
    let img = sample_image();
    let base = 0x7FF8_1000_0000u64;
    assert_eq!(
        get_proc_by_hash(&img, base, djb2_ci(b"LoadLibraryA")),
        Some(base + 0x2222)
    );
    assert_eq!(
        get_proc_by_hash(&img, base, djb2_ci(b"LOADLIBRARYA")),
        Some(base + 0x2222)
    );
    assert_eq!(
        get_proc_by_hash(&img, base, djb2_ci(b"Sleep")),
        Some(base + 0x1111)
    );
}

#[test]
fn export_miss_returns_none() {
    let img = sample_image();
    assert_eq!(get_proc_by_hash(&img, 0x1000, djb2_ci(b"CreateFileA")), None);
}

#[test]
fn export_inputs_are_not_mutated() {
    let img = sample_image();
    let copy = img.clone();
    let _found = get_proc_by_hash(&img, 0, djb2_ci(b"Sleep"));
    let _missed = get_proc_by_hash(&img, 0, djb2_ci(b"CreateFileA"));
    assert_eq!(img, copy);
}

#[test]
fn export_rejects_bad_first_marker() {
    let mut img = sample_image();
    img[0] = 0x00;
    assert_eq!(get_proc_by_hash(&img, 0, djb2_ci(b"Sleep")), None);
}

#[test]
fn export_rejects_bad_header_marker() {
    let mut img = sample_image();
    put_u32(&mut img, 0x40, 0x4551);
    assert_eq!(get_proc_by_hash(&img, 0, djb2_ci(b"Sleep")), None);
}

#[test]
fn export_rejects_missing_directory() {
    let mut img = sample_image();
    put_u32(&mut img, 0x40 + 0x88, 0);
    assert_eq!(get_proc_by_hash(&img, 0, djb2_ci(b"Sleep")), None);
}

#[test]
fn export_rejects_truncated_image() {
    let img = vec![0x4D, 0x5A, 0x00];
    assert_eq!(get_proc_by_hash(&img, 0, djb2_ci(b"Sleep")), None);
}

#[test]
fn end_to_end_validate_then_resolve() {
    let table = PluginCallbackTable::new();
    assert!(table.is_valid_for_use());

    let base = 0x7FF8_2000_0000u64;
    let modules = vec![ModuleEntry { name: wide("kernel32.dll"), base }];
    assert_eq!(get_module_by_hash(&modules, djb2_ci(b"kernel32.dll")), Some(base));
    assert_eq!(get_module_by_hash(&modules, djb2_ci(b"missing.dll")), None);
}

#[test]
fn export_base_is_added_to_the_function_rva() {
    let img = sample_image();
    assert_eq!(get_proc_by_hash(&img, 0, djb2_ci(b"Sleep")), Some(0x1111));
    assert_eq!(get_proc_by_hash(&img, 5, djb2_ci(b"Sleep")), Some(0x1116));
}
