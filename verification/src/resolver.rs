//! Name-hash symbol resolution over externally owned memory.
//!
//! Two operations: find a loaded module's base address by the case-folded
//! hash of its name, and find an exported function inside a module's
//! image by the case-folded hash of its export name. Both work over
//! pre-validated, read-only views of memory the OS loader owns — the
//! module list as a sequence of records, the image as a byte span — with
//! every read bounded and every layout offset a named constant below.
//! Both return `None` on a miss and never mutate their inputs.

use vstd::prelude::*;
use crate::hash::{djb2_ci, spec_djb2_ci};
use crate::span::{read_u16_le, read_u32_le, u16_at, u32_at};

verus! {

/// Longest module name considered, in wide characters; a record whose
/// name is longer (or empty) is skipped, never read past this bound.
pub const MAX_MODULE_NAME: usize = 64;

/// One record of the loader's module list: the module's base address and
/// its on-disk name as the loader stores it, in wide characters.
pub struct ModuleEntry {
    /// The module's name, one wide character per unit.
    pub name: Vec<u16>,
    /// The module's base address.
    pub base: u64,
}

/// The low byte of a wide character; module names are compared after
/// narrowing each unit this way.
pub open spec fn low_byte(u: u16) -> u8 {
    (u & 0xFF) as u8
}

/// A wide-character name narrowed to single bytes.
pub open spec fn low_bytes(name: Seq<u16>) -> Seq<u8> {
    name.map_values(|u: u16| low_byte(u))
}

/// Whether a module record answers to a case-folded name hash: its name
/// must be non-empty, within the name bound, and hash to `h` after
/// narrowing.
pub open spec fn module_matches(m: ModuleEntry, h: u32) -> bool {
    &&& 1 <= m.name@.len() <= MAX_MODULE_NAME
    &&& spec_djb2_ci(low_bytes(m.name@)) == h
}

/// The base address of the first module in list order that answers to
/// `h`, or `None` when none does.
pub open spec fn spec_resolve_module(mods: Seq<ModuleEntry>, h: u32) -> Option<u64>
    decreases mods.len(),
{
    if mods.len() == 0 {
        None
    } else if module_matches(mods[0], h) {
        Some(mods[0].base)
    } else {
        spec_resolve_module(mods.drop_first(), h)
    }
}

/// Narrow a wide-character name to single bytes, one unit at a time.
pub fn wide_low_bytes(name: &[u16]) -> (r: Vec<u8>)
    ensures
        r@ == low_bytes(name@),
{
    let mut r: Vec<u8> = Vec::new();
    let mut i: usize = 0;
    while i < name.len()
        invariant
            i <= name.len(),
            r@ == low_bytes(name@.take(i as int)),
        decreases name.len() - i,
    {
        r.push((name[i] & 0xFF) as u8);
        proof {
            assert(low_bytes(name@.take(i + 1)) =~= low_bytes(name@.take(i as int)).push(
                low_byte(name@[i as int]),
            ));
        }
        i = i + 1;
    }
    proof {
        assert(name@.take(name.len() as int) =~= name@);
    }
    r
}

/// Walk the module list in order and return the base address of the
/// first record whose narrowed, case-folded name hashes to `name_hash`;
/// `None` after a full traversal without a match.
pub fn get_module_by_hash(modules: &Vec<ModuleEntry>, name_hash: u32) -> (r: Option<u64>)
    ensures
        r == spec_resolve_module(modules@, name_hash),
{
    let mut i: usize = 0;
    proof {
        assert(modules@.skip(0) =~= modules@);
    }
    while i < modules.len()
        invariant
            i <= modules.len(),
            spec_resolve_module(modules@, name_hash) == spec_resolve_module(
                modules@.skip(i as int),
                name_hash,
            ),
        decreases modules.len() - i,
    {
        proof {
            assert(modules@.skip(i as int)[0] == modules@[i as int]);
            assert(modules@.skip(i as int).drop_first() =~= modules@.skip(i + 1));
        }
        let entry = &modules[i];
        let n = entry.name.len();
        if n >= 1 && n <= MAX_MODULE_NAME {
            let ascii = wide_low_bytes(entry.name.as_slice());
            let h = djb2_ci(ascii.as_slice());
            if h == name_hash {
                assert(module_matches(modules@[i as int], name_hash));
                return Some(entry.base);
            }
        }
        assert(!module_matches(modules@[i as int], name_hash));
        i = i + 1;
    }
    proof {
        assert(modules@.skip(modules.len() as int) =~= Seq::<ModuleEntry>::empty());
    }
    None
}

/// First two bytes of a well-formed executable image ("MZ" read as a
/// little-endian word).
pub const DOS_MAGIC: u16 = 0x5A4D;

/// Offset of the field holding the image-header offset.
pub const PE_OFFSET_FIELD: usize = 0x3C;

/// Marker at the start of the image header ("PE\0\0" read as a
/// little-endian word).
pub const PE_SIGNATURE: u32 = 0x4550;

/// Offset, within the image header, of the export-directory RVA.
pub const EXPORT_DIR_FIELD: usize = 0x88;

/// Offset, within the export directory, of the count of named exports.
pub const EXPORT_NUM_NAMES_FIELD: usize = 0x18;

/// Offset, within the export directory, of the function-address table's
/// RVA.
pub const EXPORT_FUNCTIONS_FIELD: usize = 0x1C;

/// Offset, within the export directory, of the name table's RVA.
pub const EXPORT_NAMES_FIELD: usize = 0x20;

/// Offset, within the export directory, of the ordinal table's RVA.
pub const EXPORT_ORDINALS_FIELD: usize = 0x24;

/// Longest export name read, in bytes; a name is cut off at this bound.
pub const MAX_EXPORT_NAME: usize = 256;

/// Where the image header starts, by the field at `PE_OFFSET_FIELD`.
pub open spec fn pe_offset(img: Seq<u8>) -> int {
    u32_at(img, PE_OFFSET_FIELD as int) as int
}

/// The header checks made before any export read: the image holds the
/// two expected markers, and the header fields read lie inside it.
pub open spec fn headers_ok(img: Seq<u8>) -> bool {
    &&& img.len() >= 0x40
    &&& u16_at(img, 0) == DOS_MAGIC
    &&& pe_offset(img) + EXPORT_DIR_FIELD + 4 <= img.len()
    &&& u32_at(img, pe_offset(img)) == PE_SIGNATURE
}

/// The export directory's RVA; zero when the module exports nothing.
pub open spec fn export_dir_rva(img: Seq<u8>) -> int {
    u32_at(img, pe_offset(img) + EXPORT_DIR_FIELD) as int
}

/// Whether the export directory's descriptor fields lie inside the image.
pub open spec fn export_dir_ok(img: Seq<u8>) -> bool {
    export_dir_rva(img) + EXPORT_ORDINALS_FIELD + 4 <= img.len()
}

/// The count of named exports.
pub open spec fn export_num_names(img: Seq<u8>) -> int {
    u32_at(img, export_dir_rva(img) + EXPORT_NUM_NAMES_FIELD) as int
}

/// The RVA of the function-address table.
pub open spec fn export_functions_rva(img: Seq<u8>) -> int {
    u32_at(img, export_dir_rva(img) + EXPORT_FUNCTIONS_FIELD) as int
}

/// The RVA of the name table.
pub open spec fn export_names_rva(img: Seq<u8>) -> int {
    u32_at(img, export_dir_rva(img) + EXPORT_NAMES_FIELD) as int
}

/// The RVA of the ordinal table.
pub open spec fn export_ordinals_rva(img: Seq<u8>) -> int {
    u32_at(img, export_dir_rva(img) + EXPORT_ORDINALS_FIELD) as int
}

/// Length of the zero-terminated byte string at `off`: the count of
/// non-zero bytes before the first zero, cut off at `fuel` and at the
/// end of the span.
pub open spec fn c_str_len(s: Seq<u8>, off: int, fuel: nat) -> nat
    decreases fuel,
{
    if fuel == 0 {
        0
    } else if !(0 <= off < s.len()) {
        0
    } else if s[off] == 0 {
        0
    } else {
        1 + c_str_len(s, off + 1, (fuel - 1) as nat)
    }
}

/// A scan that saw `l` non-zero in-bounds bytes and then a terminator,
/// the bound, or the end of the span, computed exactly `c_str_len`.
pub proof fn lemma_c_str_len_eq(s: Seq<u8>, off: int, l: int, fuel: nat)
    requires
        0 <= off <= s.len(),
        0 <= l <= fuel,
        forall|k: int| 0 <= k < l ==> off + k < s.len() && s[#[trigger] (off + k)] != 0,
        l < fuel ==> (off + l >= s.len() || s[off + l] == 0),
    ensures
        c_str_len(s, off, fuel) == l,
    decreases l,
{
    if l == 0 {
    } else {
        assert(off + 0 < s.len() && s[off + 0] != 0);
        assert forall|k: int| 0 <= k < l - 1 implies (off + 1) + k < s.len() && s[#[trigger] ((off
            + 1) + k)] != 0 by {
            assert(off + (k + 1) < s.len() && s[off + (k + 1)] != 0);
        }
        lemma_c_str_len_eq(s, off + 1, l - 1, (fuel - 1) as nat);
    }
}

/// The export name stored at byte offset `off`.
pub open spec fn export_name_at(img: Seq<u8>, off: int) -> Seq<u8>
    recommends
        0 <= off <= img.len(),
{
    img.subrange(off, off + c_str_len(img, off, MAX_EXPORT_NAME as nat) as int)
}

/// The byte offset of the `i`-th export name, by the name table.
pub open spec fn name_off_at(img: Seq<u8>, i: int) -> int {
    u32_at(img, export_names_rva(img) + 4 * i) as int
}

/// Whether the `i`-th name-table entry lies inside the image.
pub open spec fn name_entry_ok(img: Seq<u8>, i: int) -> bool {
    export_names_rva(img) + 4 * i + 4 <= img.len()
}

/// Whether the `i`-th named export answers to the case-folded hash `h`:
/// its name-table entry and its name lie inside the image and the name
/// hashes to `h`.
pub open spec fn entry_matches(img: Seq<u8>, i: int, h: u32) -> bool {
    &&& name_entry_ok(img, i)
    &&& name_off_at(img, i) <= img.len()
    &&& spec_djb2_ci(export_name_at(img, name_off_at(img, i))) == h
}

/// The function RVA the `i`-th named export maps to: its ordinal indexes
/// the function-address table; `None` when either read would leave the
/// image.
pub open spec fn ordinal_lookup(img: Seq<u8>, i: int) -> Option<u64> {
    if export_ordinals_rva(img) + 2 * i + 2 <= img.len() {
        let ord = u16_at(img, export_ordinals_rva(img) + 2 * i) as int;
        if export_functions_rva(img) + 4 * ord + 4 <= img.len() {
            Some(u32_at(img, export_functions_rva(img) + 4 * ord) as u64)
        } else {
            None
        }
    } else {
        None
    }
}

/// The linear scan of the name table from entry `i` on: the first entry
/// whose name hashes to `h` wins and is looked up by ordinal; a read
/// that would leave the image ends the scan with `None`.
pub open spec fn scan_exports(img: Seq<u8>, h: u32, i: int) -> Option<u64>
    decreases export_num_names(img) - i,
{
    if i >= export_num_names(img) {
        None
    } else if !name_entry_ok(img, i) {
        None
    } else if name_off_at(img, i) > img.len() {
        None
    } else if spec_djb2_ci(export_name_at(img, name_off_at(img, i))) == h {
        ordinal_lookup(img, i)
    } else {
        scan_exports(img, h, i + 1)
    }
}

/// The function RVA an image resolves a case-folded name hash to:
/// `None` unless the image passes the header checks, has an export
/// directory, and lists a name hashing to `h`.
pub open spec fn spec_resolve_export(img: Seq<u8>, h: u32) -> Option<u64> {
    if !headers_ok(img) {
        None
    } else if export_dir_rva(img) == 0 {
        None
    } else if !export_dir_ok(img) {
        None
    } else {
        scan_exports(img, h, 0)
    }
}

/// Measure the zero-terminated export name at `off`.
fn export_name_len(image: &[u8], off: usize) -> (l: usize)
    requires
        off <= image.len(),
    ensures
        l == c_str_len(image@, off as int, MAX_EXPORT_NAME as nat),
        off + l <= image.len(),
        l <= MAX_EXPORT_NAME,
    decreases image.len() - off,
{
    let mut l: usize = 0;
    while l < MAX_EXPORT_NAME && l < image.len() - off && image[off + l] != 0
        invariant
            off <= image.len(),
            l <= MAX_EXPORT_NAME,
            off + l <= image.len(),
            forall|k: int| 0 <= k < l ==> off + k < image@.len() && image@[#[trigger] (off + k)] != 0,
        decreases MAX_EXPORT_NAME - l,
    {
        l = l + 1;
    }
    proof {
        lemma_c_str_len_eq(image@, off as int, l as int, MAX_EXPORT_NAME as nat);
    }
    l
}

/// Resolve an exported function by the case-folded hash of its name:
/// validate the image's two markers, follow the export directory, scan
/// the name table in order, and return the module base plus the matched
/// export's function RVA (with pointer-width wraparound). `None` on any
/// failed check and on a miss; the image is never mutated.
#[verifier::rlimit(100)]
pub fn get_proc_by_hash(image: &[u8], base: u64, name_hash: u32) -> (r: Option<u64>)
    ensures
        r is Some <==> spec_resolve_export(image@, name_hash) is Some,
        spec_resolve_export(image@, name_hash) matches Some(rva) ==> r == Some(
            vstd::wrapping::u64_specs::wrapping_add(base, rva),
        ),
{
    let len64: u64 = image.len() as u64;
    if image.len() < 0x40 {
        return None;
    }
    if read_u16_le(image, 0) != DOS_MAGIC {
        return None;
    }
    let pe_off64: u64 = read_u32_le(image, PE_OFFSET_FIELD) as u64;
    if pe_off64 + (EXPORT_DIR_FIELD + 4) as u64 > len64 {
        return None;
    }
    let pe_off: usize = pe_off64 as usize;
    if read_u32_le(image, pe_off) != PE_SIGNATURE {
        return None;
    }
    let export_rva64: u64 = read_u32_le(image, pe_off + EXPORT_DIR_FIELD) as u64;
    assert(export_rva64 == export_dir_rva(image@));
    if export_rva64 == 0 {
        return None;
    }
    if export_rva64 + (EXPORT_ORDINALS_FIELD + 4) as u64 > len64 {
        return None;
    }
    let edir: usize = export_rva64 as usize;
    let num_names: u32 = read_u32_le(image, edir + EXPORT_NUM_NAMES_FIELD);
    let functions_rva: u32 = read_u32_le(image, edir + EXPORT_FUNCTIONS_FIELD);
    let names_rva: u32 = read_u32_le(image, edir + EXPORT_NAMES_FIELD);
    let ordinals_rva: u32 = read_u32_le(image, edir + EXPORT_ORDINALS_FIELD);
    assert(num_names == export_num_names(image@));
    assert(functions_rva == export_functions_rva(image@));
    assert(names_rva == export_names_rva(image@));
    assert(ordinals_rva == export_ordinals_rva(image@));
    let mut i: u32 = 0;
    while i < num_names
        invariant
            i <= num_names,
            len64 == image@.len(),
            headers_ok(image@),
            export_dir_rva(image@) != 0,
            export_dir_ok(image@),
            num_names == export_num_names(image@),
            functions_rva == export_functions_rva(image@),
            names_rva == export_names_rva(image@),
            ordinals_rva == export_ordinals_rva(image@),
            scan_exports(image@, name_hash, 0) == scan_exports(image@, name_hash, i as int),
        decreases num_names - i,
    {
        let entry_off64: u64 = names_rva as u64 + 4u64 * (i as u64);
        assert(entry_off64 == export_names_rva(image@) + 4 * (i as int));
        if entry_off64 + 4 > len64 {
            assert(!name_entry_ok(image@, i as int));
            assert(scan_exports(image@, name_hash, i as int) is None);
            return None;
        }
        assert(name_entry_ok(image@, i as int));
        let entry_off: usize = entry_off64 as usize;
        let name_off32: u32 = read_u32_le(image, entry_off);
        assert(name_off32 == name_off_at(image@, i as int));
        if name_off32 as u64 > len64 {
            assert(scan_exports(image@, name_hash, i as int) is None);
            return None;
        }
        let name_off: usize = name_off32 as usize;
        let l = export_name_len(image, name_off);
        let name: &[u8] = &image[name_off..name_off + l];
        let h = djb2_ci(name);
        proof {
            assert(name@ =~= export_name_at(image@, name_off as int));
        }
        if h == name_hash {
            assert(scan_exports(image@, name_hash, i as int) == ordinal_lookup(
                image@,
                i as int,
            ));
            let ord_off64: u64 = ordinals_rva as u64 + 2u64 * (i as u64);
            assert(ord_off64 == export_ordinals_rva(image@) + 2 * (i as int));
            if ord_off64 + 2 > len64 {
                assert(ordinal_lookup(image@, i as int) is None);
                return None;
            }
            let ord: u16 = read_u16_le(image, ord_off64 as usize);
            assert(ord == u16_at(image@, export_ordinals_rva(image@) + 2 * (i as int)));
            let fn_off64: u64 = functions_rva as u64 + 4u64 * (ord as u64);
            assert(fn_off64 == export_functions_rva(image@) + 4 * (ord as int));
            if fn_off64 + 4 > len64 {
                assert(ordinal_lookup(image@, i as int) is None);
                return None;
            }
            let rva: u32 = read_u32_le(image, fn_off64 as usize);
            assert(ordinal_lookup(image@, i as int) == Some(rva as u64));
            return Some(base.wrapping_add(rva as u64));
        }
        assert(scan_exports(image@, name_hash, i as int) == scan_exports(
            image@,
            name_hash,
            i + 1,
        ));
        i = i + 1;
    }
    None
}

/// A hash that no named export of the image answers to resolves to
/// `None`, whatever the scan runs into.
proof fn lemma_scan_exports_miss(img: Seq<u8>, h: u32, i: int)
    requires
        forall|j: int| i <= j < export_num_names(img) ==> !(#[trigger] entry_matches(img, j, h)),
    ensures
        scan_exports(img, h, i) is None,
    decreases export_num_names(img) - i,
{
    if i < export_num_names(img) {
        assert(!entry_matches(img, i, h));
        if name_entry_ok(img, i) && name_off_at(img, i) <= img.len() {
            assert(spec_djb2_ci(export_name_at(img, name_off_at(img, i))) != h);
            lemma_scan_exports_miss(img, h, i + 1);
        }
    }
}

/// Resolving an export hash that no named export of the image answers to
/// yields `None`.
pub proof fn lemma_resolve_export_miss(img: Seq<u8>, h: u32)
    requires
        forall|j: int| 0 <= j < export_num_names(img) ==> !(#[trigger] entry_matches(img, j, h)),
    ensures
        spec_resolve_export(img, h) is None,
{
    if headers_ok(img) && export_dir_rva(img) != 0 && export_dir_ok(img) {
        lemma_scan_exports_miss(img, h, 0);
    }
}

/// A hash that no record of the list answers to resolves to `None`.
pub proof fn lemma_resolve_module_miss(mods: Seq<ModuleEntry>, h: u32)
    requires
        forall|i: int| 0 <= i < mods.len() ==> !(#[trigger] module_matches(mods[i], h)),
    ensures
        spec_resolve_module(mods, h) is None,
    decreases mods.len(),
{
    if mods.len() > 0 {
        assert forall|i: int| 0 <= i < mods.drop_first().len() implies !(#[trigger] module_matches(
            mods.drop_first()[i],
            h,
        )) by {
            assert(mods.drop_first()[i] == mods[i + 1]);
        }
        lemma_resolve_module_miss(mods.drop_first(), h);
    }
}

} // verus!
