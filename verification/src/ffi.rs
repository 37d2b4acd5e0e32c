//! Fixed-layout records exchanged with the host operating system.
//!
//! These mirror OS structures byte for byte where the fields are plain
//! numbers; a pointer-width field carries the address as a plain integer.

use vstd::prelude::*;

verus! {

/// Uncompressed bitmap data (the `BI_RGB` compression tag).
pub const BI_RGB: u32 = 0;

/// Header describing a device-independent bitmap (40 bytes on the wire).
pub struct BitmapInfoHeader {
    /// Size of this header in bytes, always 40.
    pub bi_size: u32,
    /// Bitmap width in pixels.
    pub bi_width: i32,
    /// Bitmap height in pixels.
    pub bi_height: i32,
    /// Number of color planes, always 1.
    pub bi_planes: u16,
    /// Bits per pixel.
    pub bi_bit_count: u16,
    /// Compression tag.
    pub bi_compression: u32,
    /// Size of the image data in bytes.
    pub bi_size_image: u32,
    /// Horizontal resolution, pixels per meter.
    pub bi_x_pels_per_meter: i32,
    /// Vertical resolution, pixels per meter.
    pub bi_y_pels_per_meter: i32,
    /// Number of palette colors used.
    pub bi_clr_used: u32,
    /// Number of important palette colors.
    pub bi_clr_important: u32,
}

impl BitmapInfoHeader {
    /// A header prepared for a 24-bit uncompressed capture; width, height
    /// and image size are left for the caller to fill in.
    pub fn new() -> (r: Self)
        ensures
            r.bi_size == 40,
            r.bi_width == 0,
            r.bi_height == 0,
            r.bi_planes == 1,
            r.bi_bit_count == 24,
            r.bi_compression == BI_RGB,
            r.bi_size_image == 0,
            r.bi_x_pels_per_meter == 0,
            r.bi_y_pels_per_meter == 0,
            r.bi_clr_used == 0,
            r.bi_clr_important == 0,
    {
        BitmapInfoHeader {
            bi_size: 40,
            bi_width: 0,
            bi_height: 0,
            bi_planes: 1,
            bi_bit_count: 24,
            bi_compression: BI_RGB,
            bi_size_image: 0,
            bi_x_pels_per_meter: 0,
            bi_y_pels_per_meter: 0,
            bi_clr_used: 0,
            bi_clr_important: 0,
        }
    }
}

/// A counted wide-character string as the OS records it; the buffer
/// address is carried as a plain integer.
pub struct UnicodeString {
    /// Length of the string in bytes, not counting a terminator.
    pub length: u16,
    /// Capacity of the buffer in bytes.
    pub maximum_length: u16,
    /// Address of the wide-character buffer.
    pub buffer: usize,
}

/// One process entry of the system's process-information snapshot
/// (leading fields only).
pub struct SystemProcessInformation {
    /// Byte offset from this entry to the next, zero at the last.
    pub next_entry_offset: u32,
    /// Number of threads in the process.
    pub number_of_threads: u32,
    /// Private working-set size in bytes.
    pub working_set_private_size: i64,
    /// Number of hard page faults.
    pub hard_fault_count: u32,
    /// High-water mark of the thread count.
    pub number_of_threads_high_watermark: u32,
    /// Cycle time consumed by the process.
    pub cycle_time: u64,
    /// Creation time of the process.
    pub create_time: i64,
    /// Time spent in user mode.
    pub user_time: i64,
    /// Time spent in kernel mode.
    pub kernel_time: i64,
    /// Name of the process image.
    pub image_name: UnicodeString,
    /// Base scheduling priority.
    pub base_priority: i32,
    /// The process identifier.
    pub unique_process_id: usize,
    /// Identifier of the parent process.
    pub inherited_from_unique_process_id: usize,
}

} // verus!
