//! Fixed-offset reads out of the thread control block.
//!
//! The control block's layout is an undocumented ABI of the host
//! operating system; the two offsets below are the single reviewed place
//! where it is written down. The block itself is handed in as a byte
//! span by whatever layer located it; a span too short to hold the field
//! stands for the null control-block pointer and yields the zero
//! sentinel, the only failure this layer can detect.

use vstd::prelude::*;
use crate::span::{read_u64_le, u64_at};

verus! {

/// Offset of the process identifier inside the thread control block.
pub const TCB_PROCESS_ID_OFFSET: usize = 0x40;

/// Offset of the thread identifier inside the thread control block.
pub const TCB_THREAD_ID_OFFSET: usize = 0x48;

/// The process identifier recorded in a thread control block: the low 32
/// bits of the pointer-width field at `TCB_PROCESS_ID_OFFSET`, or the
/// zero sentinel when the span cannot hold that field.
pub fn get_current_pid(tcb: &[u8]) -> (r: u32)
    ensures
        tcb@.len() >= TCB_PROCESS_ID_OFFSET + 8 ==> r == u64_at(tcb@, TCB_PROCESS_ID_OFFSET as int)
            as u32,
        tcb@.len() < TCB_PROCESS_ID_OFFSET + 8 ==> r == 0,
{
    if tcb.len() < TCB_PROCESS_ID_OFFSET + 8 {
        return 0;
    }
    read_u64_le(tcb, TCB_PROCESS_ID_OFFSET) as u32
}

/// The thread identifier recorded in a thread control block: the low 32
/// bits of the pointer-width field at `TCB_THREAD_ID_OFFSET`, or the zero
/// sentinel when the span cannot hold that field.
pub fn get_current_tid(tcb: &[u8]) -> (r: u32)
    ensures
        tcb@.len() >= TCB_THREAD_ID_OFFSET + 8 ==> r == u64_at(tcb@, TCB_THREAD_ID_OFFSET as int)
            as u32,
        tcb@.len() < TCB_THREAD_ID_OFFSET + 8 ==> r == 0,
{
    if tcb.len() < TCB_THREAD_ID_OFFSET + 8 {
        return 0;
    }
    read_u64_le(tcb, TCB_THREAD_ID_OFFSET) as u32
}

} // verus!
