//! The firmware property-mailbox wire codec.
//!
//! Every privileged request travels as one fixed-capacity array of 32-bit
//! words, laid out as `[total_size_bytes, request_code = 0, tag_id,
//! tag_buffer_size, tag_data_size, args.., end_tag = 0]`.  The firmware
//! overwrites the argument slots in place, so a caller reads the result
//! from the position where it wrote its input — always word 5 for the
//! requests below.
//!
//! This module only builds and reads those word arrays.  Carrying one to
//! the firmware is a single `ioctl` on the mailbox character device, an
//! exchange the library leaves to its unverified surroundings.

use vstd::prelude::*;

verus! {

/// Number of 32-bit words in a property-mailbox buffer.
pub const MBOX_WORDS: usize = 32;

/// Major device number of a manually created mailbox node.
pub const MAJOR_NUM: usize = 100;

/// Size in bytes of a pointer on the platform the firmware serves.
pub const PTR_SIZE: usize = 4;

pub const MEM_FLAG_DISCARDABLE: u32 = 1;

pub const MEM_FLAG_NORMAL: u32 = 0;

/// Uncached alias.
pub const MEM_FLAG_DIRECT: u32 = 4;

/// Non-allocating in L2 but coherent.
pub const MEM_FLAG_COHERENT: u32 = 8;

/// Allocating in L2, bypassing L1: ordinary stores become visible to the
/// DMA engine without an explicit flush.
pub const MEM_FLAG_L1_NONALLOCATING: u32 = 12;

/// Initialise the allocation to all zeros.
pub const MEM_FLAG_ZERO: u32 = 16;

pub const MEM_FLAG_NO_INIT: u32 = 32;

pub const MEM_FLAG_HINT_PERMALOCK: u32 = 64;

/// Index of the word where every request below leaves its result.
pub const MBOX_RESULT_WORD: usize = 5;

/// A property-message buffer: the fixed prefix `prefix`, then zero words up
/// to the fixed capacity.
pub open spec fn spec_message(prefix: Seq<u32>) -> Seq<u32> {
    prefix + Seq::new((MBOX_WORDS - prefix.len()) as nat, |i: int| 0u32)
}

/// Builds the message whose words are `prefix` followed by zeros.
fn build_message(prefix: Vec<u32>) -> (r: Vec<u32>)
    requires
        prefix@.len() <= MBOX_WORDS,
    ensures
        r@ == spec_message(prefix@),
{
    let mut r = prefix;
    while r.len() < MBOX_WORDS
        invariant
            prefix@.len() <= MBOX_WORDS,
            prefix@.len() <= r@.len() <= MBOX_WORDS,
            r@ =~= spec_message(prefix@).subrange(0, r@.len() as int),
        decreases MBOX_WORDS - r@.len(),
    {
        r.push(0);
    }
    proof {
        assert(r@ =~= spec_message(prefix@));
    }
    r
}

/// The request words asking the firmware for `size` bytes of physically
/// contiguous memory with the given alignment and memory flags.
pub open spec fn spec_mem_alloc(size: u32, align: u32, flags: u32) -> Seq<u32> {
    spec_message(seq![36u32, 0u32, 0x3000cu32, 12u32, 12u32, size, align, flags, 0u32])
}

/// Request: allocate physically contiguous memory.  The response carries
/// the allocation handle in the result word.
pub fn mem_alloc(size: u32, align: u32, flags: u32) -> (r: Vec<u32>)
    ensures
        r@ == spec_mem_alloc(size, align, flags),
{
    let mut p: Vec<u32> = Vec::new();
    p.push(36);
    p.push(0);
    p.push(0x3000c);
    p.push(12);
    p.push(12);
    p.push(size);
    p.push(align);
    p.push(flags);
    p.push(0);
    build_message(p)
}

/// The request words releasing the allocation `handle`.
pub open spec fn spec_mem_free(handle: u32) -> Seq<u32> {
    spec_message(seq![28u32, 0u32, 0x3000fu32, 4u32, 4u32, handle, 0u32])
}

/// Request: release an allocation.  The response carries the firmware
/// status in the result word.
pub fn mem_free(handle: u32) -> (r: Vec<u32>)
    ensures
        r@ == spec_mem_free(handle),
{
    let mut p: Vec<u32> = Vec::new();
    p.push(28);
    p.push(0);
    p.push(0x3000f);
    p.push(4);
    p.push(4);
    p.push(handle);
    p.push(0);
    build_message(p)
}

/// The request words locking the allocation `handle` in place.
pub open spec fn spec_mem_lock(handle: u32) -> Seq<u32> {
    spec_message(seq![28u32, 0u32, 0x3000du32, 4u32, 4u32, handle, 0u32])
}

/// Request: lock an allocation in place.  The response carries the bus
/// address of the locked memory in the result word.
pub fn mem_lock(handle: u32) -> (r: Vec<u32>)
    ensures
        r@ == spec_mem_lock(handle),
{
    let mut p: Vec<u32> = Vec::new();
    p.push(28);
    p.push(0);
    p.push(0x3000d);
    p.push(4);
    p.push(4);
    p.push(handle);
    p.push(0);
    build_message(p)
}

/// The request words unlocking the allocation `handle`.
pub open spec fn spec_mem_unlock(handle: u32) -> Seq<u32> {
    spec_message(seq![28u32, 0u32, 0x3000eu32, 4u32, 4u32, handle, 0u32])
}

/// Request: unlock an allocation.  The response carries the firmware
/// status in the result word.
pub fn mem_unlock(handle: u32) -> (r: Vec<u32>)
    ensures
        r@ == spec_mem_unlock(handle),
{
    let mut p: Vec<u32> = Vec::new();
    p.push(28);
    p.push(0);
    p.push(0x3000e);
    p.push(4);
    p.push(4);
    p.push(handle);
    p.push(0);
    build_message(p)
}

/// The request words running code at `code` on the firmware side.
pub open spec fn spec_execute_code(
    code: u32,
    r0: u32,
    r1: u32,
    r2: u32,
    r3: u32,
    r4: u32,
    r5: u32,
) -> Seq<u32> {
    spec_message(
        seq![52u32, 0u32, 0x30010u32, 28u32, 28u32, code, r0, r1, r2, r3, r4, r5, 0u32],
    )
}

/// Request: execute code on the firmware side.  The response carries the
/// return value in the result word.
pub fn execute_code(code: u32, r0: u32, r1: u32, r2: u32, r3: u32, r4: u32, r5: u32) -> (r: Vec<
    u32,
>)
    ensures
        r@ == spec_execute_code(code, r0, r1, r2, r3, r4, r5),
{
    let mut p: Vec<u32> = Vec::new();
    p.push(52);
    p.push(0);
    p.push(0x30010);
    p.push(28);
    p.push(28);
    p.push(code);
    p.push(r0);
    p.push(r1);
    p.push(r2);
    p.push(r3);
    p.push(r4);
    p.push(r5);
    p.push(0);
    build_message(p)
}

/// The request words enabling or disabling the QPU.
pub open spec fn spec_qpu_enable(enable: u32) -> Seq<u32> {
    spec_message(seq![28u32, 0u32, 0x30012u32, 4u32, 4u32, enable, 0u32])
}

/// Request: enable or disable the QPU.  The response carries the firmware
/// status in the result word.
pub fn qpu_enable(enable: u32) -> (r: Vec<u32>)
    ensures
        r@ == spec_qpu_enable(enable),
{
    let mut p: Vec<u32> = Vec::new();
    p.push(28);
    p.push(0);
    p.push(0x30012);
    p.push(4);
    p.push(4);
    p.push(enable);
    p.push(0);
    build_message(p)
}

/// The request words running a QPU program.
pub open spec fn spec_execute_qpu(num_qpus: u32, control: u32, noflush: u32, timeout: u32) -> Seq<
    u32,
> {
    spec_message(
        seq![40u32, 0u32, 0x30011u32, 16u32, 16u32, num_qpus, control, noflush, timeout, 0u32],
    )
}

/// Request: execute a QPU program.  The response carries the return value
/// in the result word.
pub fn execute_qpu(num_qpus: u32, control: u32, noflush: u32, timeout: u32) -> (r: Vec<u32>)
    ensures
        r@ == spec_execute_qpu(num_qpus, control, noflush, timeout),
{
    let mut p: Vec<u32> = Vec::new();
    p.push(40);
    p.push(0);
    p.push(0x30011);
    p.push(16);
    p.push(16);
    p.push(num_qpus);
    p.push(control);
    p.push(noflush);
    p.push(timeout);
    p.push(0);
    build_message(p)
}

/// The request words asking for the firmware revision.
pub open spec fn spec_get_firmware_revision() -> Seq<u32> {
    spec_message(seq![28u32, 0u32, 0x10000u32, 4u32, 0u32, 0u32, 0u32])
}

/// Request: query the firmware revision.  The response carries the
/// revision in the result word.
pub fn get_firmware_revision() -> (r: Vec<u32>)
    ensures
        r@ == spec_get_firmware_revision(),
{
    let mut p: Vec<u32> = Vec::new();
    p.push(28);
    p.push(0);
    p.push(0x10000);
    p.push(4);
    p.push(0);
    p.push(0);
    p.push(0);
    build_message(p)
}

/// The request words asking for the board model.
pub open spec fn spec_get_board_model() -> Seq<u32> {
    spec_message(seq![28u32, 0u32, 0x10001u32, 4u32, 0u32, 0u32, 0u32])
}

/// Request: query the board model.  The response carries the model in the
/// result word.
pub fn get_board_model() -> (r: Vec<u32>)
    ensures
        r@ == spec_get_board_model(),
{
    let mut p: Vec<u32> = Vec::new();
    p.push(28);
    p.push(0);
    p.push(0x10001);
    p.push(4);
    p.push(0);
    p.push(0);
    p.push(0);
    build_message(p)
}

/// The request words asking for the bit-packed board revision.
pub open spec fn spec_get_board_revision() -> Seq<u32> {
    spec_message(seq![28u32, 0u32, 0x10002u32, 4u32, 0u32, 0u32, 0u32])
}

/// Request: query the board revision.  The response carries the bit-packed
/// revision word in the result word; `platform::get_model` decodes it.
pub fn get_board_revision() -> (r: Vec<u32>)
    ensures
        r@ == spec_get_board_revision(),
{
    let mut p: Vec<u32> = Vec::new();
    p.push(28);
    p.push(0);
    p.push(0x10002);
    p.push(4);
    p.push(0);
    p.push(0);
    p.push(0);
    build_message(p)
}

/// The request words asking which DMA channels the firmware left to the
/// operating system.
pub open spec fn spec_get_dma_channels() -> Seq<u32> {
    spec_message(seq![28u32, 0u32, 0x60001u32, 4u32, 0u32, 0u32, 0u32])
}

/// Request: query the usable DMA channel mask.  The response carries the
/// mask in the result word.
pub fn get_dma_channels() -> (r: Vec<u32>)
    ensures
        r@ == spec_get_dma_channels(),
{
    let mut p: Vec<u32> = Vec::new();
    p.push(28);
    p.push(0);
    p.push(0x60001);
    p.push(4);
    p.push(0);
    p.push(0);
    p.push(0);
    build_message(p)
}

/// Reads a request's result from the word where its argument was written.
pub fn response_value(p: &Vec<u32>) -> (r: u32)
    requires
        p@.len() == MBOX_WORDS,
    ensures
        r == p@[MBOX_RESULT_WORD as int],
{
    p[MBOX_RESULT_WORD]
}

/// The `ioctl` request code of a property-mailbox exchange: both
/// directions, the mailbox major number, request number zero, and the
/// platform's pointer width as the argument size.
pub fn mbox_property_code() -> (r: usize)
    ensures
        r == crate::ioctl::spec_ioc(6, MAJOR_NUM as usize, 0, PTR_SIZE as usize),
{
    proof {
        assert((crate::ioctl::IOC_READ | crate::ioctl::IOC_WRITE) == 6usize) by (bit_vector);
    }
    crate::ioctl::_IOWR(MAJOR_NUM, 0, PTR_SIZE)
}

} // verus!
