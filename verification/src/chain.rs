//! The circular DMA control-block program and its sample buffer.
//!
//! The engine's steady state is a perpetual loop of DMA descriptors living
//! in one physically contiguous, cache-bypassed allocation, laid out as the
//! sample words first and the descriptors after them.  Each timeslot owns a
//! pair of descriptors: a data-copy block that moves the slot's sample word
//! to a GPIO set/clear register, and a pacing block that stalls on the
//! pacing peripheral's data request.  The last pair links back to the
//! first, so the loop runs forever without host intervention.
//!
//! The chain here is the exact in-memory image of that program, held as
//! plain values.  Every `src`, `dst` and `next` field is a bus address with
//! the cache-bypass alias applied, because the DMA engine never observes
//! the CPU's L1 cache.  The surrounding unverified layer copies the image
//! word for word into the mailbox allocation and keeps it in step after
//! every update.

use vstd::prelude::*;

verus! {

/// Default period of the PWM signal, in pulse-width units.
pub const DEFAULT_CYCLE_TIME: usize = 2000;

/// Default pulse-width increment granularity.
pub const DEFAULT_SAMPLE_DELAY: usize = 10;

/// Number of timeslots allocated at minimum, whatever the configuration:
/// retuning within this bound never needs a new allocation.
pub const NUM_SAMPLES: usize = DEFAULT_CYCLE_TIME / DEFAULT_SAMPLE_DELAY;

/// Number of control blocks allocated at minimum: one pair per timeslot.
pub const NUM_CBS: usize = NUM_SAMPLES * 2;

/// Upper bound on the timeslot count: at most one slot per pulse-width
/// unit of the longest cycle.
pub const MAX_SAMPLES: usize = DEFAULT_CYCLE_TIME;

/// Pace the loop by the PWM peripheral.
pub const DELAY_VIA_PWM: u8 = 0;

/// Pace the loop by the PCM peripheral.
pub const DELAY_VIA_PCM: u8 = 1;

pub const PAGE_SIZE: usize = 4096;

pub const PAGE_SHIFT: usize = 12;

/// Transfer flag: no 2-beat AXI bursts.
pub const DMA_NO_WIDE_BURSTS: u32 = 0x0400_0000;

/// Transfer flag: wait for the write response.
pub const DMA_WAIT_RESP: u32 = 0x8;

/// Transfer flag: gate the transfer on the peripheral's data request.
pub const DMA_D_DREQ: u32 = 0x40;

/// Control/status bit: transfer ended.
pub const DMA_END: u32 = 0x2;

/// Control/status bit: interrupt raised.
pub const DMA_INT: u32 = 0x4;

/// Control/status bit: reset the DMA channel.
pub const DMA_RESET: u32 = 0x8000_0000;

/// The peripheral number of the PWM pacing source in a transfer word.
pub const PER_MAP_PWM: u32 = 5;

/// The peripheral number of the PCM pacing source in a transfer word.
pub const PER_MAP_PCM: u32 = 2;

/// The peripheral-map field of a transfer word: peripheral `x` in bits
/// 16..21.
pub open spec fn spec_dma_per_map(x: u32) -> u32 {
    x << 16u32
}

/// Places peripheral `x` into the peripheral-map field of a transfer word.
pub fn DMA_PER_MAP(x: u32) -> (r: u32)
    ensures
        r == spec_dma_per_map(x),
{
    x << 16u32
}

/// One DMA descriptor, without its two padding words.  The engine reads
/// eight 32-bit words per descriptor; the padding is always zero.
#[derive(Clone, Copy, Debug, PartialEq, Eq, Structural)]
pub struct DmaCb {
    /// Transfer information flags.
    pub info: u32,
    /// Source bus address.
    pub src: u32,
    /// Destination bus address.
    pub dst: u32,
    /// Transfer length in bytes.
    pub length: u32,
    /// 2D stride; unused here.
    pub stride: u32,
    /// Bus address of the next descriptor.
    pub next: u32,
}

/// An all-zero descriptor: the state of the allocated-but-unlinked tail.
pub open spec fn spec_zero_cb() -> DmaCb {
    DmaCb { info: 0, src: 0, dst: 0, length: 0, stride: 0, next: 0 }
}

/// The transfer word of a data-copy block: no wide bursts, wait for the
/// write response.
pub open spec fn spec_data_info() -> u32 {
    DMA_NO_WIDE_BURSTS | DMA_WAIT_RESP
}

/// The transfer word of a pacing block: additionally gated on the data
/// request of the chosen pacing peripheral.
pub open spec fn spec_wait_info(delay_hw: u8) -> u32 {
    DMA_NO_WIDE_BURSTS | DMA_WAIT_RESP | DMA_D_DREQ | spec_dma_per_map(
        if delay_hw == DELAY_VIA_PWM {
            PER_MAP_PWM
        } else {
            PER_MAP_PCM
        },
    )
}

/// How many sample words are allocated for a loop of `n` slots: never
/// fewer than the default capacity, so the tail stays allocated but
/// unused.
pub open spec fn spec_alloc_samples(n: int) -> int {
    if n >= NUM_SAMPLES {
        n
    } else {
        NUM_SAMPLES as int
    }
}

/// Byte offset of sample word `i` inside the allocation.
pub open spec fn spec_sample_offset(i: int) -> int {
    4 * i
}

/// Byte offset of control block `j` inside the allocation: the blocks sit
/// behind all allocated sample words, 32 bytes each.
pub open spec fn spec_cb_offset(alloc: int, j: int) -> int {
    4 * alloc + 32 * j
}

/// The cache-bypassing bus address of the byte at `offset` inside the
/// allocation locked at `bus_addr`.  Writes through this alias skip the L1
/// cache, which the DMA engine does not observe.
pub open spec fn spec_uncached_bus(bus_addr: u32, offset: int) -> u32
    recommends
        bus_addr + offset <= u32::MAX,
{
    ((bus_addr + offset) as u32) | 0x4000_0000u32
}

/// The data-copy block of timeslot `i`: moves sample word `i` to the GPIO
/// register at `dst` and links to the slot's pacing block.
pub open spec fn spec_data_cb(bus_addr: u32, alloc: int, i: int, dst: u32) -> DmaCb {
    DmaCb {
        info: spec_data_info(),
        src: spec_uncached_bus(bus_addr, spec_sample_offset(i)),
        dst,
        length: 4,
        stride: 0,
        next: spec_uncached_bus(bus_addr, spec_cb_offset(alloc, 2 * i + 1)),
    }
}

/// The pacing block of timeslot `i`: stalls on the pacing peripheral's
/// data request by writing one word (any data) to its FIFO at
/// `phys_fifo`, then links to the next slot's pair — or back to block 0
/// from the last slot, closing the loop.
pub open spec fn spec_wait_cb(
    bus_addr: u32,
    alloc: int,
    i: int,
    n: int,
    delay_hw: u8,
    phys_fifo: u32,
) -> DmaCb {
    DmaCb {
        info: spec_wait_info(delay_hw),
        src: spec_uncached_bus(bus_addr, 0),
        dst: phys_fifo,
        length: 4,
        stride: 0,
        next: spec_uncached_bus(
            bus_addr,
            spec_cb_offset(
                alloc,
                if i + 1 == n {
                    0
                } else {
                    2 * i + 2
                },
            ),
        ),
    }
}

/// Number of whole pages needed for `n` timeslots' sample words and
/// control blocks.
pub open spec fn spec_num_pages(n: int) -> int {
    (spec_alloc_samples(n) * 68 + (PAGE_SIZE - 1)) / (PAGE_SIZE as int)
}

/// Computes how many whole pages the allocation for `n` timeslots needs:
/// 4 bytes per allocated sample word and 32 bytes per control block, two
/// blocks per allocated slot.
pub fn num_pages(n: usize) -> (r: usize)
    requires
        n <= MAX_SAMPLES,
    ensures
        r == spec_num_pages(n as int),
        r <= 34,
{
    let alloc: usize = if n >= NUM_SAMPLES {
        n
    } else {
        NUM_SAMPLES
    };
    let bytes: usize = alloc * 4 + alloc * 64 + (PAGE_SIZE - 1);
    proof {
        assert(bytes >> 12usize == bytes / 4096) by (bit_vector)
            requires
                bytes <= 150000,
        ;
    }
    bytes >> PAGE_SHIFT
}

/// The in-memory image of the circular program: the sample words and the
/// descriptor array, with the geometry they were built for.
pub struct ControlBlockChain {
    /// One bitmask word per allocated timeslot; only the first
    /// `num_samples` are linked into the loop.
    pub samples: Vec<u32>,
    /// The descriptor array; only the first `2 * num_samples` are linked.
    pub cbs: Vec<DmaCb>,
    /// Number of timeslots in the active loop.
    pub num_samples: usize,
    /// Bus address of the allocation the image is destined for.
    pub bus_addr: u32,
}

impl ControlBlockChain {
    /// Sample words allocated (the linked ones and the spare tail).
    pub open spec fn spec_alloc(&self) -> int {
        spec_alloc_samples(self.num_samples as int)
    }

    /// The image's geometry is consistent: the buffers have their
    /// allocated lengths, the loop is nonempty and within capacity, the
    /// whole allocation addresses fit in a bus word, and the unlinked
    /// tail is zero.
    pub open spec fn wf(&self) -> bool {
        &&& 1 <= self.num_samples <= MAX_SAMPLES
        &&& self.samples@.len() == self.spec_alloc()
        &&& self.cbs@.len() == 2 * self.spec_alloc()
        &&& self.bus_addr + 68 * self.spec_alloc() <= u32::MAX
        &&& forall|j: int|
            self.num_samples <= j < self.spec_alloc() ==> self.samples@[j] == 0u32
        &&& forall|j: int|
            2 * self.num_samples <= j < 2 * self.spec_alloc() ==> self.cbs@[j] == spec_zero_cb()
    }

    /// The descriptors of every linked slot have the built shape: slot
    /// `i`'s data-copy block moves sample `i` to `dsts[i]` and its pacing
    /// block stalls on `phys_fifo`, with the last pair wrapping to the
    /// first.
    pub open spec fn cbs_linked(&self, dsts: Seq<u32>, delay_hw: u8, phys_fifo: u32) -> bool {
        &&& forall|i: int|
            0 <= i < self.num_samples ==> #[trigger] self.cbs@[2 * i] == spec_data_cb(
                self.bus_addr,
                self.spec_alloc(),
                i,
                dsts[i],
            )
        &&& forall|i: int|
            0 <= i < self.num_samples ==> #[trigger] self.cbs@[2 * i + 1] == spec_wait_cb(
                self.bus_addr,
                self.spec_alloc(),
                i,
                self.num_samples as int,
                delay_hw,
                phys_fifo,
            )
    }

    /// Builds the image of the circular program for `num_samples` slots:
    /// every linked sample word starts at `mask` (all configured pins
    /// asserted), every data-copy block targets `dst0`, every pacing block
    /// stalls on `phys_fifo`, and the chain closes on itself.
    pub fn build(
        num_samples: usize,
        bus_addr: u32,
        delay_hw: u8,
        dst0: u32,
        phys_fifo: u32,
        mask: u32,
    ) -> (r: ControlBlockChain)
        requires
            1 <= num_samples <= MAX_SAMPLES,
            bus_addr + 68 * spec_alloc_samples(num_samples as int) <= u32::MAX,
        ensures
            r.wf(),
            r.num_samples == num_samples,
            r.bus_addr == bus_addr,
            forall|i: int| 0 <= i < num_samples ==> r.samples@[i] == mask,
            r.cbs_linked(Seq::new(num_samples as nat, |i: int| dst0), delay_hw, phys_fifo),
    {
        let alloc: usize = if num_samples >= NUM_SAMPLES {
            num_samples
        } else {
            NUM_SAMPLES
        };

        let mut samples: Vec<u32> = Vec::new();
        let mut i: usize = 0;
        while i < num_samples
            invariant
                i <= num_samples <= alloc,
                samples@.len() == i,
                forall|k: int| 0 <= k < i ==> samples@[k] == mask,
            decreases num_samples - i,
        {
            samples.push(mask);
            i = i + 1;
        }
        while i < alloc
            invariant
                num_samples <= i <= alloc,
                samples@.len() == i,
                forall|k: int| 0 <= k < num_samples ==> samples@[k] == mask,
                forall|k: int| num_samples <= k < i ==> samples@[k] == 0u32,
            decreases alloc - i,
        {
            samples.push(0);
            i = i + 1;
        }

        let mut cbs: Vec<DmaCb> = Vec::new();
        let mut s: usize = 0;
        while s < num_samples
            invariant
                s <= num_samples <= alloc <= MAX_SAMPLES,
                bus_addr + 68 * alloc <= u32::MAX,
                alloc == spec_alloc_samples(num_samples as int),
                cbs@.len() == 2 * s,
                forall|k: int|
                    0 <= k < s ==> cbs@[2 * k] == spec_data_cb(bus_addr, alloc as int, k, dst0),
                forall|k: int|
                    0 <= k < s ==> cbs@[2 * k + 1] == spec_wait_cb(
                        bus_addr,
                        alloc as int,
                        k,
                        num_samples as int,
                        delay_hw,
                        phys_fifo,
                    ),
            decreases num_samples - s,
        {
            let data_next: u32 = uncached_bus(bus_addr, cb_offset(alloc, 2 * s + 1));
            cbs.push(
                DmaCb {
                    info: data_info(),
                    src: uncached_bus(bus_addr, sample_offset(s)),
                    dst: dst0,
                    length: 4,
                    stride: 0,
                    next: data_next,
                },
            );
            let wait_next_j: usize = if s + 1 == num_samples {
                0
            } else {
                2 * s + 2
            };
            cbs.push(
                DmaCb {
                    info: wait_info(delay_hw),
                    src: uncached_bus(bus_addr, 0),
                    dst: phys_fifo,
                    length: 4,
                    stride: 0,
                    next: uncached_bus(bus_addr, cb_offset(alloc, wait_next_j)),
                },
            );
            s = s + 1;
        }
        let mut j: usize = 2 * s;
        while j < 2 * alloc
            invariant
                alloc <= MAX_SAMPLES,
                2 * num_samples <= j <= 2 * alloc,
                cbs@.len() == j,
                forall|k: int|
                    0 <= k < num_samples ==> cbs@[2 * k] == spec_data_cb(
                        bus_addr,
                        alloc as int,
                        k,
                        dst0,
                    ),
                forall|k: int|
                    0 <= k < num_samples ==> cbs@[2 * k + 1] == spec_wait_cb(
                        bus_addr,
                        alloc as int,
                        k,
                        num_samples as int,
                        delay_hw,
                        phys_fifo,
                    ),
                forall|k: int| 2 * num_samples <= k < j ==> cbs@[k] == spec_zero_cb(),
            decreases 2 * alloc - j,
        {
            cbs.push(DmaCb { info: 0, src: 0, dst: 0, length: 0, stride: 0, next: 0 });
            j = j + 1;
        }

        let r = ControlBlockChain { samples, cbs, num_samples, bus_addr };
        proof {
            assert(r.cbs_linked(
                Seq::new(num_samples as nat, |i: int| dst0),
                delay_hw,
                phys_fifo,
            ));
        }
        r
    }

    /// Rewrites sample word `i`.
    pub fn set_sample(&mut self, i: usize, w: u32)
        requires
            0 <= i < old(self).samples@.len(),
        ensures
            final(self).samples@ == old(self).samples@.update(i as int, w),
            final(self).cbs == old(self).cbs,
            final(self).num_samples == old(self).num_samples,
            final(self).bus_addr == old(self).bus_addr,
    {
        self.samples.set(i, w);
    }

    /// Retargets the data-copy block of timeslot `i` to the GPIO register
    /// at `dst`; every other descriptor field keeps its value.
    pub fn set_data_dst(&mut self, i: usize, dst: u32)
        requires
            old(self).wf(),
            i < old(self).spec_alloc(),
        ensures
            final(self).cbs@ == old(self).cbs@.update(
                2 * i as int,
                (DmaCb { dst, ..old(self).cbs@[2 * i as int] }),
            ),
            final(self).samples == old(self).samples,
            final(self).num_samples == old(self).num_samples,
            final(self).bus_addr == old(self).bus_addr,
    {
        let mut cb = self.cbs[2 * i];
        cb.dst = dst;
        self.cbs.set(2 * i, cb);
    }

    /// The bus address, cache-bypass alias applied, of the first control
    /// block: what the DMA engine's control-block-address register must be
    /// programmed with before the engine is activated.
    pub fn first_cb_bus_addr(&self) -> (r: u32)
        requires
            self.wf(),
        ensures
            r == spec_uncached_bus(self.bus_addr, spec_cb_offset(self.spec_alloc(), 0)),
    {
        let alloc: usize = if self.num_samples >= NUM_SAMPLES {
            self.num_samples
        } else {
            NUM_SAMPLES
        };
        uncached_bus(self.bus_addr, cb_offset(alloc, 0))
    }
}

/// Byte offset of sample word `i`.
fn sample_offset(i: usize) -> (r: usize)
    requires
        i <= MAX_SAMPLES,
    ensures
        r == spec_sample_offset(i as int),
{
    4 * i
}

/// Byte offset of control block `j` behind `alloc` sample words.
fn cb_offset(alloc: usize, j: usize) -> (r: usize)
    requires
        alloc <= MAX_SAMPLES,
        j <= 2 * alloc,
    ensures
        r == spec_cb_offset(alloc as int, j as int),
{
    4 * alloc + 32 * j
}

/// The cache-bypassing bus address of `offset` within the allocation.
fn uncached_bus(bus_addr: u32, offset: usize) -> (r: u32)
    requires
        bus_addr + offset <= u32::MAX,
    ensures
        r == spec_uncached_bus(bus_addr, offset as int),
{
    (bus_addr + (offset as u32)) | 0x4000_0000u32
}

/// The transfer word of a data-copy block.
fn data_info() -> (r: u32)
    ensures
        r == spec_data_info(),
{
    DMA_NO_WIDE_BURSTS | DMA_WAIT_RESP
}

/// The transfer word of a pacing block gated on the chosen peripheral.
fn wait_info(delay_hw: u8) -> (r: u32)
    ensures
        r == spec_wait_info(delay_hw),
{
    if delay_hw == DELAY_VIA_PWM {
        DMA_NO_WIDE_BURSTS | DMA_WAIT_RESP | DMA_D_DREQ | DMA_PER_MAP(PER_MAP_PWM)
    } else {
        DMA_NO_WIDE_BURSTS | DMA_WAIT_RESP | DMA_D_DREQ | DMA_PER_MAP(PER_MAP_PCM)
    }
}

} // verus!
