//! The board facade: configuration, the channel table, and the live
//! duty-cycle update protocol.
//!
//! A `BoardBuilder` validates a configuration; a `Board` holds the
//! validated configuration, the slot table that maps pins to channels, and
//! the in-memory image of the DMA program.  Every public operation keeps
//! the image exactly consistent with the table: slot 0's sample word
//! carries the bits of all currently asserted pins, and slot `j`'s word
//! carries the bits of the pins whose duty fraction is exceeded by
//! `j / num_samples`, which de-asserts each pin once its proportional
//! point in the cycle has passed.

use vstd::prelude::*;
use vstd::seq_lib::*;
use vstd::set_lib::lemma_len_subset;
use crate::bits::{bit_set, lemma_or_pin_bit, lemma_zero_has_no_bit};
use crate::chain::{
    ControlBlockChain, DELAY_VIA_PCM, DELAY_VIA_PWM, MAX_SAMPLES, NUM_SAMPLES,
    spec_alloc_samples, spec_num_pages,
};
use crate::errors::{ConfigError, RuntimeError};
use crate::fraction::{Fraction, fraction_in_range, fraction_positive, ratio_exceeds};
use crate::hwinit::RegOp;
use crate::platform::Platform;

verus! {

/// The highest addressable GPIO line, and so the channel capacity.
pub const MAX_CHANNELS: usize = 32;

/// Number of default channels.
pub const DEFAULT_NUM_CHANNELS: usize = 9;

/// Default value of the PWM clock divisor: 500 MHz / 500 = 1 MHz.
pub const DEFAULT_PWM_DIVISOR: usize = 500;

/// Whether `pin` belongs to the reserved set: lines wired to Ethernet,
/// board identification, analogue audio, HDMI hotplug detect and the SD
/// card interface.
pub open spec fn spec_banned_pin(pin: u8) -> bool {
    pin == 6 || pin == 28 || pin == 29 || pin == 30 || pin == 31 || pin == 40 || pin == 45 || pin
        == 46 || pin == 47 || pin == 48 || pin == 49 || pin == 50 || pin == 51 || pin == 52 || pin
        == 53
}

/// Whether `pin` can carry a channel: nonzero, addressable, not reserved.
pub open spec fn spec_valid_pin(pin: u8) -> bool {
    0 < pin < MAX_CHANNELS && !spec_banned_pin(pin)
}

/// Checks whether the pin belongs to the reserved set.
pub fn is_banned_pin(pin: u8) -> (r: bool)
    ensures
        r == spec_banned_pin(pin),
{
    pin == 6 || pin == 28 || pin == 29 || pin == 30 || pin == 31 || pin == 40 || pin == 45 || pin
        == 46 || pin == 47 || pin == 48 || pin == 49 || pin == 50 || pin == 51 || pin == 52 || pin
        == 53
}

/// The default pin set.
pub fn default_pins() -> (r: Vec<u8>)
    ensures
        r@ == seq![4u8, 17u8, 18u8, 27u8, 21u8, 22u8, 23u8, 24u8, 25u8],
        r@.len() == DEFAULT_NUM_CHANNELS,
{
    let mut r: Vec<u8> = Vec::new();
    r.push(4);
    r.push(17);
    r.push(18);
    r.push(27);
    r.push(21);
    r.push(22);
    r.push(23);
    r.push(24);
    r.push(25);
    proof {
        assert(r@ =~= seq![4u8, 17u8, 18u8, 27u8, 21u8, 22u8, 23u8, 24u8, 25u8]);
    }
    r
}

// ------------------------------------------------------------------
// The channel table and its sample masks.
//
// The table is a fixed array of 32 slots; a slot is free when its pin is
// the zero sentinel.  Occupied slots form a prefix, so an update pass
// costs time proportional to the active channel count.
// ------------------------------------------------------------------

/// The free-slot value.
pub open spec fn spec_free_slot() -> (u8, Fraction) {
    (0u8, Fraction { num: 0, den: 1 })
}

/// The table with every slot free: the state releasing all channels
/// leaves behind.
pub open spec fn spec_free_table() -> Seq<(u8, Fraction)> {
    Seq::new(MAX_CHANNELS as nat, |i: int| spec_free_slot())
}

/// The table with every fraction cleared and every slot assignment kept:
/// the state terminating leaves behind.
pub open spec fn spec_zero_fracs_table(t: Seq<(u8, Fraction)>) -> Seq<(u8, Fraction)> {
    Seq::new(t.len(), |i: int| (t[i].0, Fraction { num: 0, den: 1 }))
}

/// The bits of the pins among the first `k` slots that are asserted at
/// the start of a cycle: assigned, with a positive duty fraction.
pub open spec fn spec_on_mask(t: Seq<(u8, Fraction)>, k: int) -> u32
    decreases k,
{
    if k <= 0 {
        0u32
    } else if t[k - 1].0 > 0 && fraction_positive(t[k - 1].1) {
        spec_on_mask(t, k - 1) | (1u32 << (t[k - 1].0 as u32))
    } else {
        spec_on_mask(t, k - 1)
    }
}

/// The bits of the pins among the first `k` slots that de-assert by
/// timeslot `j` of an `n`-slot cycle: assigned, with a duty fraction that
/// `j / n` strictly exceeds.
pub open spec fn spec_off_mask(t: Seq<(u8, Fraction)>, k: int, j: int, n: int) -> u32
    decreases k,
{
    if k <= 0 {
        0u32
    } else if t[k - 1].0 > 0 && ratio_exceeds(t[k - 1].1, j, n) {
        spec_off_mask(t, k - 1, j, n) | (1u32 << (t[k - 1].0 as u32))
    } else {
        spec_off_mask(t, k - 1, j, n)
    }
}

/// The bits of all assigned pins among the first `k` slots.
pub open spec fn spec_assigned_mask(t: Seq<(u8, Fraction)>, k: int) -> u32
    decreases k,
{
    if k <= 0 {
        0u32
    } else if t[k - 1].0 > 0 {
        spec_assigned_mask(t, k - 1) | (1u32 << (t[k - 1].0 as u32))
    } else {
        spec_assigned_mask(t, k - 1)
    }
}

/// The sample word of timeslot `j`: the assert mask in slot 0, the
/// de-assert-by-`j` mask in every later slot.
pub open spec fn spec_sample_at(t: Seq<(u8, Fraction)>, j: int, n: int) -> u32 {
    if j == 0 {
        spec_on_mask(t, MAX_CHANNELS as int)
    } else {
        spec_off_mask(t, MAX_CHANNELS as int, j, n)
    }
}

/// Free slots contribute nothing to the assert mask.
pub proof fn lemma_on_mask_free_tail(t: Seq<(u8, Fraction)>, a: int, k: int)
    requires
        0 <= a <= k,
        forall|i: int| a <= i < k ==> (#[trigger] t[i]).0 == 0,
    ensures
        spec_on_mask(t, k) == spec_on_mask(t, a),
    decreases k - a,
{
    if a < k {
        lemma_on_mask_free_tail(t, a, k - 1);
    }
}

/// Free slots contribute nothing to a de-assert mask.
pub proof fn lemma_off_mask_free_tail(t: Seq<(u8, Fraction)>, a: int, k: int, j: int, n: int)
    requires
        0 <= a <= k,
        forall|i: int| a <= i < k ==> (#[trigger] t[i]).0 == 0,
    ensures
        spec_off_mask(t, k, j, n) == spec_off_mask(t, a, j, n),
    decreases k - a,
{
    if a < k {
        lemma_off_mask_free_tail(t, a, k - 1, j, n);
    }
}

/// Free slots contribute nothing to the assigned mask.
pub proof fn lemma_assigned_mask_free_tail(t: Seq<(u8, Fraction)>, a: int, k: int)
    requires
        0 <= a <= k,
        forall|i: int| a <= i < k ==> (#[trigger] t[i]).0 == 0,
    ensures
        spec_assigned_mask(t, k) == spec_assigned_mask(t, a),
    decreases k - a,
{
    if a < k {
        lemma_assigned_mask_free_tail(t, a, k - 1);
    }
}

/// What the assert mask contains, bit by bit: pin `p`'s bit is set
/// exactly when some slot among the first `k` holds `p` with a positive
/// fraction.
pub proof fn lemma_on_mask_bits(t: Seq<(u8, Fraction)>, k: int, p: u32)
    requires
        0 <= k <= t.len(),
        p < 32,
        forall|i: int| 0 <= i < k ==> (#[trigger] t[i]).0 < 32,
    ensures
        bit_set(spec_on_mask(t, k), p) <==> exists|i: int|
            0 <= i < k && (#[trigger] t[i]).0 == p && t[i].0 > 0 && fraction_positive(t[i].1),
    decreases k,
{
    if k <= 0 {
        lemma_zero_has_no_bit(p);
    } else {
        lemma_on_mask_bits(t, k - 1, p);
        if t[k - 1].0 > 0 && fraction_positive(t[k - 1].1) {
            lemma_or_pin_bit(spec_on_mask(t, k - 1), t[k - 1].0 as u32, p);
        }
    }
}

/// What a de-assert mask contains, bit by bit: pin `p`'s bit is set
/// exactly when some slot among the first `k` holds `p` with a fraction
/// that `j / n` strictly exceeds.
pub proof fn lemma_off_mask_bits(t: Seq<(u8, Fraction)>, k: int, j: int, n: int, p: u32)
    requires
        0 <= k <= t.len(),
        p < 32,
        forall|i: int| 0 <= i < k ==> (#[trigger] t[i]).0 < 32,
    ensures
        bit_set(spec_off_mask(t, k, j, n), p) <==> exists|i: int|
            0 <= i < k && (#[trigger] t[i]).0 == p && t[i].0 > 0 && ratio_exceeds(t[i].1, j, n),
    decreases k,
{
    if k <= 0 {
        lemma_zero_has_no_bit(p);
    } else {
        lemma_off_mask_bits(t, k - 1, j, n, p);
        if t[k - 1].0 > 0 && ratio_exceeds(t[k - 1].1, j, n) {
            lemma_or_pin_bit(spec_off_mask(t, k - 1, j, n), t[k - 1].0 as u32, p);
        }
    }
}

/// Zeroing every fraction of a table empties its assert mask.
pub proof fn lemma_on_mask_zero_fractions(t: Seq<(u8, Fraction)>, k: int)
    requires
        0 <= k,
        forall|i: int| 0 <= i < k ==> !fraction_positive((#[trigger] t[i]).1),
    ensures
        spec_on_mask(t, k) == 0u32,
    decreases k,
{
    if k > 0 {
        lemma_on_mask_zero_fractions(t, k - 1);
    }
}

/// With every fraction zero, a de-assert mask of any timeslot `j >= 1`
/// holds exactly the assigned pins: every assigned pin parks de-asserted.
pub proof fn lemma_off_mask_zero_fractions(t: Seq<(u8, Fraction)>, k: int, j: int, n: int)
    requires
        0 <= k,
        1 <= j,
        forall|i: int|
            0 <= i < k ==> (#[trigger] t[i]).1 == (Fraction { num: 0, den: 1 }),
    ensures
        spec_off_mask(t, k, j, n) == spec_assigned_mask(t, k),
    decreases k,
{
    if k > 0 {
        lemma_off_mask_zero_fractions(t, k - 1, j, n);
    }
}

// ------------------------------------------------------------------
// Configuration validation.
// ------------------------------------------------------------------

/// Validation verdict on a pin list, scanned in order: the first offending
/// pin decides the error.  A pin offends by being zero or out of range, by
/// being reserved, or by repeating an earlier pin.
pub open spec fn spec_pin_error_from(pins: Seq<u8>, i: int) -> Option<ConfigError>
    decreases pins.len() - i,
{
    if i < 0 || i >= pins.len() {
        None
    } else if pins[i] == 0 || pins[i] >= MAX_CHANNELS {
        Some(ConfigError::InvalidPin)
    } else if spec_banned_pin(pins[i]) {
        Some(ConfigError::BannedPin)
    } else if exists|j: int| 0 <= j < i && pins[j] == pins[i] {
        Some(ConfigError::InvalidPin)
    } else {
        spec_pin_error_from(pins, i + 1)
    }
}

/// Validation verdict on a whole configuration: an oversized list is
/// refused outright, otherwise the pins are scanned in order.
pub open spec fn spec_validate_pins(pins: Seq<u8>) -> Option<ConfigError> {
    if pins.len() > MAX_CHANNELS {
        Some(ConfigError::TooManyChannels)
    } else {
        spec_pin_error_from(pins, 0)
    }
}

/// A clean scan means every pin is valid and none repeats.
pub proof fn lemma_pin_scan_clean(pins: Seq<u8>, i: int)
    requires
        0 <= i <= pins.len(),
        spec_pin_error_from(pins, i) is None,
    ensures
        forall|k: int| i <= k < pins.len() ==> spec_valid_pin(#[trigger] pins[k]),
        forall|j: int, k: int| 0 <= j < k < pins.len() && i <= k ==> pins[j] != pins[k],
    decreases pins.len() - i,
{
    if i < pins.len() {
        lemma_pin_scan_clean(pins, i + 1);
    }
}

/// Conversely, a list of distinct valid pins scans clean.  Together with
/// `spec_validate_pins` this says `build_with_pins` succeeds on every pin
/// set of size at most 32 with no duplicates, no banned pin and only
/// addressable nonzero pins, and fails deterministically otherwise.
pub proof fn lemma_valid_pins_scan_clean(pins: Seq<u8>, i: int)
    requires
        0 <= i <= pins.len(),
        forall|k: int| 0 <= k < pins.len() ==> spec_valid_pin(#[trigger] pins[k]),
        forall|j: int, k: int| 0 <= j < k < pins.len() ==> pins[j] != pins[k],
    ensures
        spec_pin_error_from(pins, i) is None,
    decreases pins.len() - i,
{
    if i < pins.len() {
        lemma_valid_pins_scan_clean(pins, i + 1);
    }
}

/// Builds a [`Board`]: validates and holds the pin set, the PWM clock
/// divisor, the cycle time and the sample delay, and the choice of pacing
/// peripheral.
pub struct BoardBuilder {
    /// The configured pins.
    pub known_pins: Vec<u8>,
    /// Which peripheral paces the loop.
    pub delay_hw: u8,
    /// Divisor of the 500 MHz source clock.
    pub pwm_divisor: usize,
    /// Period of the signal, in pulse-width units.
    pub cycle_time: usize,
    /// Pulse-width increment granularity, in clock units.
    pub sample_delay: usize,
}

impl BoardBuilder {
    /// A builder's fields stay within the validated ranges.
    pub open spec fn wf(&self) -> bool {
        &&& self.known_pins@.len() <= MAX_CHANNELS
        &&& forall|i: int|
            0 <= i < self.known_pins@.len() ==> spec_valid_pin(#[trigger] self.known_pins@[i])
        &&& forall|i: int, j: int|
            0 <= i < j < self.known_pins@.len() ==> self.known_pins@[i] != self.known_pins@[j]
        &&& self.delay_hw == DELAY_VIA_PWM || self.delay_hw == DELAY_VIA_PCM
        &&& self.pwm_divisor <= 1000
        &&& 200 <= self.cycle_time <= crate::chain::DEFAULT_CYCLE_TIME
        &&& 1 <= self.sample_delay <= 100
    }

    /// A builder with the default configuration: the nine default pins,
    /// PWM pacing, divisor 500, cycle time 2000 and sample delay 10.
    pub fn new() -> (r: BoardBuilder)
        ensures
            r.wf(),
            r.known_pins@ == seq![4u8, 17u8, 18u8, 27u8, 21u8, 22u8, 23u8, 24u8, 25u8],
            r.delay_hw == DELAY_VIA_PWM,
            r.pwm_divisor == DEFAULT_PWM_DIVISOR,
            r.cycle_time == crate::chain::DEFAULT_CYCLE_TIME,
            r.sample_delay == crate::chain::DEFAULT_SAMPLE_DELAY,
    {
        BoardBuilder {
            known_pins: default_pins(),
            delay_hw: DELAY_VIA_PWM,
            pwm_divisor: DEFAULT_PWM_DIVISOR,
            cycle_time: crate::chain::DEFAULT_CYCLE_TIME,
            sample_delay: crate::chain::DEFAULT_SAMPLE_DELAY,
        }
    }

    /// Paces the loop by the PCM peripheral instead of the PWM.
    pub fn use_pcm(self) -> (r: BoardBuilder)
        ensures
            r == (BoardBuilder { delay_hw: DELAY_VIA_PCM, ..self }),
    {
        BoardBuilder { delay_hw: DELAY_VIA_PCM, ..self }
    }

    /// Sets the divisor of the 500 MHz clock, clamped to at most 1000.
    pub fn divide_pwm(self, divisor: usize) -> (r: BoardBuilder)
        ensures
            r.pwm_divisor == if divisor > 1000 {
                1000int
            } else {
                divisor as int
            },
            r.known_pins == self.known_pins,
            r.delay_hw == self.delay_hw,
            r.cycle_time == self.cycle_time,
            r.sample_delay == self.sample_delay,
    {
        if divisor > 1000 {
            BoardBuilder { pwm_divisor: 1000, ..self }
        } else {
            BoardBuilder { pwm_divisor: divisor, ..self }
        }
    }

    /// Sets the cycle time, clamped into `[200, 1000]`.
    pub fn set_cycle_time(self, units: usize) -> (r: BoardBuilder)
        ensures
            r.cycle_time == if units < 200 {
                200int
            } else if units > 1000 {
                1000int
            } else {
                units as int
            },
            r.known_pins == self.known_pins,
            r.delay_hw == self.delay_hw,
            r.pwm_divisor == self.pwm_divisor,
            r.sample_delay == self.sample_delay,
    {
        if units < 200 {
            BoardBuilder { cycle_time: 200, ..self }
        } else if units > 1000 {
            BoardBuilder { cycle_time: 1000, ..self }
        } else {
            BoardBuilder { cycle_time: units, ..self }
        }
    }

    /// Sets the sample delay, clamped into `[1, 100]`.
    pub fn set_sample_delay(self, units: usize) -> (r: BoardBuilder)
        ensures
            r.sample_delay == if units == 0 {
                1int
            } else if units > 100 {
                100int
            } else {
                units as int
            },
            r.known_pins == self.known_pins,
            r.delay_hw == self.delay_hw,
            r.pwm_divisor == self.pwm_divisor,
            r.cycle_time == self.cycle_time,
    {
        if units == 0 {
            BoardBuilder { sample_delay: 1, ..self }
        } else if units > 100 {
            BoardBuilder { sample_delay: 100, ..self }
        } else {
            BoardBuilder { sample_delay: units, ..self }
        }
    }

    /// The number of timeslots this configuration yields.
    pub fn num_samples(&self) -> (r: usize)
        requires
            self.wf(),
        ensures
            r == self.cycle_time as int / self.sample_delay as int,
            2 <= r <= MAX_SAMPLES,
    {
        proof {
            assert(2 <= self.cycle_time as int / self.sample_delay as int <= 2000)
                by (nonlinear_arith)
                requires
                    1 <= self.sample_delay <= 100,
                    200 <= self.cycle_time <= 2000,
            ;
        }
        self.cycle_time / self.sample_delay
    }

    /// Builds the board from this configuration, the decoded platform
    /// parameters, and the bus address of the locked allocation.  The
    /// pins in the builder are already validated, so building cannot
    /// fail; the board starts idle, with no channel assigned.
    pub fn build(&self, platform: Platform, bus_addr: u32) -> (r: Board)
        requires
            self.wf(),
            platform.periph_phys_base <= 0xf0000000,
            platform.periph_virt_base <= 0xf0000000,
            bus_addr + 68 * spec_alloc_samples(
                self.cycle_time as int / self.sample_delay as int,
            ) <= u32::MAX,
        ensures
            r.wf(),
            r.known_pins@ == self.known_pins@,
            r.delay_hw == self.delay_hw,
            r.pwm_divisor == self.pwm_divisor,
            r.cycle_time == self.cycle_time,
            r.sample_delay == self.sample_delay,
            r.num_samples == self.cycle_time as int / self.sample_delay as int,
            r.platform == platform,
            r.bus_addr == bus_addr,
            r.num_active == 0,
            r.invert_mode == false,
            r.spec_table() == spec_free_table(),
    {
        let mut pins: Vec<u8> = Vec::new();
        let mut i: usize = 0;
        while i < self.known_pins.len()
            invariant
                i <= self.known_pins@.len(),
                pins@ =~= self.known_pins@.subrange(0, i as int),
            decreases self.known_pins@.len() - i,
        {
            pins.push(self.known_pins[i]);
            i = i + 1;
        }
        proof {
            assert(pins@ =~= self.known_pins@);
        }
        Board::new(
            self.delay_hw,
            pins,
            self.pwm_divisor,
            self.cycle_time,
            self.sample_delay,
            platform,
            bus_addr,
        )
    }

    /// Validates a caller-supplied pin list and builds the board with it.
    /// The first offending pin decides the error, as in [`Self::with_pins`];
    /// a valid list of at most the channel capacity always builds.
    pub fn build_with_pins(self, pins: Vec<u8>, platform: Platform, bus_addr: u32) -> (r: Result<
        Board,
        ConfigError,
    >)
        requires
            self.wf(),
            platform.periph_phys_base <= 0xf0000000,
            platform.periph_virt_base <= 0xf0000000,
            bus_addr + 68 * spec_alloc_samples(
                self.cycle_time as int / self.sample_delay as int,
            ) <= u32::MAX,
        ensures
            r is Ok <==> spec_validate_pins(pins@) is None,
            r is Err ==> Some(r->Err_0) == spec_validate_pins(pins@),
            r is Ok ==> r->Ok_0.wf() && r->Ok_0.known_pins@ == pins@ && r->Ok_0.delay_hw
                == self.delay_hw && r->Ok_0.pwm_divisor == self.pwm_divisor && r->Ok_0.cycle_time
                == self.cycle_time && r->Ok_0.sample_delay == self.sample_delay
                && r->Ok_0.platform == platform && r->Ok_0.bus_addr == bus_addr
                && r->Ok_0.num_active == 0 && r->Ok_0.spec_table() == spec_free_table(),
    {
        match self.with_pins(pins) {
            Ok(builder) => Ok(builder.build(platform, bus_addr)),
            Err(e) => Err(e),
        }
    }

    /// Validates a caller-supplied pin list, replacing the default set.
    /// The first offending pin decides the error: `InvalidPin` for a zero,
    /// out-of-range or repeated pin, `BannedPin` for a reserved one, and
    /// `TooManyChannels` when the list exceeds the channel capacity.
    pub fn with_pins(self, pins: Vec<u8>) -> (r: Result<BoardBuilder, ConfigError>)
        requires
            self.wf(),
        ensures
            r is Ok <==> spec_validate_pins(pins@) is None,
            r is Err ==> Some(r->Err_0) == spec_validate_pins(pins@),
            r is Ok ==> r->Ok_0 == (BoardBuilder { known_pins: pins, ..self }) && r->Ok_0.wf(),
    {
        if pins.len() > MAX_CHANNELS {
            return Err(ConfigError::TooManyChannels);
        }
        let mut i: usize = 0;
        while i < pins.len()
            invariant
                i <= pins@.len() <= MAX_CHANNELS,
                forall|k: int| 0 <= k < i ==> spec_valid_pin(#[trigger] pins@[k]),
                forall|j: int, k: int| 0 <= j < k < i ==> pins@[j] != pins@[k],
                spec_pin_error_from(pins@, 0) == spec_pin_error_from(pins@, i as int),
            decreases pins@.len() - i,
        {
            let pin = pins[i];
            if pin == 0 || pin >= MAX_CHANNELS as u8 {
                return Err(ConfigError::InvalidPin);
            }
            if is_banned_pin(pin) {
                return Err(ConfigError::BannedPin);
            }
            let mut j: usize = 0;
            while j < i
                invariant
                    j <= i < pins@.len() <= MAX_CHANNELS,
                    pin == pins@[i as int],
                    spec_valid_pin(pin),
                    spec_pin_error_from(pins@, 0) == spec_pin_error_from(pins@, i as int),
                    forall|k: int| 0 <= k < j ==> pins@[k] != pins@[i as int],
                decreases i - j,
            {
                if pins[j] == pin {
                    return Err(ConfigError::InvalidPin);
                }
                j = j + 1;
            }
            i = i + 1;
        }
        Ok(BoardBuilder { known_pins: pins, ..self })
    }
}

// ------------------------------------------------------------------
// The board.
// ------------------------------------------------------------------

/// The engine's state: the validated configuration, the channel slot
/// table, and the image of the DMA program kept consistent with it.
pub struct Board {
    /// The configured pins.
    pub known_pins: Vec<u8>,
    /// Which peripheral paces the loop.
    pub delay_hw: u8,
    /// Divisor of the 500 MHz source clock.
    pub pwm_divisor: usize,
    /// Period of the signal, in pulse-width units.
    pub cycle_time: usize,
    /// Pulse-width increment granularity, in clock units.
    pub sample_delay: usize,
    /// Number of timeslots: `cycle_time / sample_delay`.
    pub num_samples: usize,
    /// Pages of physically contiguous memory the program needs.
    pub num_pages: usize,
    /// Peripheral bases and allocation flags of the running board.
    pub platform: Platform,
    /// Bus address of the allocation holding the program.
    pub bus_addr: u32,
    /// Slot table: the pin of each channel slot, zero when free.
    pub pin2gpio: Vec<u8>,
    /// Slot table: the duty fraction of each channel slot.
    pub channel_pwm: Vec<Fraction>,
    /// Occupied slots form the prefix `0 .. num_active`.
    pub num_active: usize,
    /// Whether assert and de-assert registers are swapped system-wide.
    pub invert_mode: bool,
    /// The in-memory image of the circular DMA program.
    pub chain: ControlBlockChain,
}

impl Board {
    /// The slot table as one sequence of (pin, fraction) pairs.
    pub open spec fn spec_table(&self) -> Seq<(u8, Fraction)> {
        Seq::new(MAX_CHANNELS as nat, |i: int| (self.pin2gpio@[i], self.channel_pwm@[i]))
    }

    /// Physical address of the GPIO clear register.
    pub open spec fn spec_gpclr0(&self) -> u32 {
        (self.platform.periph_phys_base + 0x200028) as u32
    }

    /// Physical address of the GPIO set register.
    pub open spec fn spec_gpset0(&self) -> u32 {
        (self.platform.periph_phys_base + 0x20001c) as u32
    }

    /// Physical address of the pacing peripheral's FIFO register.
    pub open spec fn spec_fifo(&self) -> u32 {
        if self.delay_hw == DELAY_VIA_PWM {
            (self.platform.periph_phys_base + 0x20c018) as u32
        } else {
            (self.platform.periph_phys_base + 0x203004) as u32
        }
    }

    /// The register a data-copy block must target: slot 0 asserts the
    /// active pins, every later slot de-asserts; invert mode swaps the
    /// two registers system-wide.
    pub open spec fn spec_dst_at(&self, j: int) -> u32 {
        if j == 0 {
            if self.invert_mode {
                self.spec_gpclr0()
            } else {
                self.spec_gpset0()
            }
        } else {
            if self.invert_mode {
                self.spec_gpset0()
            } else {
                self.spec_gpclr0()
            }
        }
    }

    /// The registers the data-copy blocks actually target.
    pub open spec fn spec_actual_dsts(&self) -> Seq<u32> {
        Seq::new(self.num_samples as nat, |i: int| self.chain.cbs@[2 * i].dst)
    }

    /// The pins of the occupied slots, in slot order.
    pub open spec fn spec_active_pins(&self) -> Seq<u8> {
        Seq::new(self.num_active as nat, |s: int| self.pin2gpio@[s])
    }

    /// Structural well-formedness: everything except the two clauses that
    /// a pending recompute restores.
    pub open spec fn wf_core(&self) -> bool {
        &&& self.known_pins@.len() <= MAX_CHANNELS
        &&& forall|i: int|
            0 <= i < self.known_pins@.len() ==> spec_valid_pin(#[trigger] self.known_pins@[i])
        &&& forall|i: int, j: int|
            0 <= i < j < self.known_pins@.len() ==> self.known_pins@[i] != self.known_pins@[j]
        &&& self.delay_hw == DELAY_VIA_PWM || self.delay_hw == DELAY_VIA_PCM
        &&& self.pwm_divisor <= 1000
        &&& 200 <= self.cycle_time <= crate::chain::DEFAULT_CYCLE_TIME
        &&& 1 <= self.sample_delay <= 100
        &&& self.num_samples == self.cycle_time as int / self.sample_delay as int
        &&& self.num_pages == spec_num_pages(self.num_samples as int)
        &&& self.platform.periph_phys_base <= 0xf0000000
        &&& self.platform.periph_virt_base <= 0xf0000000
        &&& self.pin2gpio@.len() == MAX_CHANNELS
        &&& self.channel_pwm@.len() == MAX_CHANNELS
        &&& self.num_active <= self.known_pins@.len()
        &&& forall|i: int|
            0 <= i < self.num_active ==> 0 < #[trigger] self.pin2gpio@[i] < MAX_CHANNELS
        &&& forall|i: int|
            0 <= i < self.num_active ==> self.known_pins@.contains(#[trigger] self.pin2gpio@[i])
        &&& forall|i: int|
            0 <= i < self.num_active ==> fraction_in_range(#[trigger] self.channel_pwm@[i])
        &&& forall|i: int|
            self.num_active <= i < MAX_CHANNELS ==> #[trigger] self.pin2gpio@[i] == 0
        &&& forall|i: int|
            self.num_active <= i < MAX_CHANNELS ==> #[trigger] self.channel_pwm@[i] == (Fraction {
                num: 0,
                den: 1,
            })
        &&& forall|a: int, b: int|
            0 <= a < b < self.num_active ==> self.pin2gpio@[a] != self.pin2gpio@[b]
        &&& self.chain.wf()
        &&& self.chain.num_samples == self.num_samples
        &&& self.chain.bus_addr == self.bus_addr
        &&& self.chain.cbs_linked(self.spec_actual_dsts(), self.delay_hw, self.spec_fifo())
    }

    /// Every linked sample word is the recompute of the current table.
    pub open spec fn samples_consistent(&self) -> bool {
        forall|j: int|
            0 <= j < self.num_samples ==> #[trigger] self.chain.samples@[j] == spec_sample_at(
                self.spec_table(),
                j,
                self.num_samples as int,
            )
    }

    /// Every data-copy block targets the register its slot and the
    /// invert mode demand.
    pub open spec fn dsts_consistent(&self) -> bool {
        forall|j: int|
            0 <= j < self.num_samples ==> (#[trigger] self.chain.cbs@[2 * j]).dst
                == self.spec_dst_at(j)
    }

    /// Full well-formedness: the image agrees with the table.
    pub open spec fn wf(&self) -> bool {
        self.wf_core() && self.samples_consistent() && self.dsts_consistent()
    }

    /// Physical address of the GPIO clear register.
    fn phys_gpclr0(&self) -> (r: u32)
        requires
            self.platform.periph_phys_base <= 0xf0000000,
        ensures
            r == self.spec_gpclr0(),
    {
        self.platform.periph_phys_base + 0x200028
    }

    /// Physical address of the GPIO set register.
    fn phys_gpset0(&self) -> (r: u32)
        requires
            self.platform.periph_phys_base <= 0xf0000000,
        ensures
            r == self.spec_gpset0(),
    {
        self.platform.periph_phys_base + 0x20001c
    }

    /// Physical address of the pacing peripheral's FIFO register.
    fn phys_fifo(&self) -> (r: u32)
        requires
            self.platform.periph_phys_base <= 0xf0000000,
        ensures
            r == self.spec_fifo(),
    {
        if self.delay_hw == DELAY_VIA_PWM {
            self.platform.periph_phys_base + 0x20c018
        } else {
            self.platform.periph_phys_base + 0x203004
        }
    }

    /// Recomputes the sample buffer and the data-block targets in place,
    /// slot by slot, exactly as the live update protocol does while the
    /// DMA engine keeps cycling: each word write is atomic at bus
    /// granularity, so a concurrent reader sees at worst the previous
    /// cycle's value, never a torn word.
    fn update_pwm(&mut self)
        requires
            old(self).wf_core(),
        ensures
            final(self).wf(),
            final(self).known_pins == old(self).known_pins,
            final(self).delay_hw == old(self).delay_hw,
            final(self).pwm_divisor == old(self).pwm_divisor,
            final(self).cycle_time == old(self).cycle_time,
            final(self).sample_delay == old(self).sample_delay,
            final(self).num_samples == old(self).num_samples,
            final(self).num_pages == old(self).num_pages,
            final(self).platform == old(self).platform,
            final(self).bus_addr == old(self).bus_addr,
            final(self).pin2gpio == old(self).pin2gpio,
            final(self).channel_pwm == old(self).channel_pwm,
            final(self).num_active == old(self).num_active,
            final(self).invert_mode == old(self).invert_mode,
    {
        let n = self.num_samples;
        let set0 = self.phys_gpset0();
        let clr0 = self.phys_gpclr0();

        // Slot 0 asserts: retarget its block, then write the mask of all
        // channels that hold a positive fraction.
        let d0: u32 = if self.invert_mode {
            clr0
        } else {
            set0
        };
        self.chain.set_data_dst(0, d0);

        let mut mask: u32 = 0;
        let mut i: usize = 0;
        while i < self.num_active
            invariant
                i <= self.num_active <= MAX_CHANNELS,
                self.pin2gpio@.len() == MAX_CHANNELS,
                self.channel_pwm@.len() == MAX_CHANNELS,
                forall|k: int|
                    0 <= k < self.num_active ==> 0 < #[trigger] self.pin2gpio@[k] < MAX_CHANNELS,
                mask == spec_on_mask(self.spec_table(), i as int),
            decreases self.num_active - i,
        {
            let pin = self.pin2gpio[i];
            if pin > 0 && self.channel_pwm[i].positive() {
                mask = mask | (1u32 << (pin as u32));
            }
            i = i + 1;
        }
        proof {
            lemma_on_mask_free_tail(
                self.spec_table(),
                self.num_active as int,
                MAX_CHANNELS as int,
            );
        }
        self.chain.set_sample(0, mask);

        // Every later slot de-asserts: retarget its block, then write the
        // mask of the channels whose proportional point has passed.
        let dj: u32 = if self.invert_mode {
            set0
        } else {
            clr0
        };
        let mut j: usize = 1;
        while j < n
            invariant
                1 <= j <= n,
                n == self.num_samples,
                self.wf_core(),
                self.known_pins == old(self).known_pins,
                self.delay_hw == old(self).delay_hw,
                self.pwm_divisor == old(self).pwm_divisor,
                self.cycle_time == old(self).cycle_time,
                self.sample_delay == old(self).sample_delay,
                self.num_samples == old(self).num_samples,
                self.num_pages == old(self).num_pages,
                self.platform == old(self).platform,
                self.bus_addr == old(self).bus_addr,
                self.pin2gpio == old(self).pin2gpio,
                self.channel_pwm == old(self).channel_pwm,
                self.num_active == old(self).num_active,
                self.invert_mode == old(self).invert_mode,
                dj == if self.invert_mode {
                    self.spec_gpset0()
                } else {
                    self.spec_gpclr0()
                },
                self.chain.samples@[0] == spec_sample_at(
                    self.spec_table(),
                    0,
                    self.num_samples as int,
                ),
                self.chain.cbs@[0].dst == self.spec_dst_at(0),
                forall|k: int|
                    1 <= k < j ==> #[trigger] self.chain.samples@[k] == spec_sample_at(
                        self.spec_table(),
                        k,
                        self.num_samples as int,
                    ),
                forall|k: int|
                    1 <= k < j ==> #[trigger] self.chain.cbs@[2 * k].dst == self.spec_dst_at(k),
            decreases n - j,
        {
            self.chain.set_data_dst(j, dj);
            let mut mask: u32 = 0;
            let mut i: usize = 0;
            while i < self.num_active
                invariant
                    i <= self.num_active <= MAX_CHANNELS,
                    1 <= j < n <= MAX_SAMPLES,
                    self.pin2gpio@.len() == MAX_CHANNELS,
                    self.channel_pwm@.len() == MAX_CHANNELS,
                    forall|k: int|
                        0 <= k < self.num_active ==> 0 < #[trigger] self.pin2gpio@[k]
                            < MAX_CHANNELS,
                    mask == spec_off_mask(self.spec_table(), i as int, j as int, n as int),
                decreases self.num_active - i,
            {
                let pin = self.pin2gpio[i];
                if pin > 0 && self.channel_pwm[i].exceeded_by(j, n) {
                    mask = mask | (1u32 << (pin as u32));
                }
                i = i + 1;
            }
            proof {
                lemma_off_mask_free_tail(
                    self.spec_table(),
                    self.num_active as int,
                    MAX_CHANNELS as int,
                    j as int,
                    n as int,
                );
            }
            self.chain.set_sample(j, mask);
            j = j + 1;
        }
    }
}

impl Board {
    /// Assembles a board from a validated configuration, the decoded
    /// platform, and the bus address of the locked allocation.  The board
    /// starts with no channel assigned, every sample word zero, and the
    /// program image fully linked.
    pub fn new(
        delay_hw: u8,
        known_pins: Vec<u8>,
        pwm_divisor: usize,
        cycle_time: usize,
        sample_delay: usize,
        platform: Platform,
        bus_addr: u32,
    ) -> (r: Board)
        requires
            known_pins@.len() <= MAX_CHANNELS,
            forall|i: int| 0 <= i < known_pins@.len() ==> spec_valid_pin(#[trigger] known_pins@[i]),
            forall|i: int, j: int|
                0 <= i < j < known_pins@.len() ==> known_pins@[i] != known_pins@[j],
            delay_hw == DELAY_VIA_PWM || delay_hw == DELAY_VIA_PCM,
            pwm_divisor <= 1000,
            200 <= cycle_time <= crate::chain::DEFAULT_CYCLE_TIME,
            1 <= sample_delay <= 100,
            platform.periph_phys_base <= 0xf0000000,
            platform.periph_virt_base <= 0xf0000000,
            bus_addr + 68 * spec_alloc_samples(
                cycle_time as int / sample_delay as int,
            ) <= u32::MAX,
        ensures
            r.wf(),
            r.known_pins == known_pins,
            r.delay_hw == delay_hw,
            r.pwm_divisor == pwm_divisor,
            r.cycle_time == cycle_time,
            r.sample_delay == sample_delay,
            r.num_samples == cycle_time as int / sample_delay as int,
            r.num_pages == spec_num_pages(r.num_samples as int),
            r.platform == platform,
            r.bus_addr == bus_addr,
            r.num_active == 0,
            r.invert_mode == false,
            r.spec_table() == spec_free_table(),
    {
        let num_samples = cycle_time / sample_delay;
        proof {
            assert(2 <= cycle_time as int / sample_delay as int <= 2000) by (nonlinear_arith)
                requires
                    1 <= sample_delay <= 100,
                    200 <= cycle_time <= 2000,
            ;
        }
        let num_pages = crate::chain::num_pages(num_samples);

        // The initial image asserts every configured pin in every slot;
        // the first recompute below settles it to the idle state.
        let mut mask: u32 = 0;
        let mut i: usize = 0;
        while i < known_pins.len()
            invariant
                i <= known_pins@.len(),
                forall|k: int|
                    0 <= k < known_pins@.len() ==> spec_valid_pin(#[trigger] known_pins@[k]),
            decreases known_pins@.len() - i,
        {
            mask = mask | (1u32 << (known_pins[i] as u32));
            i = i + 1;
        }

        let gpclr0: u32 = platform.periph_phys_base + 0x200028;
        let phys_fifo: u32 = if delay_hw == DELAY_VIA_PWM {
            platform.periph_phys_base + 0x20c018
        } else {
            platform.periph_phys_base + 0x203004
        };
        let chain = ControlBlockChain::build(
            num_samples,
            bus_addr,
            delay_hw,
            gpclr0,
            phys_fifo,
            mask,
        );

        let mut board = Board {
            known_pins,
            delay_hw,
            pwm_divisor,
            cycle_time,
            sample_delay,
            num_samples,
            num_pages,
            platform,
            bus_addr,
            pin2gpio: free_pin_slots(),
            channel_pwm: free_fraction_slots(),
            num_active: 0,
            invert_mode: false,
            chain,
        };
        proof {
            assert(board.spec_actual_dsts() =~= Seq::new(
                num_samples as nat,
                |i: int| gpclr0,
            ));
            assert(board.wf_core());
            assert(board.spec_table() =~= spec_free_table());
        }
        board.update_pwm();
        board
    }

    /// Whether `pin` belongs to the configured pin set.
    pub fn is_known_pin(&self, pin: u8) -> (r: bool)
        ensures
            r == self.known_pins@.contains(pin),
    {
        let mut i: usize = 0;
        while i < self.known_pins.len()
            invariant
                i <= self.known_pins@.len(),
                forall|k: int| 0 <= k < i ==> self.known_pins@[k] != pin,
            decreases self.known_pins@.len() - i,
        {
            if self.known_pins[i] == pin {
                return true;
            }
            i = i + 1;
        }
        false
    }

    /// Whether `pin` belongs to the reserved set.
    pub fn is_banned_pin(&self, pin: u8) -> (r: bool)
        ensures
            r == spec_banned_pin(pin),
    {
        is_banned_pin(pin)
    }

    /// Resolves a known pin to its channel slot — the first free slot on
    /// first use — and records the fraction.  No recompute here.
    fn set_channel(&mut self, pin: u8, width: Fraction)
        requires
            old(self).wf_core(),
            old(self).known_pins@.contains(pin),
            fraction_in_range(width),
        ensures
            final(self).wf_core(),
            final(self).known_pins == old(self).known_pins,
            final(self).delay_hw == old(self).delay_hw,
            final(self).pwm_divisor == old(self).pwm_divisor,
            final(self).cycle_time == old(self).cycle_time,
            final(self).sample_delay == old(self).sample_delay,
            final(self).num_samples == old(self).num_samples,
            final(self).num_pages == old(self).num_pages,
            final(self).platform == old(self).platform,
            final(self).bus_addr == old(self).bus_addr,
            final(self).invert_mode == old(self).invert_mode,
            final(self).chain == old(self).chain,
            (exists|s: int| 0 <= s < old(self).num_active && old(self).pin2gpio@[s] == pin)
                ==> final(self).pin2gpio == old(self).pin2gpio
                && final(self).num_active == old(self).num_active,
            forall|s: int| 0 <= s < old(self).num_active && old(self).pin2gpio@[s] == pin
                ==> final(self).channel_pwm@ == old(self).channel_pwm@.update(s, width),
            !(exists|s: int| 0 <= s < old(self).num_active && old(self).pin2gpio@[s] == pin)
                ==> final(self).pin2gpio@
                == old(self).pin2gpio@.update(old(self).num_active as int, pin)
                && final(self).channel_pwm@
                == old(self).channel_pwm@.update(old(self).num_active as int, width)
                && final(self).num_active == old(self).num_active + 1,
    {
        let mut i: usize = 0;
        while i < self.num_active
            invariant
                old(self).wf_core(),
                old(self).known_pins@.contains(pin),
                fraction_in_range(width),
                i <= self.num_active <= MAX_CHANNELS,
                forall|k: int| 0 <= k < i ==> self.pin2gpio@[k] != pin,
                *self == *old(self),
            decreases self.num_active - i,
        {
            if self.pin2gpio[i] == pin {
                self.channel_pwm.set(i, width);
                return ;
            }
            i = i + 1;
        }

        // The pin is known but not yet assigned; a free slot must exist,
        // because the occupied slots hold distinct known pins other than
        // this one.
        proof {
            broadcast use vstd::seq_lib::seq_to_set_is_finite;

            let active = Seq::new(
                self.num_active as nat,
                |k: int| self.pin2gpio@[k],
            );
            assert(active.no_duplicates());
            active.unique_seq_to_set();
            let known = self.known_pins@;
            assert(known.no_duplicates());
            known.unique_seq_to_set();
            let others = known.to_set().remove(pin);
            assert forall|x: u8| active.to_set().contains(x) implies others.contains(x) by {
                let k = choose|k: int| 0 <= k < active.len() && active[k] == x;
                assert(self.known_pins@.contains(self.pin2gpio@[k]));
            }
            lemma_len_subset(active.to_set(), others);
            assert(known.to_set().contains(pin));
            assert(others.len() == known.to_set().len() - 1);
            assert(self.num_active < self.known_pins@.len());
        }
        let slot = self.num_active;
        self.pin2gpio.set(slot, pin);
        self.channel_pwm.set(slot, width);
        self.num_active = slot + 1;
    }

    /// Sets a pin's duty fraction and recomputes the program in place.
    /// Fails with `UnknownChannel` when the pin is not configured and with
    /// `FractionOutOfRange` when the fraction lies outside the unit
    /// interval; a failed call changes nothing.
    pub fn set_pwm(&mut self, pin: u8, width: Fraction) -> (r: Result<(), RuntimeError>)
        requires
            old(self).wf_core(),
        ensures
            r is Ok <==> old(self).known_pins@.contains(pin) && fraction_in_range(width),
            r is Err ==> *final(self) == *old(self),
            r == Err::<(), RuntimeError>(RuntimeError::UnknownChannel)
                <==> !old(self).known_pins@.contains(pin),
            r == Err::<(), RuntimeError>(RuntimeError::FractionOutOfRange)
                <==> old(self).known_pins@.contains(pin) && !fraction_in_range(width),
            r is Ok ==> final(self).wf(),
            r is Ok ==> final(self).known_pins == old(self).known_pins
                && final(self).delay_hw == old(self).delay_hw
                && final(self).pwm_divisor == old(self).pwm_divisor
                && final(self).cycle_time == old(self).cycle_time
                && final(self).sample_delay == old(self).sample_delay
                && final(self).num_samples == old(self).num_samples
                && final(self).num_pages == old(self).num_pages
                && final(self).platform == old(self).platform
                && final(self).bus_addr == old(self).bus_addr
                && final(self).invert_mode == old(self).invert_mode,
            r is Ok && (exists|s: int|
                0 <= s < old(self).num_active && old(self).pin2gpio@[s] == pin)
                ==> final(self).pin2gpio == old(self).pin2gpio
                && final(self).num_active == old(self).num_active,
            r is Ok ==> forall|s: int|
                0 <= s < old(self).num_active && old(self).pin2gpio@[s] == pin
                    ==> final(self).channel_pwm@ == old(self).channel_pwm@.update(s, width),
            r is Ok && !(exists|s: int|
                0 <= s < old(self).num_active && old(self).pin2gpio@[s] == pin)
                ==> final(self).pin2gpio@
                == old(self).pin2gpio@.update(old(self).num_active as int, pin)
                && final(self).channel_pwm@
                == old(self).channel_pwm@.update(old(self).num_active as int, width)
                && final(self).num_active == old(self).num_active + 1,
    {
        if !self.is_known_pin(pin) {
            return Err(RuntimeError::UnknownChannel);
        }
        if !width.in_range() {
            return Err(RuntimeError::FractionOutOfRange);
        }
        self.set_channel(pin, width);
        self.update_pwm();
        Ok(())
    }
}

/// The slot table after removing the channel at slot `s` of an
/// `na`-slot active prefix: later channels move one slot down, the last
/// active slot becomes free.  Compaction keeps recompute cost
/// proportional to the active-channel count.
pub open spec fn spec_compact_pins(t: Seq<u8>, s: int, na: int) -> Seq<u8> {
    Seq::new(
        t.len(),
        |k: int|
            if s <= k < na - 1 {
                t[k + 1]
            } else if k == na - 1 {
                0u8
            } else {
                t[k]
            },
    )
}

/// The fraction column of the same compaction.
pub open spec fn spec_compact_fracs(t: Seq<Fraction>, s: int, na: int) -> Seq<Fraction> {
    Seq::new(
        t.len(),
        |k: int|
            if s <= k < na - 1 {
                t[k + 1]
            } else if k == na - 1 {
                Fraction { num: 0, den: 1 }
            } else {
                t[k]
            },
    )
}

impl Board {
    /// Gives every configured pin the one fraction, with a single
    /// recompute pass.  Fails with `FractionOutOfRange`, changing
    /// nothing, when the fraction lies outside the unit interval; every
    /// configured pin is a known channel, so no other error can occur.
    pub fn set_all_pwm(&mut self, width: Fraction) -> (r: Result<(), RuntimeError>)
        requires
            old(self).wf_core(),
        ensures
            r is Ok <==> fraction_in_range(width),
            r is Err ==> *final(self) == *old(self) && r->Err_0
                == RuntimeError::FractionOutOfRange,
            r is Ok ==> final(self).wf(),
            r is Ok ==> final(self).known_pins == old(self).known_pins
                && final(self).delay_hw == old(self).delay_hw
                && final(self).pwm_divisor == old(self).pwm_divisor
                && final(self).cycle_time == old(self).cycle_time
                && final(self).sample_delay == old(self).sample_delay
                && final(self).num_samples == old(self).num_samples
                && final(self).num_pages == old(self).num_pages
                && final(self).platform == old(self).platform
                && final(self).bus_addr == old(self).bus_addr
                && final(self).invert_mode == old(self).invert_mode,
            r is Ok ==> final(self).num_active == old(self).known_pins@.len(),
            r is Ok ==> forall|s: int|
                0 <= s < final(self).num_active ==> #[trigger] final(self).channel_pwm@[s]
                    == width,
            r is Ok ==> forall|s: int|
                0 <= s < old(self).num_active ==> #[trigger] final(self).pin2gpio@[s] == old(self).pin2gpio@[s],
            r is Ok ==> forall|k: int|
                0 <= k < old(self).known_pins@.len() ==> final(self).spec_active_pins().contains(
                    #[trigger] old(self).known_pins@[k],
                ),
    {
        if !width.in_range() {
            return Err(RuntimeError::FractionOutOfRange);
        }
        let mut k: usize = 0;
        while k < self.known_pins.len()
            invariant
                old(self).wf_core(),
                fraction_in_range(width),
                k <= self.known_pins@.len(),
                self.wf_core(),
                self.known_pins == old(self).known_pins,
                self.delay_hw == old(self).delay_hw,
                self.pwm_divisor == old(self).pwm_divisor,
                self.cycle_time == old(self).cycle_time,
                self.sample_delay == old(self).sample_delay,
                self.num_samples == old(self).num_samples,
                self.num_pages == old(self).num_pages,
                self.platform == old(self).platform,
                self.bus_addr == old(self).bus_addr,
                self.invert_mode == old(self).invert_mode,
                self.chain == old(self).chain,
                old(self).num_active <= self.num_active,
                forall|s: int|
                    0 <= s < old(self).num_active ==> #[trigger] self.pin2gpio@[s] == old(self).pin2gpio@[s],
                forall|j: int|
                    0 <= j < k ==> self.spec_active_pins().contains(
                        #[trigger] self.known_pins@[j],
                    ),
                forall|s: int, j: int|
                    0 <= s < self.num_active && 0 <= j < k && #[trigger] self.pin2gpio@[s]
                        == #[trigger] self.known_pins@[j] ==> self.channel_pwm@[s] == width,
            decreases self.known_pins@.len() - k,
        {
            let ghost prev = *self;
            let pin = self.known_pins[k];
            self.set_channel(pin, width);
            proof {
                assert forall|j: int| 0 <= j < k + 1 implies self.spec_active_pins().contains(
                    #[trigger] self.known_pins@[j],
                ) by {
                    if j == k as int {
                        if exists|s0: int|
                            0 <= s0 < prev.num_active && prev.pin2gpio@[s0] == pin {
                            let s0 = choose|s0: int|
                                0 <= s0 < prev.num_active && prev.pin2gpio@[s0] == pin;
                            assert(self.spec_active_pins()[s0] == self.known_pins@[j]);
                        } else {
                            assert(self.spec_active_pins()[prev.num_active as int]
                                == self.known_pins@[j]);
                        }
                    } else {
                        assert(prev.spec_active_pins().contains(prev.known_pins@[j]));
                        let s0 = choose|s0: int|
                            0 <= s0 < prev.spec_active_pins().len()
                                && prev.spec_active_pins()[s0] == prev.known_pins@[j];
                        assert(self.spec_active_pins()[s0] == self.known_pins@[j]);
                    }
                }
            }
            k = k + 1;
        }
        proof {
            broadcast use vstd::seq_lib::seq_to_set_is_finite;

            let active = self.spec_active_pins();
            assert(active.no_duplicates());
            active.unique_seq_to_set();
            let known = self.known_pins@;
            assert(known.no_duplicates());
            known.unique_seq_to_set();
            assert forall|x: u8| active.to_set().contains(x) implies known.to_set().contains(
                x,
            ) by {
                let s = choose|s: int| 0 <= s < active.len() && active[s] == x;
                assert(self.known_pins@.contains(self.pin2gpio@[s]));
            }
            assert forall|x: u8| known.to_set().contains(x) implies active.to_set().contains(
                x,
            ) by {
                let j = choose|j: int| 0 <= j < known.len() && known[j] == x;
                assert(active.contains(known[j]));
            }
            lemma_len_subset(active.to_set(), known.to_set());
            lemma_len_subset(known.to_set(), active.to_set());
            assert(self.num_active == self.known_pins@.len());
            assert forall|s: int|
                0 <= s < self.num_active implies #[trigger] self.channel_pwm@[s] == width by {
                let pin = self.pin2gpio@[s];
                assert(self.known_pins@.contains(pin));
                let j = choose|j: int| 0 <= j < known.len() && known[j] == pin;
                assert(self.channel_pwm@[s] == width);
            }
        }
        let ghost pre = *self;
        self.update_pwm();
        proof {
            assert forall|k: int| 0 <= k < old(self).known_pins@.len() implies self
                .spec_active_pins()
                .contains(#[trigger] old(self).known_pins@[k]) by {
                assert(pre.spec_active_pins().contains(pre.known_pins@[k]));
                let s0 = choose|s0: int|
                    0 <= s0 < pre.spec_active_pins().len() && pre.spec_active_pins()[s0]
                        == pre.known_pins@[k];
                assert(self.spec_active_pins()[s0] == old(self).known_pins@[k]);
            }
        }
        Ok(())
    }

    /// Index of the active slot holding `pin`, or the active count when
    /// no slot does.
    fn find_active_slot(&self, pin: u8) -> (r: usize)
        requires
            self.wf_core(),
        ensures
            r <= self.num_active,
            r < self.num_active ==> self.pin2gpio@[r as int] == pin,
            forall|k: int| 0 <= k < r ==> self.pin2gpio@[k] != pin,
    {
        let mut s: usize = 0;
        while s < self.num_active
            invariant
                self.wf_core(),
                s <= self.num_active,
                forall|k: int| 0 <= k < s ==> self.pin2gpio@[k] != pin,
            decreases self.num_active - s,
        {
            if self.pin2gpio[s] == pin {
                return s;
            }
            s = s + 1;
        }
        s
    }

    /// Clears `pin`'s fraction and slot assignment and compacts the slot
    /// table, so no hole remains.  No recompute here.
    fn release_channel(&mut self, pin: u8) -> (r: bool)
        requires
            old(self).wf_core(),
        ensures
            final(self).wf_core(),
            final(self).known_pins == old(self).known_pins,
            final(self).delay_hw == old(self).delay_hw,
            final(self).pwm_divisor == old(self).pwm_divisor,
            final(self).cycle_time == old(self).cycle_time,
            final(self).sample_delay == old(self).sample_delay,
            final(self).num_samples == old(self).num_samples,
            final(self).num_pages == old(self).num_pages,
            final(self).platform == old(self).platform,
            final(self).bus_addr == old(self).bus_addr,
            final(self).invert_mode == old(self).invert_mode,
            final(self).chain == old(self).chain,
            r == exists|s: int| 0 <= s < old(self).num_active && old(self).pin2gpio@[s] == pin,
            !r ==> *final(self) == *old(self),
            r ==> final(self).num_active == old(self).num_active - 1,
            r ==> forall|s: int|
                0 <= s < old(self).num_active && old(self).pin2gpio@[s] == pin ==> final(self).pin2gpio@ == spec_compact_pins(
                    old(self).pin2gpio@,
                    s,
                    old(self).num_active as int,
                ) && final(self).channel_pwm@ == spec_compact_fracs(
                    old(self).channel_pwm@,
                    s,
                    old(self).num_active as int,
                ),
    {
        let s = self.find_active_slot(pin);
        if s == self.num_active {
            return false;
        }
        let na = self.num_active;
        let mut k: usize = s;
        while k + 1 < na
            invariant
                old(self).wf_core(),
                s <= k < na,
                na == self.num_active,
                na == old(self).num_active,
                na <= MAX_CHANNELS,
                self.known_pins == old(self).known_pins,
                self.delay_hw == old(self).delay_hw,
                self.pwm_divisor == old(self).pwm_divisor,
                self.cycle_time == old(self).cycle_time,
                self.sample_delay == old(self).sample_delay,
                self.num_samples == old(self).num_samples,
                self.num_pages == old(self).num_pages,
                self.platform == old(self).platform,
                self.bus_addr == old(self).bus_addr,
                self.invert_mode == old(self).invert_mode,
                self.chain == old(self).chain,
                self.pin2gpio@.len() == MAX_CHANNELS,
                self.channel_pwm@.len() == MAX_CHANNELS,
                forall|m: int|
                    s <= m < k ==> #[trigger] self.pin2gpio@[m] == old(self).pin2gpio@[m + 1],
                forall|m: int|
                    s <= m < k ==> #[trigger] self.channel_pwm@[m] == old(self).channel_pwm@[m
                        + 1],
                forall|m: int|
                    0 <= m < MAX_CHANNELS && !(s <= m < k) ==> #[trigger] self.pin2gpio@[m]
                        == old(self).pin2gpio@[m],
                forall|m: int|
                    0 <= m < MAX_CHANNELS && !(s <= m < k) ==> #[trigger] self.channel_pwm@[m]
                        == old(self).channel_pwm@[m],
            decreases na - k,
        {
            let next_pin = self.pin2gpio[k + 1];
            let next_frac = self.channel_pwm[k + 1];
            self.pin2gpio.set(k, next_pin);
            self.channel_pwm.set(k, next_frac);
            k = k + 1;
        }
        self.pin2gpio.set(na - 1, 0);
        self.channel_pwm.set(na - 1, Fraction { num: 0, den: 1 });
        self.num_active = na - 1;
        proof {
            assert(self.pin2gpio@ =~= spec_compact_pins(
                old(self).pin2gpio@,
                s as int,
                na as int,
            ));
            assert(self.channel_pwm@ =~= spec_compact_fracs(
                old(self).channel_pwm@,
                s as int,
                na as int,
            ));
        }
        true
    }

    /// Releases a pin: clears its fraction and slot, compacts the table,
    /// and recomputes the program.  Fails with `UnknownChannel`, changing
    /// nothing, when the pin holds no channel.
    pub fn release_pwm(&mut self, pin: u8) -> (r: Result<(), RuntimeError>)
        requires
            old(self).wf_core(),
        ensures
            r is Ok <==> exists|s: int|
                0 <= s < old(self).num_active && old(self).pin2gpio@[s] == pin,
            r is Err ==> *final(self) == *old(self) && r->Err_0 == RuntimeError::UnknownChannel,
            r is Ok ==> final(self).wf(),
            r is Ok ==> final(self).known_pins == old(self).known_pins
                && final(self).delay_hw == old(self).delay_hw
                && final(self).pwm_divisor == old(self).pwm_divisor
                && final(self).cycle_time == old(self).cycle_time
                && final(self).sample_delay == old(self).sample_delay
                && final(self).num_samples == old(self).num_samples
                && final(self).num_pages == old(self).num_pages
                && final(self).platform == old(self).platform
                && final(self).bus_addr == old(self).bus_addr
                && final(self).invert_mode == old(self).invert_mode,
            r is Ok ==> final(self).num_active == old(self).num_active - 1,
            r is Ok ==> forall|s: int|
                0 <= s < old(self).num_active && old(self).pin2gpio@[s] == pin ==> final(self).pin2gpio@ == spec_compact_pins(
                    old(self).pin2gpio@,
                    s,
                    old(self).num_active as int,
                ) && final(self).channel_pwm@ == spec_compact_fracs(
                    old(self).channel_pwm@,
                    s,
                    old(self).num_active as int,
                ),
    {
        if !self.is_known_pin(pin) {
            return Err(RuntimeError::UnknownChannel);
        }
        if !self.release_channel(pin) {
            return Err(RuntimeError::UnknownChannel);
        }
        self.update_pwm();
        Ok(())
    }

    /// Clears every fraction, recomputes once so the hardware drains
    /// every pin to idle, then frees every slot.  The active count is
    /// reset to zero without compaction cost.  Calling it again finds
    /// zero active channels and leaves the table free again.
    pub fn release_all_pwm(&mut self) -> (r: Result<(), RuntimeError>)
        requires
            old(self).wf_core(),
        ensures
            r is Ok,
            final(self).wf_core(),
            final(self).known_pins == old(self).known_pins,
            final(self).delay_hw == old(self).delay_hw,
            final(self).pwm_divisor == old(self).pwm_divisor,
            final(self).cycle_time == old(self).cycle_time,
            final(self).sample_delay == old(self).sample_delay,
            final(self).num_samples == old(self).num_samples,
            final(self).num_pages == old(self).num_pages,
            final(self).platform == old(self).platform,
            final(self).bus_addr == old(self).bus_addr,
            final(self).invert_mode == old(self).invert_mode,
            final(self).num_active == 0,
            final(self).spec_table() == spec_free_table(),
            final(self).dsts_consistent(),
            forall|j: int|
                0 <= j < final(self).num_samples ==> #[trigger] final(self).chain.samples@[j]
                    == spec_sample_at(
                    spec_zero_fracs_table(old(self).spec_table()),
                    j,
                    final(self).num_samples as int,
                ),
    {
        self.zero_fractions();
        self.update_pwm();
        let na = self.num_active;
        let mut i: usize = 0;
        while i < na
            invariant
                old(self).wf_core(),
                i <= na <= MAX_CHANNELS,
                na == self.num_active,
                na <= self.known_pins@.len(),
                self.dsts_consistent(),
                self.chain.wf(),
                self.chain.num_samples == self.num_samples,
                self.chain.bus_addr == self.bus_addr,
                self.chain.cbs_linked(
                    self.spec_actual_dsts(),
                    self.delay_hw,
                    self.spec_fifo(),
                ),
                self.pin2gpio@.len() == MAX_CHANNELS,
                self.channel_pwm@.len() == MAX_CHANNELS,
                forall|m: int| 0 <= m < i ==> #[trigger] self.pin2gpio@[m] == 0u8,
                forall|m: int| na <= m < MAX_CHANNELS ==> #[trigger] self.pin2gpio@[m] == 0u8,
                forall|m: int|
                    0 <= m < MAX_CHANNELS ==> #[trigger] self.channel_pwm@[m] == (Fraction {
                        num: 0,
                        den: 1,
                    }),
                self.known_pins == old(self).known_pins,
                self.delay_hw == old(self).delay_hw,
                self.pwm_divisor == old(self).pwm_divisor,
                self.cycle_time == old(self).cycle_time,
                self.sample_delay == old(self).sample_delay,
                self.num_samples == old(self).num_samples,
                self.num_pages == old(self).num_pages,
                self.platform == old(self).platform,
                self.bus_addr == old(self).bus_addr,
                self.invert_mode == old(self).invert_mode,
                forall|j: int|
                    0 <= j < self.num_samples ==> #[trigger] self.chain.samples@[j]
                        == spec_sample_at(
                        spec_zero_fracs_table(old(self).spec_table()),
                        j,
                        self.num_samples as int,
                    ),
            decreases na - i,
        {
            self.pin2gpio.set(i, 0);
            i = i + 1;
        }
        self.num_active = 0;
        proof {
            assert(self.spec_table() =~= spec_free_table());
        }
        Ok(())
    }

    /// Clears the fraction of every active slot, leaving assignments in
    /// place.
    fn zero_fractions(&mut self)
        requires
            old(self).wf_core(),
        ensures
            final(self).wf_core(),
            final(self).known_pins == old(self).known_pins,
            final(self).delay_hw == old(self).delay_hw,
            final(self).pwm_divisor == old(self).pwm_divisor,
            final(self).cycle_time == old(self).cycle_time,
            final(self).sample_delay == old(self).sample_delay,
            final(self).num_samples == old(self).num_samples,
            final(self).num_pages == old(self).num_pages,
            final(self).platform == old(self).platform,
            final(self).bus_addr == old(self).bus_addr,
            final(self).invert_mode == old(self).invert_mode,
            final(self).chain == old(self).chain,
            final(self).pin2gpio == old(self).pin2gpio,
            final(self).num_active == old(self).num_active,
            forall|m: int|
                0 <= m < MAX_CHANNELS ==> #[trigger] final(self).channel_pwm@[m] == (Fraction {
                    num: 0,
                    den: 1,
                }),
            final(self).spec_table() == spec_zero_fracs_table(old(self).spec_table()),
    {
        let na = self.num_active;
        let mut i: usize = 0;
        while i < na
            invariant
                old(self).wf_core(),
                i <= na,
                na == self.num_active,
                self.num_active == old(self).num_active,
                self.known_pins == old(self).known_pins,
                self.delay_hw == old(self).delay_hw,
                self.pwm_divisor == old(self).pwm_divisor,
                self.cycle_time == old(self).cycle_time,
                self.sample_delay == old(self).sample_delay,
                self.num_samples == old(self).num_samples,
                self.num_pages == old(self).num_pages,
                self.platform == old(self).platform,
                self.bus_addr == old(self).bus_addr,
                self.invert_mode == old(self).invert_mode,
                self.chain == old(self).chain,
                self.pin2gpio == old(self).pin2gpio,
                self.channel_pwm@.len() == MAX_CHANNELS,
                forall|m: int|
                    0 <= m < i ==> #[trigger] self.channel_pwm@[m] == (Fraction {
                        num: 0,
                        den: 1,
                    }),
                forall|m: int|
                    i <= m < MAX_CHANNELS ==> #[trigger] self.channel_pwm@[m] == old(self).channel_pwm@[m],
            decreases na - i,
        {
            self.channel_pwm.set(i, Fraction { num: 0, den: 1 });
            i = i + 1;
        }
        proof {
            assert(self.spec_table() =~= spec_zero_fracs_table(old(self).spec_table()));
        }
    }

    /// Flips which GPIO register each descriptor targets, system-wide,
    /// and recomputes.  Polarity is baked into the descriptor chain, so
    /// this rewrites control-block destination fields; the duty-fraction
    /// thresholds are untouched, and from a consistent state the sample
    /// words come out unchanged word for word.
    pub fn set_invert_mode(&mut self, mode: bool)
        requires
            old(self).wf_core(),
        ensures
            final(self).wf(),
            final(self).invert_mode == mode,
            final(self).known_pins == old(self).known_pins,
            final(self).delay_hw == old(self).delay_hw,
            final(self).pwm_divisor == old(self).pwm_divisor,
            final(self).cycle_time == old(self).cycle_time,
            final(self).sample_delay == old(self).sample_delay,
            final(self).num_samples == old(self).num_samples,
            final(self).num_pages == old(self).num_pages,
            final(self).platform == old(self).platform,
            final(self).bus_addr == old(self).bus_addr,
            final(self).pin2gpio == old(self).pin2gpio,
            final(self).channel_pwm == old(self).channel_pwm,
            final(self).num_active == old(self).num_active,
            old(self).samples_consistent() ==> final(self).chain.samples@ == old(self).chain.samples@,
    {
        self.invert_mode = mode;
        self.update_pwm();
        proof {
            if old(self).samples_consistent() {
                assert(self.chain.samples@ =~= old(self).chain.samples@);
            }
        }
    }

    /// Clears every channel's fraction and recomputes, so every pin
    /// returns to idle, then hands back the DMA reset step for the
    /// unverified layer to run — after it, the mailbox allocation and the
    /// register mappings are released in reverse acquisition order.
    /// Every fraction is zero before the reset step can execute, and a
    /// repeated call reproduces the same state, so terminating is safe to
    /// do any number of times.
    pub fn terminate(&mut self) -> (ops: Vec<RegOp>)
        requires
            old(self).wf_core(),
        ensures
            final(self).wf(),
            final(self).known_pins == old(self).known_pins,
            final(self).delay_hw == old(self).delay_hw,
            final(self).pwm_divisor == old(self).pwm_divisor,
            final(self).cycle_time == old(self).cycle_time,
            final(self).sample_delay == old(self).sample_delay,
            final(self).num_samples == old(self).num_samples,
            final(self).num_pages == old(self).num_pages,
            final(self).platform == old(self).platform,
            final(self).bus_addr == old(self).bus_addr,
            final(self).invert_mode == old(self).invert_mode,
            final(self).pin2gpio == old(self).pin2gpio,
            final(self).num_active == old(self).num_active,
            forall|m: int|
                0 <= m < MAX_CHANNELS ==> #[trigger] final(self).channel_pwm@[m] == (Fraction {
                    num: 0,
                    den: 1,
                }),
            final(self).spec_table() == spec_zero_fracs_table(old(self).spec_table()),
            ops@ == crate::hwinit::spec_teardown_ops(),
    {
        self.zero_fractions();
        self.update_pwm();
        crate::hwinit::teardown_ops()
    }
}

/// What `print_info` reports, derived from held configuration with no
/// hardware access.  The PWM frequency is the exact rational
/// `500 MHz / (divisor * cycle_time)`, and the periods are exact
/// nanosecond counts.
#[derive(Debug)]
pub struct BoardInfo {
    /// Whether the PCM peripheral paces the loop.
    pub uses_pcm: bool,
    /// Number of configured channels.
    pub num_channels: usize,
    /// The configured pins.
    pub pins: Vec<u8>,
    /// Numerator of the PWM frequency in Hz.
    pub pwm_freq_num: u64,
    /// Denominator of the PWM frequency in Hz.
    pub pwm_freq_den: u64,
    /// Number of PWM steps per cycle.
    pub steps: usize,
    /// Period of a whole cycle, in nanoseconds.
    pub max_period_ns: u64,
    /// Period of one step, in nanoseconds.
    pub min_period_ns: u64,
    /// Virtual base address of the DMA register window.
    pub dma_base: u32,
}

impl Board {
    /// Derives the report of the running configuration: pacing choice,
    /// channel count, pins, frequency, step count and the two periods.
    pub fn info(&self) -> (r: BoardInfo)
        requires
            self.wf_core(),
        ensures
            r.uses_pcm == (self.delay_hw == DELAY_VIA_PCM),
            r.num_channels == self.known_pins@.len(),
            r.pins@ == self.known_pins@,
            r.pwm_freq_num == 500_000_000u64,
            r.pwm_freq_den == self.pwm_divisor * self.cycle_time,
            r.steps == self.num_samples,
            r.max_period_ns == 2 * (self.pwm_divisor * self.cycle_time),
            r.min_period_ns == 2 * (self.pwm_divisor * self.sample_delay),
            r.dma_base == self.platform.periph_virt_base + 0x7000,
    {
        proof {
            assert((self.pwm_divisor as u64) * (self.cycle_time as u64) <= 2_000_000 && (
            self.pwm_divisor as u64) * (self.sample_delay as u64) <= 100_000)
                by (nonlinear_arith)
                requires
                    self.pwm_divisor <= 1000,
                    self.cycle_time <= 2000,
                    self.sample_delay <= 100,
            ;
        }
        let den: u64 = (self.pwm_divisor as u64) * (self.cycle_time as u64);
        let max_ns: u64 = 2 * den;
        let min_ns: u64 = 2 * ((self.pwm_divisor as u64) * (self.sample_delay as u64));
        let mut pins: Vec<u8> = Vec::new();
        let mut i: usize = 0;
        while i < self.known_pins.len()
            invariant
                i <= self.known_pins@.len(),
                pins@ =~= self.known_pins@.subrange(0, i as int),
            decreases self.known_pins@.len() - i,
        {
            pins.push(self.known_pins[i]);
            i = i + 1;
        }
        proof {
            assert(pins@ =~= self.known_pins@);
            assert(self.platform.periph_virt_base + 0x7000 <= u32::MAX);
        }
        BoardInfo {
            uses_pcm: self.delay_hw == DELAY_VIA_PCM,
            num_channels: self.known_pins.len(),
            pins,
            pwm_freq_num: 500_000_000,
            pwm_freq_den: den,
            steps: self.num_samples,
            max_period_ns: max_ns,
            min_period_ns: min_ns,
            dma_base: self.platform.periph_virt_base + 0x7000,
        }
    }
}

// ------------------------------------------------------------------
// Laws of the engine.
// ------------------------------------------------------------------

/// On every well-formed board, the timeslot count is exactly
/// `cycle_time / sample_delay`, and twice that many control blocks fit in
/// the allocated descriptor array — the loop never outgrows its
/// allocation, whatever the configuration.
pub proof fn lemma_sample_capacity(b: &Board)
    requires
        b.wf_core(),
    ensures
        b.num_samples == b.cycle_time as int / b.sample_delay as int,
        2 * b.num_samples <= b.chain.cbs@.len(),
        b.num_samples <= b.chain.samples@.len(),
{
}

/// A pin list of at most the channel capacity, holding only valid pins
/// and no duplicate, validates cleanly: building with it succeeds.  With
/// `spec_validate_pins` this also fixes which error any other list is
/// refused with.
pub proof fn lemma_valid_pins_accepted(pins: Seq<u8>)
    requires
        pins.len() <= MAX_CHANNELS,
        forall|k: int| 0 <= k < pins.len() ==> spec_valid_pin(#[trigger] pins[k]),
        forall|j: int, k: int| 0 <= j < k < pins.len() ==> pins[j] != pins[k],
    ensures
        spec_validate_pins(pins) is None,
{
    lemma_valid_pins_scan_clean(pins, 0);
}

/// The channel table releasing all channels leaves behind, whatever the
/// table held.
pub open spec fn spec_release_all_table(t: Seq<(u8, Fraction)>) -> Seq<(u8, Fraction)> {
    spec_free_table()
}

/// Releasing all channels is idempotent on the channel table: it leaves
/// zero active channels, every slot free, and doing it again leaves the
/// table exactly as it stood.  (The sample buffer of the first release
/// keeps the de-assert masks until the hardware has drained the pins;
/// the table and the active count are what both calls agree on.)
pub proof fn lemma_release_all_idempotent(t: Seq<(u8, Fraction)>)
    ensures
        spec_release_all_table(spec_release_all_table(t)) == spec_release_all_table(t),
        forall|i: int|
            0 <= i < MAX_CHANNELS ==> spec_release_all_table(t)[i] == spec_free_slot(),
        spec_zero_fracs_table(spec_release_all_table(t)) == spec_release_all_table(t),
{
    assert(spec_zero_fracs_table(spec_free_table()) =~= spec_free_table());
}

/// Terminating is idempotent on the whole engine state: it keeps every
/// slot assignment, zeroes every fraction, and the recomputed sample
/// buffer depends only on the assignments — so a second terminate
/// reproduces the first's state exactly, and every fraction is zero
/// before the returned DMA reset step can execute.
pub proof fn lemma_terminate_idempotent(t: Seq<(u8, Fraction)>)
    ensures
        spec_zero_fracs_table(spec_zero_fracs_table(t)) == spec_zero_fracs_table(t),
        forall|k: int|
            0 <= k <= t.len() ==> spec_assigned_mask(#[trigger] spec_zero_fracs_table(t), k)
                == spec_assigned_mask(t, k),
        forall|i: int|
            0 <= i < t.len() ==> (#[trigger] spec_zero_fracs_table(t)[i]).1 == (Fraction {
                num: 0,
                den: 1,
            }),
{
    assert(spec_zero_fracs_table(spec_zero_fracs_table(t)) =~= spec_zero_fracs_table(t));
    assert forall|k: int|
        0 <= k <= t.len() implies spec_assigned_mask(#[trigger] spec_zero_fracs_table(t), k)
        == spec_assigned_mask(t, k) by {
        lemma_assigned_mask_pins_only(spec_zero_fracs_table(t), t, k);
    }
}

/// The assigned mask reads only the pin column of a table.
pub proof fn lemma_assigned_mask_pins_only(t1: Seq<(u8, Fraction)>, t2: Seq<(u8, Fraction)>, k: int)
    requires
        0 <= k,
        forall|i: int| 0 <= i < k ==> (#[trigger] t1[i]).0 == (#[trigger] t2[i]).0,
    ensures
        spec_assigned_mask(t1, k) == spec_assigned_mask(t2, k),
    decreases k,
{
    if k > 0 {
        lemma_assigned_mask_pins_only(t1, t2, k - 1);
    }
}

/// The round trip of a duty-cycle update, read back from the sample
/// buffer: when some slot of the table carries `pin` with fraction `f`
/// and no other slot carries it, slot 0's word contains `pin`'s bit
/// exactly when `f` is positive, and the word of every timeslot
/// `1 <= j < n` contains it exactly when `j / n` strictly exceeds `f` —
/// the pin asserts at the start of the cycle and de-asserts once its
/// proportional point has passed, and no other slot carries its bit.
pub proof fn lemma_set_pwm_roundtrip(t: Seq<(u8, Fraction)>, pin: u8, f: Fraction, n: int)
    requires
        t.len() == MAX_CHANNELS,
        forall|i: int| 0 <= i < t.len() ==> (#[trigger] t[i]).0 < MAX_CHANNELS,
        forall|a: int, b: int| 0 <= a < b < t.len() && t[a].0 == pin ==> t[b].0 != pin,
        exists|s: int| 0 <= s < t.len() && (#[trigger] t[s]).0 == pin && t[s].1 == f,
        0 < pin < MAX_CHANNELS,
    ensures
        bit_set(spec_sample_at(t, 0, n), pin as u32) <==> fraction_positive(f),
        forall|j: int|
            1 <= j < n ==> (bit_set(#[trigger] spec_sample_at(t, j, n), pin as u32)
                <==> ratio_exceeds(f, j, n)),
{
    let s = choose|s: int| 0 <= s < t.len() && (#[trigger] t[s]).0 == pin && t[s].1 == f;
    lemma_on_mask_bits(t, MAX_CHANNELS as int, pin as u32);
    assert forall|j: int|
        1 <= j < n implies (bit_set(#[trigger] spec_sample_at(t, j, n), pin as u32)
        <==> ratio_exceeds(f, j, n)) by {
        lemma_off_mask_bits(t, MAX_CHANNELS as int, j, n, pin as u32);
        if ratio_exceeds(f, j, n) {
            assert(t[s].0 == pin && t[s].0 > 0 && ratio_exceeds(t[s].1, j, n));
        }
        if bit_set(spec_off_mask(t, MAX_CHANNELS as int, j, n), pin as u32) {
            let i = choose|i: int|
                0 <= i < MAX_CHANNELS && (#[trigger] t[i]).0 == pin as u32 && t[i].0 > 0
                    && ratio_exceeds(t[i].1, j, n);
            assert(i == s);
        }
    }
    if bit_set(spec_on_mask(t, MAX_CHANNELS as int), pin as u32) {
        let i = choose|i: int|
            0 <= i < MAX_CHANNELS && (#[trigger] t[i]).0 == pin as u32 && t[i].0 > 0
                && fraction_positive(t[i].1);
        assert(i == s);
    }
    if fraction_positive(f) {
        assert(t[s].0 == pin && t[s].0 > 0 && fraction_positive(t[s].1));
    }
}

/// The round trip read off a consistent board: when some channel slot
/// carries `pin` with fraction `f`, slot 0's sample word contains `pin`'s
/// bit exactly when `f` is positive, the word of every timeslot
/// `1 <= j < num_samples` contains it exactly when `j / num_samples`
/// strictly exceeds `f`, and no allocated slot beyond the loop contains
/// it at all.
pub proof fn lemma_board_roundtrip(b: &Board, pin: u8, f: Fraction)
    requires
        b.wf(),
        0 < pin < MAX_CHANNELS,
        exists|s: int|
            0 <= s < b.num_active && #[trigger] b.spec_table()[s] == (pin, f),
    ensures
        bit_set(b.chain.samples@[0], pin as u32) <==> fraction_positive(f),
        forall|j: int|
            1 <= j < b.num_samples ==> (bit_set(#[trigger] b.chain.samples@[j], pin as u32)
                <==> ratio_exceeds(f, j, b.num_samples as int)),
        forall|j: int|
            b.num_samples <= j < b.chain.samples@.len() ==> !bit_set(
                #[trigger] b.chain.samples@[j],
                pin as u32,
            ),
{
    let t = b.spec_table();
    let n = b.num_samples as int;
    assert forall|a: int, c: int| 0 <= a < c < t.len() && t[a].0 == pin implies t[c].0
        != pin by {
        if c < b.num_active {
        } else {
            assert(t[c].0 == 0);
        }
    }
    lemma_set_pwm_roundtrip(t, pin, f, n);
    assert forall|j: int|
        b.num_samples <= j < b.chain.samples@.len() implies !bit_set(
        #[trigger] b.chain.samples@[j],
        pin as u32,
    ) by {
        assert(b.chain.samples@[j] == 0u32);
        crate::bits::lemma_zero_has_no_bit(pin as u32);
    }
}

/// A fresh slot table: every pin entry free.
fn free_pin_slots() -> (r: Vec<u8>)
    ensures
        r@.len() == MAX_CHANNELS,
        forall|i: int| 0 <= i < MAX_CHANNELS ==> #[trigger] r@[i] == 0u8,
{
    let mut r: Vec<u8> = Vec::new();
    let mut i: usize = 0;
    while i < MAX_CHANNELS
        invariant
            i <= MAX_CHANNELS,
            r@.len() == i,
            forall|k: int| 0 <= k < i ==> #[trigger] r@[k] == 0u8,
        decreases MAX_CHANNELS - i,
    {
        r.push(0);
        i = i + 1;
    }
    r
}

/// A fresh slot table: every fraction entry zero.
fn free_fraction_slots() -> (r: Vec<Fraction>)
    ensures
        r@.len() == MAX_CHANNELS,
        forall|i: int|
            0 <= i < MAX_CHANNELS ==> #[trigger] r@[i] == (Fraction { num: 0, den: 1 }),
{
    let mut r: Vec<Fraction> = Vec::new();
    let mut i: usize = 0;
    while i < MAX_CHANNELS
        invariant
            i <= MAX_CHANNELS,
            r@.len() == i,
            forall|k: int| 0 <= k < i ==> #[trigger] r@[k] == (Fraction { num: 0, den: 1 }),
        decreases MAX_CHANNELS - i,
    {
        r.push(Fraction { num: 0, den: 1 });
        i = i + 1;
    }
    r
}

} // verus!
