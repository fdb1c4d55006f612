//! The ordered register program that arms the pacing peripheral and the
//! DMA engine.
//!
//! Register programming races are unforgiving, so the whole sequence is a
//! value: a list of writes, each naming its peripheral, word index, value
//! and the settle delay that must follow it, in program order.  The
//! unverified layer performs each write through its volatile mapping and
//! honours each delay; it decides nothing.
//!
//! The one hard ordering requirement — the control-block address must be
//! programmed before the DMA "active" bit is set — is proved of the
//! generated program below.

use vstd::prelude::*;
use crate::chain::{DELAY_VIA_PWM, DMA_END, DMA_INT, DMA_RESET};

verus! {

pub const DMA_CS: usize = 0;

pub const DMA_CONBLK_AD: usize = 1;

pub const DMA_DEBUG: usize = 8;

/// The DMA "go" word: active, mid priority, wait for outstanding writes.
pub const DMA_GO: u32 = 0x10880001;

pub const GPIO_FSEL0: usize = 0;

pub const GPIO_SET0: usize = 7;

pub const GPIO_CLR0: usize = 10;

pub const GPIO_LEV0: usize = 13;

pub const GPIO_MODE_IN: u32 = 0;

pub const GPIO_MODE_OUT: u32 = 1;

pub const PWM_CTL: usize = 0;

pub const PWM_DMAC: usize = 2;

pub const PWM_RNG1: usize = 4;

pub const PWM_FIFO: usize = 6;

pub const PWMCLK_CNTL: usize = 40;

pub const PWMCLK_DIV: usize = 41;

pub const PWMCTL_MODE1: u32 = 2;

pub const PWMCTL_PWEN1: u32 = 1;

pub const PWMCTL_CLRF: u32 = 0x40;

pub const PWMCTL_USEF1: u32 = 0x20;

pub const PWMDMAC_ENAB: u32 = 0x8000_0000;

pub const PWMDMAC_THRSHLD: u32 = 0x0f0f;

pub const PCM_CS_A: usize = 0;

pub const PCM_FIFO_A: usize = 1;

pub const PCM_MODE_A: usize = 2;

pub const PCM_RXC_A: usize = 3;

pub const PCM_TXC_A: usize = 4;

pub const PCM_DREQ_A: usize = 5;

pub const PCM_INTEN_A: usize = 6;

pub const PCM_INT_STC_A: usize = 7;

pub const PCM_GRAY: usize = 8;

pub const PCMCLK_CNTL: usize = 38;

pub const PCMCLK_DIV: usize = 39;

/// Source = the 500 MHz PLL.
pub const CLK_SRC_PLLD: u32 = 0x5a00_0006;

/// Source = the 500 MHz PLL, and enable the clock.
pub const CLK_SRC_PLLD_ENABLE: u32 = 0x5a00_0016;

/// The clock-divisor register's password bits.
pub const CLK_PASSWD: u32 = 0x5a00_0000;

/// One of the four register windows a write can land in.
#[derive(Clone, Copy, Debug, PartialEq, Eq, Structural)]
pub enum Periph {
    Clk,
    Pwm,
    Pcm,
    Dma,
}

/// One step of a register program: write `value` to word `index` of the
/// `periph` window — or OR it into the word when `set_bits` holds — then
/// settle for `delay_us` microseconds before the next step.
#[derive(Clone, Copy, Debug, PartialEq, Eq, Structural)]
pub struct RegOp {
    pub periph: Periph,
    pub index: usize,
    pub value: u32,
    pub set_bits: bool,
    pub delay_us: u64,
}

/// Whether an op writes the DMA control/status word with the active bit
/// set: the step that starts the engine.
pub open spec fn spec_starts_dma(op: RegOp) -> bool {
    op.periph == Periph::Dma && op.index == DMA_CS && op.value & 1 == 1
}

/// Whether an op programs the DMA control-block-address register.
pub open spec fn spec_programs_chain(op: RegOp) -> bool {
    op.periph == Periph::Dma && op.index == DMA_CONBLK_AD
}

/// The five steps that arm the DMA engine once the pacing peripheral
/// runs: reset, clear the end/interrupt flags, program the address of the
/// first control block, clear the debug error flags, go.
pub open spec fn spec_dma_arm_ops(cb_bus_addr: u32) -> Seq<RegOp> {
    seq![
        RegOp { periph: Periph::Dma, index: DMA_CS, value: DMA_RESET, set_bits: false, delay_us: 10 },
        RegOp {
            periph: Periph::Dma,
            index: DMA_CS,
            value: DMA_INT | DMA_END,
            set_bits: false,
            delay_us: 0,
        },
        RegOp {
            periph: Periph::Dma,
            index: DMA_CONBLK_AD,
            value: cb_bus_addr,
            set_bits: false,
            delay_us: 0,
        },
        RegOp { periph: Periph::Dma, index: DMA_DEBUG, value: 7, set_bits: false, delay_us: 0 },
        RegOp { periph: Periph::Dma, index: DMA_CS, value: DMA_GO, set_bits: false, delay_us: 0 },
    ]
}

/// The PWM-paced init program: disable the PWM, set the clock source and
/// divisor and re-enable the clock, set the range register to the sample
/// delay, enable the DMA threshold, clear the FIFO, enable "use FIFO" and
/// channel 1, then arm the DMA engine.
pub open spec fn spec_pwm_init_ops(pwm_divisor: u32, sample_delay: u32, cb_bus_addr: u32) -> Seq<
    RegOp,
> {
    seq![
        RegOp { periph: Periph::Pwm, index: PWM_CTL, value: 0, set_bits: false, delay_us: 10 },
        RegOp {
            periph: Periph::Clk,
            index: PWMCLK_CNTL,
            value: CLK_SRC_PLLD,
            set_bits: false,
            delay_us: 100,
        },
        RegOp {
            periph: Periph::Clk,
            index: PWMCLK_DIV,
            value: CLK_PASSWD | (pwm_divisor << 12u32),
            set_bits: false,
            delay_us: 100,
        },
        RegOp {
            periph: Periph::Clk,
            index: PWMCLK_CNTL,
            value: CLK_SRC_PLLD_ENABLE,
            set_bits: false,
            delay_us: 100,
        },
        RegOp {
            periph: Periph::Pwm,
            index: PWM_RNG1,
            value: sample_delay,
            set_bits: false,
            delay_us: 10,
        },
        RegOp {
            periph: Periph::Pwm,
            index: PWM_DMAC,
            value: PWMDMAC_ENAB | PWMDMAC_THRSHLD,
            set_bits: false,
            delay_us: 10,
        },
        RegOp {
            periph: Periph::Pwm,
            index: PWM_CTL,
            value: PWMCTL_CLRF,
            set_bits: false,
            delay_us: 10,
        },
        RegOp {
            periph: Periph::Pwm,
            index: PWM_CTL,
            value: PWMCTL_USEF1 | PWMCTL_PWEN1,
            set_bits: false,
            delay_us: 10,
        },
    ] + spec_dma_arm_ops(cb_bus_addr)
}

/// The PCM-paced init program: reset and enable the PCM block, configure
/// the clock identically, set the transmit channel to one 8-bit channel,
/// set the frame length to the sample delay, clear the FIFOs, set the DMA
/// request threshold, enable the DMA request, arm the DMA engine, and only
/// then enable transmit — enabling it earlier risks a FIFO underrun.
pub open spec fn spec_pcm_init_ops(pwm_divisor: u32, sample_delay: u32, cb_bus_addr: u32) -> Seq<
    RegOp,
> {
    seq![
        RegOp { periph: Periph::Pcm, index: PCM_CS_A, value: 1, set_bits: false, delay_us: 100 },
        RegOp {
            periph: Periph::Clk,
            index: PCMCLK_CNTL,
            value: CLK_SRC_PLLD,
            set_bits: false,
            delay_us: 100,
        },
        RegOp {
            periph: Periph::Clk,
            index: PCMCLK_DIV,
            value: CLK_PASSWD | (pwm_divisor << 12u32),
            set_bits: false,
            delay_us: 100,
        },
        RegOp {
            periph: Periph::Clk,
            index: PCMCLK_CNTL,
            value: CLK_SRC_PLLD_ENABLE,
            set_bits: false,
            delay_us: 100,
        },
        RegOp {
            periph: Periph::Pcm,
            index: PCM_TXC_A,
            value: 0x4000_0000,
            set_bits: false,
            delay_us: 100,
        },
        RegOp {
            periph: Periph::Pcm,
            index: PCM_MODE_A,
            value: ((sample_delay - 1) as u32) << 10u32,
            set_bits: false,
            delay_us: 100,
        },
        RegOp { periph: Periph::Pcm, index: PCM_CS_A, value: 0x18, set_bits: true, delay_us: 100 },
        RegOp {
            periph: Periph::Pcm,
            index: PCM_DREQ_A,
            value: 0x4000_4000,
            set_bits: false,
            delay_us: 100,
        },
        RegOp { periph: Periph::Pcm, index: PCM_CS_A, value: 0x200, set_bits: true, delay_us: 100 },
    ] + spec_dma_arm_ops(cb_bus_addr) + seq![
        RegOp { periph: Periph::Pcm, index: PCM_CS_A, value: 4, set_bits: true, delay_us: 0 },
    ]
}

/// The init program of the chosen pacing peripheral.
pub open spec fn spec_init_ops(
    delay_hw: u8,
    pwm_divisor: u32,
    sample_delay: u32,
    cb_bus_addr: u32,
) -> Seq<RegOp> {
    if delay_hw == DELAY_VIA_PWM {
        spec_pwm_init_ops(pwm_divisor, sample_delay, cb_bus_addr)
    } else {
        spec_pcm_init_ops(pwm_divisor, sample_delay, cb_bus_addr)
    }
}

/// The teardown step of the engine: reset the DMA channel, then settle.
pub open spec fn spec_teardown_ops() -> Seq<RegOp> {
    seq![
        RegOp { periph: Periph::Dma, index: DMA_CS, value: DMA_RESET, set_bits: false, delay_us: 10 },
    ]
}

/// Emits the register program that arms the pacing peripheral and starts
/// the DMA engine on the chain rooted at `cb_bus_addr`.
pub fn init_hardware_ops(
    delay_hw: u8,
    pwm_divisor: usize,
    sample_delay: usize,
    cb_bus_addr: u32,
) -> (r: Vec<RegOp>)
    requires
        pwm_divisor <= 1000,
        1 <= sample_delay <= 100,
    ensures
        r@ == spec_init_ops(delay_hw, pwm_divisor as u32, sample_delay as u32, cb_bus_addr),
{
    let div: u32 = pwm_divisor as u32;
    let sd: u32 = sample_delay as u32;
    let mut r: Vec<RegOp> = Vec::new();
    if delay_hw == DELAY_VIA_PWM {
        r.push(RegOp { periph: Periph::Pwm, index: PWM_CTL, value: 0, set_bits: false, delay_us: 10 });
        r.push(
            RegOp {
                periph: Periph::Clk,
                index: PWMCLK_CNTL,
                value: CLK_SRC_PLLD,
                set_bits: false,
                delay_us: 100,
            },
        );
        r.push(
            RegOp {
                periph: Periph::Clk,
                index: PWMCLK_DIV,
                value: CLK_PASSWD | (div << 12u32),
                set_bits: false,
                delay_us: 100,
            },
        );
        r.push(
            RegOp {
                periph: Periph::Clk,
                index: PWMCLK_CNTL,
                value: CLK_SRC_PLLD_ENABLE,
                set_bits: false,
                delay_us: 100,
            },
        );
        r.push(
            RegOp { periph: Periph::Pwm, index: PWM_RNG1, value: sd, set_bits: false, delay_us: 10 },
        );
        r.push(
            RegOp {
                periph: Periph::Pwm,
                index: PWM_DMAC,
                value: PWMDMAC_ENAB | PWMDMAC_THRSHLD,
                set_bits: false,
                delay_us: 10,
            },
        );
        r.push(
            RegOp {
                periph: Periph::Pwm,
                index: PWM_CTL,
                value: PWMCTL_CLRF,
                set_bits: false,
                delay_us: 10,
            },
        );
        r.push(
            RegOp {
                periph: Periph::Pwm,
                index: PWM_CTL,
                value: PWMCTL_USEF1 | PWMCTL_PWEN1,
                set_bits: false,
                delay_us: 10,
            },
        );
        push_dma_arm_ops(&mut r, cb_bus_addr);
        proof {
            assert(r@ =~= spec_pwm_init_ops(div, sd, cb_bus_addr));
        }
    } else {
        r.push(
            RegOp { periph: Periph::Pcm, index: PCM_CS_A, value: 1, set_bits: false, delay_us: 100 },
        );
        r.push(
            RegOp {
                periph: Periph::Clk,
                index: PCMCLK_CNTL,
                value: CLK_SRC_PLLD,
                set_bits: false,
                delay_us: 100,
            },
        );
        r.push(
            RegOp {
                periph: Periph::Clk,
                index: PCMCLK_DIV,
                value: CLK_PASSWD | (div << 12u32),
                set_bits: false,
                delay_us: 100,
            },
        );
        r.push(
            RegOp {
                periph: Periph::Clk,
                index: PCMCLK_CNTL,
                value: CLK_SRC_PLLD_ENABLE,
                set_bits: false,
                delay_us: 100,
            },
        );
        r.push(
            RegOp {
                periph: Periph::Pcm,
                index: PCM_TXC_A,
                value: 0x4000_0000,
                set_bits: false,
                delay_us: 100,
            },
        );
        r.push(
            RegOp {
                periph: Periph::Pcm,
                index: PCM_MODE_A,
                value: (sd - 1) << 10u32,
                set_bits: false,
                delay_us: 100,
            },
        );
        r.push(
            RegOp { periph: Periph::Pcm, index: PCM_CS_A, value: 0x18, set_bits: true, delay_us: 100 },
        );
        r.push(
            RegOp {
                periph: Periph::Pcm,
                index: PCM_DREQ_A,
                value: 0x4000_4000,
                set_bits: false,
                delay_us: 100,
            },
        );
        r.push(
            RegOp {
                periph: Periph::Pcm,
                index: PCM_CS_A,
                value: 0x200,
                set_bits: true,
                delay_us: 100,
            },
        );
        push_dma_arm_ops(&mut r, cb_bus_addr);
        r.push(RegOp { periph: Periph::Pcm, index: PCM_CS_A, value: 4, set_bits: true, delay_us: 0 });
        proof {
            assert(r@ =~= spec_pcm_init_ops(div, sd, cb_bus_addr));
        }
    }
    r
}

/// Appends the five DMA-arming steps.
fn push_dma_arm_ops(r: &mut Vec<RegOp>, cb_bus_addr: u32)
    ensures
        final(r)@ == old(r)@ + spec_dma_arm_ops(cb_bus_addr),
{
    r.push(
        RegOp { periph: Periph::Dma, index: DMA_CS, value: DMA_RESET, set_bits: false, delay_us: 10 },
    );
    r.push(
        RegOp {
            periph: Periph::Dma,
            index: DMA_CS,
            value: DMA_INT | DMA_END,
            set_bits: false,
            delay_us: 0,
        },
    );
    r.push(
        RegOp {
            periph: Periph::Dma,
            index: DMA_CONBLK_AD,
            value: cb_bus_addr,
            set_bits: false,
            delay_us: 0,
        },
    );
    r.push(RegOp { periph: Periph::Dma, index: DMA_DEBUG, value: 7, set_bits: false, delay_us: 0 });
    r.push(RegOp { periph: Periph::Dma, index: DMA_CS, value: DMA_GO, set_bits: false, delay_us: 0 });
    proof {
        assert(final(r)@ =~= old(r)@ + spec_dma_arm_ops(cb_bus_addr));
    }
}

/// Emits the teardown program run after the final idle recompute.
pub fn teardown_ops() -> (r: Vec<RegOp>)
    ensures
        r@ == spec_teardown_ops(),
{
    let mut r: Vec<RegOp> = Vec::new();
    r.push(
        RegOp { periph: Periph::Dma, index: DMA_CS, value: DMA_RESET, set_bits: false, delay_us: 10 },
    );
    proof {
        assert(r@ =~= spec_teardown_ops());
    }
    r
}

/// In every init program, the control-block address is programmed before
/// any step sets the DMA active bit: the engine never starts on a stale
/// chain address.
pub proof fn lemma_chain_programmed_before_start(
    delay_hw: u8,
    pwm_divisor: u32,
    sample_delay: u32,
    cb_bus_addr: u32,
)
    ensures
        forall|k: int|
            0 <= k < spec_init_ops(delay_hw, pwm_divisor, sample_delay, cb_bus_addr).len()
                && spec_starts_dma(
                spec_init_ops(delay_hw, pwm_divisor, sample_delay, cb_bus_addr)[k],
            ) ==> exists|m: int|
                0 <= m < k && spec_programs_chain(
                    #[trigger] spec_init_ops(delay_hw, pwm_divisor, sample_delay, cb_bus_addr)[m],
                ),
{
    let ops = spec_init_ops(delay_hw, pwm_divisor, sample_delay, cb_bus_addr);
    assert(DMA_RESET & 1 == 0) by (bit_vector);
    assert((DMA_INT | DMA_END) & 1 == 0) by (bit_vector);
    assert forall|k: int| 0 <= k < ops.len() && spec_starts_dma(ops[k]) implies exists|m: int|
        0 <= m < k && spec_programs_chain(#[trigger] ops[m]) by {
        if delay_hw == DELAY_VIA_PWM {
            assert(spec_programs_chain(ops[10]));
            assert(k == 12);
        } else {
            assert(spec_programs_chain(ops[11]));
            assert(k == 13);
        }
    }
}

/// Index of the function-select word of `pin`: ten pins per word.
pub fn gpio_fsel_index(pin: u8) -> (r: usize)
    requires
        pin < 32,
    ensures
        r == GPIO_FSEL0 + pin as int / 10,
{
    GPIO_FSEL0 + (pin as usize) / 10
}

/// The new value of a function-select word after giving `pin` the mode
/// `mode`: three bits per pin, the pin's field replaced, every other
/// field kept.
pub fn gpio_fsel_value(fsel_old: u32, pin: u8, mode: u32) -> (r: u32)
    requires
        pin < 32,
        mode <= 7,
    ensures
        r == (fsel_old & !(7u32 << ((pin as u32 % 10) * 3))) | (mode << ((pin as u32 % 10) * 3)),
{
    let shift: u32 = ((pin as u32) % 10) * 3;
    (fsel_old & !(7u32 << shift)) | (mode << shift)
}

/// Which GPIO register parks a pin at its idle level: the clear register
/// normally, the set register under invert mode.
pub fn gpio_idle_register(invert: bool) -> (r: usize)
    ensures
        r == if invert {
            GPIO_SET0 as int
        } else {
            GPIO_CLR0 as int
        },
{
    if invert {
        GPIO_SET0
    } else {
        GPIO_CLR0
    }
}

} // verus!
