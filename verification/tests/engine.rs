use dma_gpio::board::{Board, BoardBuilder};
use dma_gpio::chain::{DMA_RESET, NUM_CBS, NUM_SAMPLES};
use dma_gpio::errors::{RuntimeError, TeardownError};
use dma_gpio::fraction::Fraction;
use dma_gpio::hwinit::{init_hardware_ops, Periph, DMA_CONBLK_AD, DMA_CS, DMA_GO, PCM_CS_A};
use dma_gpio::platform::get_model;

const PI3_REVISION: u32 = 0x00a02082;
const BUS_ADDR: u32 = 0x40000000;
const GPSET0: u32 = 0x7e20001c;
const GPCLR0: u32 = 0x7e200028;
const PWM_FIFO_ADDR: u32 = 0x7e20c018;
const PCM_FIFO_ADDR: u32 = 0x7e203004;

fn test_board(pins: Vec<u8>) -> Board {
    let platform = get_model(PI3_REVISION).unwrap();
    BoardBuilder::new()
        .build_with_pins(pins, platform, BUS_ADDR)
        .unwrap()
}

fn has_bit(word: u32, pin: u8) -> bool {
    word & (1u32 << pin) != 0
}

#[test]
fn default_capacity_is_200_samples_400_blocks() {
    assert_eq!(NUM_SAMPLES, 200);
    assert_eq!(NUM_CBS, 400);
    let board = test_board(vec![21, 22]);
    assert_eq!(board.num_samples, 200);
    assert_eq!(board.chain.samples.len(), 200);
    assert_eq!(board.chain.cbs.len(), 400);
    assert!(2 * board.num_samples <= board.chain.cbs.len());
}

#[test]
fn retuned_configuration_keeps_capacity_bound() {
    let platform = get_model(PI3_REVISION).unwrap();
    let board = BoardBuilder::new()
        .set_cycle_time(1000)
        .set_sample_delay(1)
        .build_with_pins(vec![21], platform, BUS_ADDR)
        .unwrap();
    assert_eq!(board.num_samples, 1000);
    assert!(2 * board.num_samples <= board.chain.cbs.len());
    assert_eq!(board.chain.samples.len(), 1000);
}

#[test]
fn fresh_board_is_idle() {
    let board = test_board(vec![21, 22]);
    assert_eq!(board.num_active, 0);
    for &w in &board.chain.samples {
        assert_eq!(w, 0);
    }
}

#[test]
fn control_block_pairs_are_linked_circularly() {
    let board = test_board(vec![21, 22]);
    let sample_bytes = 4 * board.chain.samples.len() as u32;
    let cb = |j: u32| (BUS_ADDR + sample_bytes + 32 * j) | 0x4000_0000;
    for i in 0..board.num_samples {
        let data = &board.chain.cbs[2 * i];
        // No wide bursts, wait for the write response.
        assert_eq!(data.info, 0x0400_0008);
        assert_eq!(data.src, (BUS_ADDR + 4 * i as u32) | 0x4000_0000);
        assert_eq!(data.length, 4);
        assert_eq!(data.stride, 0);
        assert_eq!(data.next, cb(2 * i as u32 + 1));

        let wait = &board.chain.cbs[2 * i + 1];
        // Additionally gated on the PWM data request (peripheral 5).
        assert_eq!(wait.info, 0x0405_0048);
        assert_eq!(wait.dst, PWM_FIFO_ADDR);
        assert_eq!(wait.length, 4);
        if i + 1 == board.num_samples {
            assert_eq!(wait.next, cb(0));
        } else {
            assert_eq!(wait.next, cb(2 * i as u32 + 2));
        }
    }
}

#[test]
fn pcm_pacing_changes_the_wait_blocks() {
    let platform = get_model(PI3_REVISION).unwrap();
    let board = BoardBuilder::new()
        .use_pcm()
        .build_with_pins(vec![21], platform, BUS_ADDR)
        .unwrap();
    // Peripheral 2 in the transfer word, and the PCM FIFO as target.
    assert_eq!(board.chain.cbs[1].info, 0x0402_0048);
    assert_eq!(board.chain.cbs[1].dst, PCM_FIFO_ADDR);
}

#[test]
fn set_pwm_round_trip() {
    let mut board = test_board(vec![21, 22]);
    board.set_pwm(21, Fraction::new(1, 4)).unwrap();
    let n = board.num_samples;
    assert!(has_bit(board.chain.samples[0], 21));
    for j in 1..n {
        // The pin's bit stands exactly where j/n strictly exceeds 1/4.
        let expected = 4 * j > n;
        assert_eq!(has_bit(board.chain.samples[j], 21), expected);
        assert!(!has_bit(board.chain.samples[j], 22));
    }
}

#[test]
fn quarter_and_three_quarter_duty_cycles() {
    let mut board = test_board(vec![21, 22]);
    board.set_pwm(21, Fraction::new(1, 4)).unwrap();
    board.set_pwm(22, Fraction::new(3, 4)).unwrap();
    assert_eq!(board.num_samples, 200);
    // At the exact boundary slots the strict comparison keeps the bit
    // clear; one slot past the proportional point it appears.
    assert!(!has_bit(board.chain.samples[50], 21));
    assert!(!has_bit(board.chain.samples[50], 22));
    assert!(has_bit(board.chain.samples[51], 21));
    assert!(!has_bit(board.chain.samples[51], 22));
    assert!(has_bit(board.chain.samples[150], 21));
    assert!(!has_bit(board.chain.samples[150], 22));
    assert!(has_bit(board.chain.samples[151], 21));
    assert!(has_bit(board.chain.samples[151], 22));
    // Both pins assert at the start of the cycle.
    assert!(has_bit(board.chain.samples[0], 21));
    assert!(has_bit(board.chain.samples[0], 22));
}

#[test]
fn zero_fraction_never_asserts() {
    let mut board = test_board(vec![21]);
    board.set_pwm(21, Fraction::new(0, 1)).unwrap();
    assert!(!has_bit(board.chain.samples[0], 21));
    for j in 1..board.num_samples {
        assert!(has_bit(board.chain.samples[j], 21));
    }
}

#[test]
fn full_fraction_never_deasserts() {
    let mut board = test_board(vec![21]);
    board.set_pwm(21, Fraction::new(1, 1)).unwrap();
    assert!(has_bit(board.chain.samples[0], 21));
    for j in 1..board.num_samples {
        // j/n > 1 never holds.
        assert!(!has_bit(board.chain.samples[j], 21));
    }
}

#[test]
fn set_pwm_rejects_unknown_pin() {
    let mut board = test_board(vec![21, 22]);
    let r = board.set_pwm(23, Fraction::new(1, 2));
    assert_eq!(r.err().unwrap(), RuntimeError::UnknownChannel);
    assert_eq!(board.num_active, 0);
}

#[test]
fn set_pwm_rejects_fraction_above_one() {
    let mut board = test_board(vec![21]);
    let r = board.set_pwm(21, Fraction::new(5, 4));
    assert_eq!(r.err().unwrap(), RuntimeError::FractionOutOfRange);
}

#[test]
fn set_pwm_rejects_zero_denominator() {
    let mut board = test_board(vec![21]);
    let r = board.set_pwm(21, Fraction::new(1, 0));
    assert_eq!(r.err().unwrap(), RuntimeError::FractionOutOfRange);
}

#[test]
fn channels_take_the_first_free_slot() {
    let mut board = test_board(vec![21, 22, 23]);
    board.set_pwm(22, Fraction::new(1, 2)).unwrap();
    board.set_pwm(23, Fraction::new(1, 2)).unwrap();
    assert_eq!(board.pin2gpio[0], 22);
    assert_eq!(board.pin2gpio[1], 23);
    assert_eq!(board.num_active, 2);
    // A repeated set reuses the slot.
    board.set_pwm(22, Fraction::new(1, 4)).unwrap();
    assert_eq!(board.num_active, 2);
    assert_eq!(board.channel_pwm[0], Fraction::new(1, 4));
}

#[test]
fn set_all_pwm_drives_every_configured_pin() {
    let mut board = test_board(vec![21, 22, 23]);
    board.set_all_pwm(Fraction::new(1, 2)).unwrap();
    assert_eq!(board.num_active, 3);
    for pin in [21u8, 22, 23] {
        assert!(has_bit(board.chain.samples[0], pin));
        assert!(!has_bit(board.chain.samples[100], pin));
        assert!(has_bit(board.chain.samples[101], pin));
    }
}

#[test]
fn set_all_pwm_rejects_out_of_range_fraction() {
    let mut board = test_board(vec![21, 22]);
    let r = board.set_all_pwm(Fraction::new(3, 2));
    assert_eq!(r.err().unwrap(), RuntimeError::FractionOutOfRange);
    assert_eq!(board.num_active, 0);
}

#[test]
fn release_pwm_compacts_the_slot_table() {
    let mut board = test_board(vec![21, 22, 23]);
    board.set_all_pwm(Fraction::new(1, 2)).unwrap();
    board.release_pwm(22).unwrap();
    assert_eq!(board.num_active, 2);
    assert_eq!(board.pin2gpio[0], 21);
    assert_eq!(board.pin2gpio[1], 23);
    assert_eq!(board.pin2gpio[2], 0);
    for j in 1..board.num_samples {
        assert!(!has_bit(board.chain.samples[j], 22));
    }
}

#[test]
fn release_pwm_rejects_unassigned_pin() {
    let mut board = test_board(vec![21, 22]);
    board.set_pwm(21, Fraction::new(1, 2)).unwrap();
    // Known but never assigned.
    assert_eq!(
        board.release_pwm(22).err().unwrap(),
        RuntimeError::UnknownChannel
    );
    // Not configured at all.
    assert_eq!(
        board.release_pwm(23).err().unwrap(),
        RuntimeError::UnknownChannel
    );
    assert_eq!(board.num_active, 1);
}

#[test]
fn release_all_pwm_leaves_zero_active_channels_twice() {
    let mut board = test_board(vec![21, 22]);
    board.set_all_pwm(Fraction::new(1, 2)).unwrap();
    board.release_all_pwm().unwrap();
    assert_eq!(board.num_active, 0);
    assert!(board.pin2gpio.iter().all(|&p| p == 0));
    assert!(board
        .channel_pwm
        .iter()
        .all(|&f| f == Fraction::new(0, 1)));
    // The first release leaves the de-assert masks for the hardware to
    // drain the pins.
    assert!(has_bit(board.chain.samples[1], 21));

    board.release_all_pwm().unwrap();
    assert_eq!(board.num_active, 0);
    assert!(board.pin2gpio.iter().all(|&p| p == 0));
    assert!(board
        .channel_pwm
        .iter()
        .all(|&f| f == Fraction::new(0, 1)));
}

#[test]
fn invert_mode_swaps_registers_but_keeps_thresholds() {
    let mut board = test_board(vec![21, 22]);
    board.set_pwm(21, Fraction::new(1, 4)).unwrap();
    board.set_pwm(22, Fraction::new(3, 4)).unwrap();
    assert_eq!(board.chain.cbs[0].dst, GPSET0);
    assert_eq!(board.chain.cbs[2].dst, GPCLR0);
    let before = board.chain.samples.clone();

    board.set_invert_mode(true);
    // Every de-assert descriptor now targets the set register and the
    // assert descriptor the clear register...
    assert_eq!(board.chain.cbs[0].dst, GPCLR0);
    for j in 1..board.num_samples {
        assert_eq!(board.chain.cbs[2 * j].dst, GPSET0);
    }
    // ...while the duty-fraction thresholds are untouched.
    assert_eq!(board.chain.samples, before);

    board.set_invert_mode(false);
    assert_eq!(board.chain.cbs[0].dst, GPSET0);
    assert_eq!(board.chain.cbs[2].dst, GPCLR0);
    assert_eq!(board.chain.samples, before);
}

#[test]
fn terminate_zeroes_fractions_before_the_reset_step() {
    let mut board = test_board(vec![21, 22]);
    board.set_all_pwm(Fraction::new(1, 2)).unwrap();
    let ops = board.terminate();
    // Every fraction is zero by the time the reset op can run.
    assert!(board
        .channel_pwm
        .iter()
        .all(|&f| f == Fraction::new(0, 1)));
    assert_eq!(ops.len(), 1);
    assert_eq!(ops[0].periph, Periph::Dma);
    assert_eq!(ops[0].index, DMA_CS);
    assert_eq!(ops[0].value, DMA_RESET);
    // The final recompute parks every assigned pin de-asserted.
    assert_eq!(board.chain.samples[0], 0);
    for j in 1..board.num_samples {
        assert!(has_bit(board.chain.samples[j], 21));
        assert!(has_bit(board.chain.samples[j], 22));
    }
}

#[test]
fn terminate_is_idempotent() {
    let mut board = test_board(vec![21, 22]);
    board.set_all_pwm(Fraction::new(1, 2)).unwrap();
    board.terminate();
    let pins_after_first = board.pin2gpio.clone();
    let fracs_after_first = board.channel_pwm.clone();
    let samples_after_first = board.chain.samples.clone();
    let ops = board.terminate();
    assert_eq!(ops.len(), 1);
    assert_eq!(board.pin2gpio, pins_after_first);
    assert_eq!(board.channel_pwm, fracs_after_first);
    assert_eq!(board.chain.samples, samples_after_first);
}

#[test]
fn info_reports_the_exact_rates() {
    let board = test_board(vec![21, 22]);
    let info = board.info();
    assert!(!info.uses_pcm);
    assert_eq!(info.num_channels, 2);
    assert_eq!(info.pins, vec![21, 22]);
    // 500 MHz / (500 * 2000) = 500 Hz.
    assert_eq!(info.pwm_freq_num, 500_000_000);
    assert_eq!(info.pwm_freq_den, 1_000_000);
    assert_eq!(info.pwm_freq_num / info.pwm_freq_den, 500);
    assert_eq!(info.steps, 200);
    // 2000 us cycle, 10 us step.
    assert_eq!(info.max_period_ns, 2_000_000);
    assert_eq!(info.min_period_ns, 10_000);
    assert_eq!(info.dma_base, 0x3f007000);
}

#[test]
fn pwm_init_program_order() {
    let cb0 = (BUS_ADDR + 800) | 0x4000_0000;
    let ops = init_hardware_ops(0, 500, 10, cb0);
    assert_eq!(ops.len(), 13);
    assert_eq!(ops[0].periph, Periph::Pwm);
    assert_eq!(ops[0].value, 0);
    assert_eq!(ops[1].value, 0x5a000006);
    assert_eq!(ops[2].value, 0x5a000000 | (500 << 12));
    assert_eq!(ops[3].value, 0x5a000016);
    assert_eq!(ops[4].value, 10);
    assert_eq!(ops[5].value, 0x8000_0f0f);
    assert_eq!(ops[6].value, 0x40);
    assert_eq!(ops[7].value, 0x21);
    // The chain address is programmed strictly before the go word.
    assert_eq!(ops[8].value, DMA_RESET);
    assert_eq!(ops[10].index, DMA_CONBLK_AD);
    assert_eq!(ops[10].value, cb0);
    assert_eq!(ops[12].index, DMA_CS);
    assert_eq!(ops[12].value, DMA_GO);
}

#[test]
fn pcm_init_program_enables_transmit_last() {
    let cb0 = (BUS_ADDR + 800) | 0x4000_0000;
    let ops = init_hardware_ops(1, 50, 2, cb0);
    assert_eq!(ops.len(), 15);
    assert_eq!(ops[0].periph, Periph::Pcm);
    assert_eq!(ops[2].value, 0x5a000000 | (50 << 12));
    assert_eq!(ops[4].value, 0x4000_0000);
    assert_eq!(ops[5].value, 1 << 10);
    assert!(ops[6].set_bits);
    assert_eq!(ops[6].value, 0x18);
    assert_eq!(ops[7].value, 0x4000_4000);
    assert_eq!(ops[11].index, DMA_CONBLK_AD);
    assert_eq!(ops[13].value, DMA_GO);
    // Transmit is enabled only after the DMA engine is armed.
    let last = ops[14];
    assert_eq!(last.periph, Periph::Pcm);
    assert_eq!(last.index, PCM_CS_A);
    assert!(last.set_bits);
    assert_eq!(last.value, 4);
}

#[test]
fn runtime_and_teardown_error_messages() {
    assert_eq!(
        RuntimeError::UnknownChannel.message(),
        "pin is not one of the known pins"
    );
    assert_eq!(
        RuntimeError::FractionOutOfRange.message(),
        "duty fraction out of range"
    );
    assert_eq!(
        TeardownError::UnmapFailed.message(),
        "unmapping mailbox memory failed"
    );
}

#[test]
fn page_count_covers_the_allocation() {
    // 400 blocks of 32 bytes and 200 sample words of 4 bytes need 4 pages.
    assert_eq!(dma_gpio::chain::num_pages(200), 4);
    // A 1000-slot loop needs 2000 blocks and 1000 words: 17 pages.
    assert_eq!(dma_gpio::chain::num_pages(1000), 17);
    // Small loops keep the default capacity.
    assert_eq!(dma_gpio::chain::num_pages(2), 4);
}
