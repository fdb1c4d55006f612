//! Board identification and peripheral address layout.
//!
//! The firmware reports a bit-packed revision word laid out as
//! `SRRR MMMM PPPP TTTT TTTT VVVV`: scheme, RAM size, manufacturer,
//! processor, board type and revision.  Decoding it yields a board
//! generation, and the generation fixes the physical window where the
//! peripheral registers live and the memory flags a DMA-visible
//! allocation must carry.

#![allow(non_snake_case)]

use vstd::prelude::*;
use crate::errors::PlatformError;
use crate::mailbox::{MEM_FLAG_L1_NONALLOCATING, MEM_FLAG_ZERO};

verus! {

/// Bit 23 distinguishes the old and the new revision scheme.
pub const BOARD_REVISION_SCHEME_MASK: u32 = 0x800000;

pub const BOARD_REVISION_SCHEME_OLD: u32 = 0x000000;

pub const BOARD_REVISION_SCHEME_NEW: u32 = 0x800000;

pub const BOARD_REVISION_RAM_MASK: u32 = 0x700000;

pub const BOARD_REVISION_MANUFACTURER_MASK: u32 = 0xf0000;

pub const BOARD_REVISION_PROCESSOR_MASK: u32 = 0xf000;

/// The board-type field: bits 4..12.
pub const BOARD_REVISION_TYPE_MASK: u32 = 0xff0;

pub const BOARD_REVISION_TYPE_PI1_A: u32 = 0x00;

pub const BOARD_REVISION_TYPE_PI1_B: u32 = 0x10;

pub const BOARD_REVISION_TYPE_PI1_A_PLUS: u32 = 0x20;

pub const BOARD_REVISION_TYPE_PI1_B_PLUS: u32 = 0x30;

pub const BOARD_REVISION_TYPE_PI2_B: u32 = 0x40;

pub const BOARD_REVISION_TYPE_ALPHA: u32 = 0x50;

pub const BOARD_REVISION_TYPE_CM: u32 = 0x60;

pub const BOARD_REVISION_TYPE_PI3_B: u32 = 0x80;

pub const BOARD_REVISION_TYPE_CM3: u32 = 0xa0;

pub const BOARD_REVISION_TYPE_PI3_BP: u32 = 0xd0;

pub const BOARD_REVISION_REV_MASK: u32 = 0xf;

/// Peripheral window of the first board generation.
pub const PERIPH_VIRT_BASE_GEN1: u32 = 0x20000000;

/// Peripheral window of the second and third board generations.
pub const PERIPH_VIRT_BASE_GEN23: u32 = 0x3f000000;

/// The peripheral window as the DMA engine and the firmware see it; the
/// same on every generation.
pub const PERIPH_PHYS_BASE: u32 = 0x7e000000;

/// The memory flags of a DMA-visible allocation: zero-initialised and
/// non-allocating in the L1 cache, so stores need no explicit flush.
pub const DMA_MEM_FLAG: u32 = 28;

/// Offset of the DMA channel windows within the peripheral window.
pub const DMA_BASE_OFFSET: u32 = 0x7000;

/// Register-space size of a single DMA channel.
pub const DMA_CHAN_SIZE: u32 = 0x100;

/// Highest DMA channel mapped at the DMA base; channel 15 lives
/// elsewhere and is left alone.
pub const DMA_CHAN_MAX: u32 = 14;

/// The DMA channel the engine uses.
pub const DMA_CHAN_NUM: u32 = 14;

pub const PWM_BASE_OFFSET: u32 = 0x20c000;

pub const PWM_LEN: u32 = 0x28;

pub const CLK_BASE_OFFSET: u32 = 0x101000;

pub const CLK_LEN: u32 = 0xa8;

pub const GPIO_BASE_OFFSET: u32 = 0x200000;

pub const GPIO_LEN: u32 = 0x100;

pub const PCM_BASE_OFFSET: u32 = 0x203000;

pub const PCM_LEN: u32 = 0x24;

/// Whether the revision word uses the new bit-packed scheme.
pub open spec fn spec_scheme_new(rev: u32) -> bool {
    rev & BOARD_REVISION_SCHEME_MASK == BOARD_REVISION_SCHEME_NEW
}

/// The board-type field of a revision word.
pub open spec fn spec_type_field(rev: u32) -> u32 {
    rev & BOARD_REVISION_TYPE_MASK
}

/// Whether the board-type field matches a known board.
pub open spec fn spec_known_type(rev: u32) -> bool {
    spec_type_field(rev) == BOARD_REVISION_TYPE_PI1_A || spec_type_field(rev)
        == BOARD_REVISION_TYPE_PI1_B || spec_type_field(rev) == BOARD_REVISION_TYPE_PI1_A_PLUS
        || spec_type_field(rev) == BOARD_REVISION_TYPE_PI1_B_PLUS || spec_type_field(rev)
        == BOARD_REVISION_TYPE_PI2_B || spec_type_field(rev) == BOARD_REVISION_TYPE_ALPHA
        || spec_type_field(rev) == BOARD_REVISION_TYPE_CM || spec_type_field(rev)
        == BOARD_REVISION_TYPE_PI3_B || spec_type_field(rev) == BOARD_REVISION_TYPE_CM3
        || spec_type_field(rev) == BOARD_REVISION_TYPE_PI3_BP
}

/// Whether a revision word decodes to some board generation: an old-scheme
/// word always does, a new-scheme word only when its type field is known.
pub open spec fn spec_decodes(rev: u32) -> bool {
    spec_scheme_new(rev) ==> spec_known_type(rev)
}

/// The board generation (1, 2 or 3) of a decodable revision word.
pub open spec fn spec_board_model(rev: u32) -> u32 {
    if spec_scheme_new(rev) {
        if spec_type_field(rev) == BOARD_REVISION_TYPE_PI2_B {
            2u32
        } else if spec_type_field(rev) == BOARD_REVISION_TYPE_PI3_B || spec_type_field(rev)
            == BOARD_REVISION_TYPE_PI3_BP || spec_type_field(rev) == BOARD_REVISION_TYPE_CM3 {
            3u32
        } else {
            1u32
        }
    } else {
        1u32
    }
}

/// The peripheral base addresses and allocation flags of one board
/// generation.
#[derive(Clone, Copy, Debug, PartialEq, Eq, Structural)]
pub struct Platform {
    /// Where the process must map the peripheral window from.
    pub periph_virt_base: u32,
    /// Where the peripherals sit on the bus the DMA engine uses.
    pub periph_phys_base: u32,
    /// The flags a mailbox allocation must carry to be DMA-coherent.
    pub mem_flag: u32,
}

/// The platform parameters of board generation `model`.
pub open spec fn spec_platform_of_model(model: u32) -> Platform {
    Platform {
        periph_virt_base: if model == 1 {
            PERIPH_VIRT_BASE_GEN1
        } else {
            PERIPH_VIRT_BASE_GEN23
        },
        periph_phys_base: PERIPH_PHYS_BASE,
        mem_flag: DMA_MEM_FLAG,
    }
}

/// Decodes a revision word into a board generation.  Fails only when the
/// word uses the new scheme and its type field matches no known board;
/// writing registers at guessed addresses would be worse than refusing.
pub fn board_model(rev: u32) -> (r: Result<u32, PlatformError>)
    ensures
        r is Ok <==> spec_decodes(rev),
        r is Ok ==> r->Ok_0 == spec_board_model(rev),
        r is Err ==> r->Err_0 == PlatformError::UnknownBoardModel,
{
    if rev & BOARD_REVISION_SCHEME_MASK == BOARD_REVISION_SCHEME_NEW {
        let type_field = rev & BOARD_REVISION_TYPE_MASK;
        if type_field == BOARD_REVISION_TYPE_PI2_B {
            Ok(2)
        } else if type_field == BOARD_REVISION_TYPE_PI3_B || type_field
            == BOARD_REVISION_TYPE_PI3_BP || type_field == BOARD_REVISION_TYPE_CM3 {
            Ok(3)
        } else if type_field == BOARD_REVISION_TYPE_PI1_A || type_field
            == BOARD_REVISION_TYPE_PI1_B || type_field == BOARD_REVISION_TYPE_PI1_A_PLUS
            || type_field == BOARD_REVISION_TYPE_PI1_B_PLUS || type_field
            == BOARD_REVISION_TYPE_ALPHA || type_field == BOARD_REVISION_TYPE_CM {
            Ok(1)
        } else {
            Err(PlatformError::UnknownBoardModel)
        }
    } else {
        Ok(1)
    }
}

/// Decodes a revision word into the peripheral bases and memory flags of
/// the board it names.
pub fn get_model(mbox_board_rev: u32) -> (r: Result<Platform, PlatformError>)
    ensures
        r is Ok <==> spec_decodes(mbox_board_rev),
        r is Ok ==> r->Ok_0 == spec_platform_of_model(spec_board_model(mbox_board_rev)),
        r is Err ==> r->Err_0 == PlatformError::UnknownBoardModel,
{
    let model = match board_model(mbox_board_rev) {
        Ok(m) => m,
        Err(e) => {
            return Err(e);
        },
    };
    proof {
        assert((MEM_FLAG_L1_NONALLOCATING | MEM_FLAG_ZERO) == 28u32) by (bit_vector);
    }
    let mem_flag = MEM_FLAG_L1_NONALLOCATING | MEM_FLAG_ZERO;
    if model == 1 {
        Ok(
            Platform {
                periph_virt_base: PERIPH_VIRT_BASE_GEN1,
                periph_phys_base: PERIPH_PHYS_BASE,
                mem_flag,
            },
        )
    } else {
        Ok(
            Platform {
                periph_virt_base: PERIPH_VIRT_BASE_GEN23,
                periph_phys_base: PERIPH_PHYS_BASE,
                mem_flag,
            },
        )
    }
}

/// Strips the bus-alias bits from a bus address, yielding the physical
/// address the process can map.
pub fn BUS_TO_PHYS(x: u32) -> (r: u32)
    ensures
        r == x & 0x3fffffffu32,
{
    proof {
        assert(x & !0xc0000000u32 == x & 0x3fffffffu32) by (bit_vector);
    }
    x & !0xc0000000
}

} // verus!
