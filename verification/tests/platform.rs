use dma_gpio::errors::PlatformError;
use dma_gpio::platform::{board_model, get_model, BUS_TO_PHYS};

#[test]
fn pi3_revision_decodes_to_generation_3() {
    // New scheme, board type 8.
    assert_eq!(board_model(0x00a02082).unwrap(), 3);
    let p = get_model(0x00a02082).unwrap();
    assert_eq!(p.periph_virt_base, 0x3f000000);
    assert_eq!(p.periph_phys_base, 0x7e000000);
    assert_eq!(p.mem_flag, 28);
}

#[test]
fn pi2_revision_decodes_to_generation_2() {
    // New scheme, board type 4.
    assert_eq!(board_model(0x00a01041).unwrap(), 2);
    assert_eq!(get_model(0x00a01041).unwrap().periph_virt_base, 0x3f000000);
}

#[test]
fn old_scheme_revision_decodes_to_generation_1() {
    assert_eq!(board_model(0x0000000e).unwrap(), 1);
    let p = get_model(0x0000000e).unwrap();
    assert_eq!(p.periph_virt_base, 0x20000000);
    assert_eq!(p.periph_phys_base, 0x7e000000);
}

#[test]
fn new_scheme_pi1_types_decode_to_generation_1() {
    for type_field in [0x00u32, 0x10, 0x20, 0x30, 0x50, 0x60] {
        let rev = 0x00800000 | type_field | 0x2;
        assert_eq!(board_model(rev).unwrap(), 1);
    }
}

#[test]
fn compute_module_3_decodes_to_generation_3() {
    assert_eq!(board_model(0x00800000 | 0xa0).unwrap(), 3);
    assert_eq!(board_model(0x00800000 | 0xd0).unwrap(), 3);
}

#[test]
fn unknown_board_type_is_refused() {
    let r = board_model(0x00800000 | 0x70);
    assert_eq!(r.err().unwrap(), PlatformError::UnknownBoardModel);
    assert!(get_model(0x00800000 | 0x70).is_err());
}

#[test]
fn bus_alias_bits_are_stripped() {
    assert_eq!(BUS_TO_PHYS(0xc0001234), 0x00001234);
    assert_eq!(BUS_TO_PHYS(0x40001234), 0x00001234);
    assert_eq!(BUS_TO_PHYS(0x00001234), 0x00001234);
}

#[test]
fn platform_error_messages() {
    assert_eq!(
        PlatformError::UnknownBoardModel.message(),
        "unable to detect board model from board revision"
    );
    assert_eq!(
        PlatformError::PeripheralMapFailed.message(),
        "failed to map peripheral"
    );
}
