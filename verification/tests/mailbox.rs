use dma_gpio::ioctl::{_IO, _IOC, _IOC_DIR, _IOC_NR, _IOC_SIZE, _IOC_TYPE, _IOR, _IOW, _IOWR};
use dma_gpio::mailbox;

fn assert_message(words: &[u32], prefix: &[u32]) {
    assert_eq!(words.len(), 32);
    assert_eq!(&words[..prefix.len()], prefix);
    for &w in &words[prefix.len()..] {
        assert_eq!(w, 0);
    }
}

#[test]
fn mem_alloc_message_layout() {
    let p = mailbox::mem_alloc(0x8000, 4096, 28);
    assert_message(&p, &[36, 0, 0x3000c, 12, 12, 0x8000, 4096, 28, 0]);
}

#[test]
fn mem_free_message_layout() {
    let p = mailbox::mem_free(0x77);
    assert_message(&p, &[28, 0, 0x3000f, 4, 4, 0x77, 0]);
}

#[test]
fn mem_lock_message_layout() {
    let p = mailbox::mem_lock(0x77);
    assert_message(&p, &[28, 0, 0x3000d, 4, 4, 0x77, 0]);
}

#[test]
fn mem_unlock_message_layout() {
    let p = mailbox::mem_unlock(0x77);
    assert_message(&p, &[28, 0, 0x3000e, 4, 4, 0x77, 0]);
}

#[test]
fn execute_code_message_layout() {
    let p = mailbox::execute_code(0x100, 1, 2, 3, 4, 5, 6);
    assert_message(&p, &[52, 0, 0x30010, 28, 28, 0x100, 1, 2, 3, 4, 5, 6, 0]);
}

#[test]
fn qpu_enable_message_layout() {
    let p = mailbox::qpu_enable(1);
    assert_message(&p, &[28, 0, 0x30012, 4, 4, 1, 0]);
}

#[test]
fn execute_qpu_message_layout() {
    let p = mailbox::execute_qpu(8, 0x200, 0, 5000);
    assert_message(&p, &[40, 0, 0x30011, 16, 16, 8, 0x200, 0, 5000, 0]);
}

#[test]
fn query_message_layouts() {
    assert_message(
        &mailbox::get_firmware_revision(),
        &[28, 0, 0x10000, 4, 0, 0, 0],
    );
    assert_message(&mailbox::get_board_model(), &[28, 0, 0x10001, 4, 0, 0, 0]);
    assert_message(
        &mailbox::get_board_revision(),
        &[28, 0, 0x10002, 4, 0, 0, 0],
    );
    assert_message(&mailbox::get_dma_channels(), &[28, 0, 0x60001, 4, 0, 0, 0]);
}

#[test]
fn response_is_read_where_the_argument_was_written() {
    let mut p = mailbox::get_board_revision();
    // The firmware overwrites the argument slot in place.
    p[5] = 0x00a02082;
    assert_eq!(mailbox::response_value(&p), 0x00a02082);
}

#[test]
fn property_ioctl_code() {
    // Read|write, the mailbox major number as the type, request 0, and a
    // four-byte argument.
    assert_eq!(mailbox::mbox_property_code(), 0xc0046400);
    assert_eq!(_IOWR(100, 0, 4), 0xc0046400);
}

#[test]
fn ioctl_code_construction() {
    assert_eq!(_IOC(1, 0, 0, 0), 1 << 29);
    assert_eq!(_IO(0xab, 3), (1 << 29) | (0xab << 8) | 3);
    assert_eq!(_IOR(0xab, 3, 8), (2 << 29) | (8 << 16) | (0xab << 8) | 3);
    assert_eq!(_IOW(0xab, 3, 8), (4 << 29) | (8 << 16) | (0xab << 8) | 3);
}

#[test]
fn ioctl_code_decoding() {
    let code = _IOWR(100, 7, 4);
    assert_eq!(_IOC_DIR(code), 6);
    assert_eq!(_IOC_TYPE(code), 100);
    assert_eq!(_IOC_NR(code), 7);
    assert_eq!(_IOC_SIZE(code), 4);
}
