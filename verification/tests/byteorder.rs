use ethernet::byteorder::{htons, ntohs};

#[test]
fn htons_puts_the_high_byte_first_in_memory() {
    assert_eq!(htons(0x1234).to_ne_bytes(), [0x12, 0x34]);
    assert_eq!(htons(0xBEEF).to_ne_bytes(), [0xBE, 0xEF]);
    assert_eq!(htons(0x0100).to_ne_bytes(), [0x01, 0x00]);
    assert_eq!(htons(0x0001).to_ne_bytes(), [0x00, 0x01]);
}

#[test]
fn ntohs_reads_the_high_byte_first_from_memory() {
    assert_eq!(ntohs(u16::from_ne_bytes([0x12, 0x34])), 0x1234);
    assert_eq!(ntohs(u16::from_ne_bytes([0x00, 0x35])), 53);
}

#[test]
fn the_result_is_the_number_or_the_number_with_its_bytes_exchanged() {
    for u in 0..=u16::MAX {
        let n = htons(u);
        assert!(n == u || n == u.swap_bytes());
        let h = ntohs(u);
        assert!(h == u || h == u.swap_bytes());
    }
}

#[test]
fn ntohs_undoes_htons() {
    for u in 0..=u16::MAX {
        assert_eq!(ntohs(htons(u)), u);
        assert_eq!(htons(ntohs(u)), u);
    }
}

#[test]
fn numbers_with_equal_bytes_stay() {
    for u in [0x0000u16, 0x0101, 0x7F7F, 0xFFFF] {
        assert_eq!(htons(u), u);
        assert_eq!(ntohs(u), u);
    }
}
