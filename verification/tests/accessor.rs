use gamecheat::game_handle::composite_add;
use gamecheat::game_handle::composite_subtract;
use gamecheat::game_handle::finish_read_u16;
use gamecheat::game_handle::finish_read_u32;
use gamecheat::game_handle::finish_read_u8;
use gamecheat::game_handle::finish_write;
use gamecheat::game_handle::write_bytes_u16;
use gamecheat::game_handle::write_bytes_u32;
use gamecheat::game_handle::write_bytes_u8;
use gamecheat::game_handle::GameHandle;
use gamecheat::GamecheatError;

#[test]
fn accessor_keeps_handle_and_image_base() {
    let h = GameHandle::new(0x1234, 0x7ff6_4000_0000);
    assert_eq!(h.handle(), 0x1234);
    assert_eq!(h.image_base(), 0x7ff6_4000_0000);
}

#[test]
fn release_hands_back_the_owned_handle() {
    let h = GameHandle::new(0xbeef, 0x1000);
    assert_eq!(h.release(), 0xbeef);
}

#[test]
fn target_address_adds_offset_to_image_base() {
    let h = GameHandle::new(1, 0x1_0000);
    assert_eq!(h.target_address(0x1cdbc74), 0x1_0000 + 0x1cdbc74);
    assert_eq!(h.target_address(0), 0x1_0000);
}

#[test]
fn target_address_wraps_in_64_bit_space() {
    let h = GameHandle::new(1, u64::MAX);
    assert_eq!(h.target_address(2), 1);
}

#[test]
fn write_bytes_encode_little_endian() {
    assert_eq!(write_bytes_u8(0xab), vec![0xab]);
    assert_eq!(write_bytes_u16(0x1234), vec![0x34, 0x12]);
    assert_eq!(write_bytes_u32(0x12345678), vec![0x78, 0x56, 0x34, 0x12]);
}

#[test]
fn read_decodes_little_endian() {
    assert_eq!(finish_read_u8(true, 0, 1, &[0x2a]), Ok(0x2a));
    assert_eq!(finish_read_u16(true, 0, 2, &[0x34, 0x12]), Ok(0x1234));
    assert_eq!(finish_read_u32(true, 0, 4, &[0x78, 0x56, 0x34, 0x12]), Ok(0x12345678));
}

#[test]
fn write_then_read_round_trips_every_width() {
    for &v in &[0u8, 1, 0x7f, 0xff] {
        let bytes = write_bytes_u8(v);
        assert_eq!(finish_read_u8(true, 0, bytes.len(), &bytes), Ok(v));
    }
    for &v in &[0u16, 1, 0xabcd, u16::MAX] {
        let bytes = write_bytes_u16(v);
        assert_eq!(finish_read_u16(true, 0, bytes.len(), &bytes), Ok(v));
    }
    for &v in &[0u32, 1, 10, 999999, 0xdead_beef, u32::MAX] {
        let bytes = write_bytes_u32(v);
        assert_eq!(finish_read_u32(true, 0, bytes.len(), &bytes), Ok(v));
    }
}

#[test]
fn short_read_is_a_read_failure() {
    let buffer = [0x78, 0x56, 0x34, 0x12];
    assert_eq!(
        finish_read_u32(true, 0, 2, &buffer),
        Err(GamecheatError::ReadFailure { os_error: 0 })
    );
    assert_eq!(
        finish_read_u16(true, 3, 1, &buffer[..2]),
        Err(GamecheatError::ReadFailure { os_error: 3 })
    );
    assert_eq!(
        finish_read_u8(true, 4, 0, &buffer[..1]),
        Err(GamecheatError::ReadFailure { os_error: 4 })
    );
}

#[test]
fn failed_read_is_a_read_failure() {
    let buffer = [0u8; 4];
    assert_eq!(
        finish_read_u32(false, 299, 4, &buffer),
        Err(GamecheatError::ReadFailure { os_error: 299 })
    );
}

#[test]
fn complete_write_succeeds() {
    assert_eq!(finish_write(true, 0, 4, 4), Ok(()));
    assert_eq!(finish_write(true, 0, 1, 1), Ok(()));
}

#[test]
fn short_or_failed_write_is_a_write_failure() {
    assert_eq!(finish_write(true, 8, 3, 4), Err(GamecheatError::WriteFailure { os_error: 8 }));
    assert_eq!(finish_write(false, 5, 4, 4), Err(GamecheatError::WriteFailure { os_error: 5 }));
}

#[test]
fn composite_add_applies_delta() {
    assert_eq!(composite_add(10, 5), Ok(15));
    let bytes = write_bytes_u32(15);
    assert_eq!(finish_read_u32(true, 0, bytes.len(), &bytes), Ok(15));
}

#[test]
fn composite_add_reports_overflow_instead_of_wrapping() {
    assert_eq!(composite_add(0xFFFFFFFF, 1), Err(GamecheatError::ArithmeticOverflow));
    assert_eq!(composite_add(u32::MAX, u32::MAX), Err(GamecheatError::ArithmeticOverflow));
    assert_eq!(composite_add(u32::MAX, 0), Ok(u32::MAX));
}

#[test]
fn composite_subtract_applies_delta() {
    assert_eq!(composite_subtract(10, 4), Ok(6));
    assert_eq!(composite_subtract(5, 5), Ok(0));
}

#[test]
fn composite_subtract_reports_underflow_instead_of_wrapping() {
    assert_eq!(composite_subtract(3, 5), Err(GamecheatError::ArithmeticUnderflow));
    assert_eq!(composite_subtract(0, 1), Err(GamecheatError::ArithmeticUnderflow));
}
