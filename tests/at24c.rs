use kallisto::at24c::{
    address_bytes, check_transfer, is_address_valid, At24cError, At24cMemSize, At24cState,
    I2cError, FRAME_LEN,
};

#[test]
fn address_range_per_size() {
    assert_eq!(is_address_valid(At24cMemSize::Kb128, 16_383), Ok(()));
    assert_eq!(is_address_valid(At24cMemSize::Kb128, 16_384), Err(At24cError::AddressOutOfRange));
    assert_eq!(is_address_valid(At24cMemSize::Kb256, 32_767), Ok(()));
    assert_eq!(is_address_valid(At24cMemSize::Kb256, 32_768), Err(At24cError::AddressOutOfRange));
}

#[test]
fn transfer_size_limit() {
    assert_eq!(check_transfer(At24cMemSize::Kb256, 0, 64), Ok(()));
    assert_eq!(check_transfer(At24cMemSize::Kb256, 0, 65), Err(At24cError::InvalidSize));
    assert_eq!(check_transfer(At24cMemSize::Kb128, 20_000, 65), Err(At24cError::AddressOutOfRange));
}

#[test]
fn address_bytes_high_first() {
    assert_eq!(address_bytes(0x1234), [0x12, 0x34]);
    assert_eq!(address_bytes(0x00FF), [0x00, 0xFF]);
}

#[test]
fn bus_error_converts() {
    assert_eq!(At24cError::from(I2cError::ReadError), At24cError::I2cError(I2cError::ReadError));
    let e: At24cError = I2cError::WriteError.into();
    assert_eq!(e, At24cError::I2cError(I2cError::WriteError));
}

#[test]
fn page_write_frame() {
    let mut st = At24cState::new(At24cMemSize::Kb256);
    assert_eq!(st.stage_write(0x0102, &[7, 8, 9]), Ok(()));
    let frame = st.tx_frame();
    assert_eq!(frame.len(), FRAME_LEN);
    assert_eq!(&frame[0..5], &[0x01, 0x02, 7, 8, 9]);
    assert!(frame[5..].iter().all(|b| *b == 0));
    st.complete_write(1_000);
    assert!(st.tx_frame().iter().all(|b| *b == 0));
}

#[test]
fn rejected_write_keeps_frame() {
    let mut st = At24cState::new(At24cMemSize::Kb128);
    let big = [1u8; 65];
    assert_eq!(st.stage_write(0, &big), Err(At24cError::InvalidSize));
    assert_eq!(st.stage_write(16_384, &[1]), Err(At24cError::AddressOutOfRange));
    assert!(st.tx_frame().iter().all(|b| *b == 0));
    assert_eq!(st.size(), At24cMemSize::Kb128);
}

#[test]
fn write_cycle_wait() {
    let mut st = At24cState::new(At24cMemSize::Kb256);
    st.complete_write(u32::MAX - 1_000);
    assert!(!st.write_cycle_done(2_000));
    assert!(st.write_cycle_done(4_000));
}
