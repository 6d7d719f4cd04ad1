use invelion::codes::CommandType;
use invelion::codes::FrequencyRegion;
use invelion::codes::MemoryBank;
use invelion::codes::ResponseCode;

#[test]
fn command_bytes() {
    assert_eq!(CommandType::Reset.to_byte(), 0x70);
    assert_eq!(CommandType::GetFirmwareVersion.to_byte(), 0x72);
    assert_eq!(CommandType::ReadGPIOValue.to_byte(), 0x60);
    assert_eq!(CommandType::GetRFPortReturnLoss.to_byte(), 0x7E);
    assert_eq!(CommandType::Read.to_byte(), 0x81);
    assert_eq!(CommandType::RealTimeInventory.to_byte(), 0x89);
    assert_eq!(CommandType::GetImpinjFastTID.to_byte(), 0x8E);
    assert_eq!(CommandType::QueryLock6B.to_byte(), 0xB4);
    assert_eq!(CommandType::ResetInventoryBuffer.to_byte(), 0x93);
}

#[test]
fn command_bytes_are_a_bijection() {
    let mut known = 0;
    for byte in 0..=255u8 {
        if let Some(command) = CommandType::from_byte(byte) {
            assert_eq!(command.to_byte(), byte);
            known += 1;
        }
    }
    assert_eq!(known, 44);
    assert_eq!(CommandType::from_byte(0x00), None);
    assert_eq!(CommandType::from_byte(0x64), None);
    assert_eq!(CommandType::from_byte(0x87), None);
    assert_eq!(CommandType::from_byte(0xFF), None);
}

#[test]
fn status_bytes_are_a_bijection() {
    let mut known = 0;
    for byte in 0..=255u8 {
        if let Some(status) = ResponseCode::from_byte(byte) {
            assert_eq!(status.to_byte(), byte);
            known += 1;
        }
    }
    assert_eq!(known, 40);
    assert_eq!(ResponseCode::from_byte(0x10), Some(ResponseCode::Success));
    assert_eq!(ResponseCode::from_byte(0x36), Some(ResponseCode::NoTagError));
    assert_eq!(ResponseCode::from_byte(0x57), Some(ResponseCode::OutputPowerTooLowError));
    assert_eq!(ResponseCode::from_byte(0x00), None);
    assert_eq!(ResponseCode::from_byte(0x30), None);
}

#[test]
fn regions_and_banks() {
    assert_eq!(FrequencyRegion::from_byte(1), Some(FrequencyRegion::FCC));
    assert_eq!(FrequencyRegion::from_byte(2), Some(FrequencyRegion::ETSI));
    assert_eq!(FrequencyRegion::from_byte(3), Some(FrequencyRegion::CHN));
    assert_eq!(FrequencyRegion::from_byte(4), Some(FrequencyRegion::UserDefined));
    assert_eq!(FrequencyRegion::from_byte(0), None);
    assert_eq!(FrequencyRegion::from_byte(5), None);
    assert_eq!(FrequencyRegion::UserDefined.to_byte(), 4);
    assert_eq!(MemoryBank::Reserved.to_byte(), 0);
    assert_eq!(MemoryBank::EPC.to_byte(), 1);
    assert_eq!(MemoryBank::TID.to_byte(), 2);
    assert_eq!(MemoryBank::User.to_byte(), 3);
    assert_eq!(MemoryBank::from_byte(2), Some(MemoryBank::TID));
    assert_eq!(MemoryBank::from_byte(4), None);
}
