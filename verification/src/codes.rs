//! The closed tables of the protocol: operation codes, status codes,
//! frequency regions and tag memory banks, each with its wire byte.

use vstd::prelude::*;

verus! {

/// Operation code of a command or of the response to it.
#[derive(Clone, Copy, Debug, PartialEq, Eq, Structural)]
pub enum CommandType {
    // Reader configuration
    Reset,
    SetUARTBaudRate,
    GetFirmwareVersion,
    SetReaderAddress,
    SetWorkAntenna,
    GetWorkAntenna,
    SetOutputPower,
    GetOutputPower,
    SetFrequencyRegion,
    GetFrequencyRegion,
    SetBeeperMode,
    GetReaderTemperature,
    ReadGPIOValue,
    WriteGPIOValue,
    SetAntConnectionDetector,
    GetAntConnectionDetector,
    SetTemporaryOutputPower,
    SetReaderIdentifier,
    GetReaderIdentifier,
    SetRFLinkProfile,
    GetRFLinkProfile,
    GetRFPortReturnLoss,
    // ISO 18000-6C tag operations
    Inventory,
    Read,
    Write,
    Lock,
    Kill,
    SetAccessEPCMatch,
    GetAccessEPCMatch,
    RealTimeInventory,
    FastSwitchAntInventory,
    CustomizedSessionTargetInventory,
    SetImpinjFastTID,
    SetAndSaveImpinjFastTIC,
    GetImpinjFastTID,
    // ISO 18000-6B tag operations
    Inventory6B,
    Read6B,
    Write6B,
    Lock6B,
    QueryLock6B,
    // Inventory buffer operations
    GetInventoryBuffer,
    GetAndResetInventoryBuffer,
    GetBufferTagCount,
    ResetInventoryBuffer,
}

impl CommandType {
    /// The byte that stands for this value on the wire.
    pub open spec fn spec_to_byte(self) -> u8 {
        match self {
            CommandType::Reset => 0x70,
            CommandType::SetUARTBaudRate => 0x71,
            CommandType::GetFirmwareVersion => 0x72,
            CommandType::SetReaderAddress => 0x73,
            CommandType::SetWorkAntenna => 0x74,
            CommandType::GetWorkAntenna => 0x75,
            CommandType::SetOutputPower => 0x76,
            CommandType::GetOutputPower => 0x77,
            CommandType::SetFrequencyRegion => 0x78,
            CommandType::GetFrequencyRegion => 0x79,
            CommandType::SetBeeperMode => 0x7A,
            CommandType::GetReaderTemperature => 0x7B,
            CommandType::ReadGPIOValue => 0x60,
            CommandType::WriteGPIOValue => 0x61,
            CommandType::SetAntConnectionDetector => 0x62,
            CommandType::GetAntConnectionDetector => 0x63,
            CommandType::SetTemporaryOutputPower => 0x66,
            CommandType::SetReaderIdentifier => 0x67,
            CommandType::GetReaderIdentifier => 0x68,
            CommandType::SetRFLinkProfile => 0x69,
            CommandType::GetRFLinkProfile => 0x6A,
            CommandType::GetRFPortReturnLoss => 0x7E,
            CommandType::Inventory => 0x80,
            CommandType::Read => 0x81,
            CommandType::Write => 0x82,
            CommandType::Lock => 0x83,
            CommandType::Kill => 0x84,
            CommandType::SetAccessEPCMatch => 0x85,
            CommandType::GetAccessEPCMatch => 0x86,
            CommandType::RealTimeInventory => 0x89,
            CommandType::FastSwitchAntInventory => 0x8A,
            CommandType::CustomizedSessionTargetInventory => 0x8B,
            CommandType::SetImpinjFastTID => 0x8C,
            CommandType::SetAndSaveImpinjFastTIC => 0x8D,
            CommandType::GetImpinjFastTID => 0x8E,
            CommandType::Inventory6B => 0xB0,
            CommandType::Read6B => 0xB1,
            CommandType::Write6B => 0xB2,
            CommandType::Lock6B => 0xB3,
            CommandType::QueryLock6B => 0xB4,
            CommandType::GetInventoryBuffer => 0x90,
            CommandType::GetAndResetInventoryBuffer => 0x91,
            CommandType::GetBufferTagCount => 0x92,
            CommandType::ResetInventoryBuffer => 0x93,
        }
    }

    /// The value that `byte` stands for, if it stands for one.
    pub open spec fn spec_from_byte(byte: u8) -> Option<CommandType> {
        match byte {
            0x70 => Some(CommandType::Reset),
            0x71 => Some(CommandType::SetUARTBaudRate),
            0x72 => Some(CommandType::GetFirmwareVersion),
            0x73 => Some(CommandType::SetReaderAddress),
            0x74 => Some(CommandType::SetWorkAntenna),
            0x75 => Some(CommandType::GetWorkAntenna),
            0x76 => Some(CommandType::SetOutputPower),
            0x77 => Some(CommandType::GetOutputPower),
            0x78 => Some(CommandType::SetFrequencyRegion),
            0x79 => Some(CommandType::GetFrequencyRegion),
            0x7A => Some(CommandType::SetBeeperMode),
            0x7B => Some(CommandType::GetReaderTemperature),
            0x60 => Some(CommandType::ReadGPIOValue),
            0x61 => Some(CommandType::WriteGPIOValue),
            0x62 => Some(CommandType::SetAntConnectionDetector),
            0x63 => Some(CommandType::GetAntConnectionDetector),
            0x66 => Some(CommandType::SetTemporaryOutputPower),
            0x67 => Some(CommandType::SetReaderIdentifier),
            0x68 => Some(CommandType::GetReaderIdentifier),
            0x69 => Some(CommandType::SetRFLinkProfile),
            0x6A => Some(CommandType::GetRFLinkProfile),
            0x7E => Some(CommandType::GetRFPortReturnLoss),
            0x80 => Some(CommandType::Inventory),
            0x81 => Some(CommandType::Read),
            0x82 => Some(CommandType::Write),
            0x83 => Some(CommandType::Lock),
            0x84 => Some(CommandType::Kill),
            0x85 => Some(CommandType::SetAccessEPCMatch),
            0x86 => Some(CommandType::GetAccessEPCMatch),
            0x89 => Some(CommandType::RealTimeInventory),
            0x8A => Some(CommandType::FastSwitchAntInventory),
            0x8B => Some(CommandType::CustomizedSessionTargetInventory),
            0x8C => Some(CommandType::SetImpinjFastTID),
            0x8D => Some(CommandType::SetAndSaveImpinjFastTIC),
            0x8E => Some(CommandType::GetImpinjFastTID),
            0xB0 => Some(CommandType::Inventory6B),
            0xB1 => Some(CommandType::Read6B),
            0xB2 => Some(CommandType::Write6B),
            0xB3 => Some(CommandType::Lock6B),
            0xB4 => Some(CommandType::QueryLock6B),
            0x90 => Some(CommandType::GetInventoryBuffer),
            0x91 => Some(CommandType::GetAndResetInventoryBuffer),
            0x92 => Some(CommandType::GetBufferTagCount),
            0x93 => Some(CommandType::ResetInventoryBuffer),
            _ => None,
        }
    }

    /// Encodes this value as its wire byte.
    #[verifier::when_used_as_spec(spec_to_byte)]
    pub fn to_byte(self) -> (byte: u8)
        ensures
            byte == self.spec_to_byte(),
    {
        match self {
            CommandType::Reset => 0x70,
            CommandType::SetUARTBaudRate => 0x71,
            CommandType::GetFirmwareVersion => 0x72,
            CommandType::SetReaderAddress => 0x73,
            CommandType::SetWorkAntenna => 0x74,
            CommandType::GetWorkAntenna => 0x75,
            CommandType::SetOutputPower => 0x76,
            CommandType::GetOutputPower => 0x77,
            CommandType::SetFrequencyRegion => 0x78,
            CommandType::GetFrequencyRegion => 0x79,
            CommandType::SetBeeperMode => 0x7A,
            CommandType::GetReaderTemperature => 0x7B,
            CommandType::ReadGPIOValue => 0x60,
            CommandType::WriteGPIOValue => 0x61,
            CommandType::SetAntConnectionDetector => 0x62,
            CommandType::GetAntConnectionDetector => 0x63,
            CommandType::SetTemporaryOutputPower => 0x66,
            CommandType::SetReaderIdentifier => 0x67,
            CommandType::GetReaderIdentifier => 0x68,
            CommandType::SetRFLinkProfile => 0x69,
            CommandType::GetRFLinkProfile => 0x6A,
            CommandType::GetRFPortReturnLoss => 0x7E,
            CommandType::Inventory => 0x80,
            CommandType::Read => 0x81,
            CommandType::Write => 0x82,
            CommandType::Lock => 0x83,
            CommandType::Kill => 0x84,
            CommandType::SetAccessEPCMatch => 0x85,
            CommandType::GetAccessEPCMatch => 0x86,
            CommandType::RealTimeInventory => 0x89,
            CommandType::FastSwitchAntInventory => 0x8A,
            CommandType::CustomizedSessionTargetInventory => 0x8B,
            CommandType::SetImpinjFastTID => 0x8C,
            CommandType::SetAndSaveImpinjFastTIC => 0x8D,
            CommandType::GetImpinjFastTID => 0x8E,
            CommandType::Inventory6B => 0xB0,
            CommandType::Read6B => 0xB1,
            CommandType::Write6B => 0xB2,
            CommandType::Lock6B => 0xB3,
            CommandType::QueryLock6B => 0xB4,
            CommandType::GetInventoryBuffer => 0x90,
            CommandType::GetAndResetInventoryBuffer => 0x91,
            CommandType::GetBufferTagCount => 0x92,
            CommandType::ResetInventoryBuffer => 0x93,
        }
    }

    /// Decodes a wire byte. Bytes outside the table are refused, never
    /// mapped to a default.
    #[verifier::when_used_as_spec(spec_from_byte)]
    pub fn from_byte(byte: u8) -> (value: Option<CommandType>)
        ensures
            value == CommandType::spec_from_byte(byte),
    {
        match byte {
            0x70 => Some(CommandType::Reset),
            0x71 => Some(CommandType::SetUARTBaudRate),
            0x72 => Some(CommandType::GetFirmwareVersion),
            0x73 => Some(CommandType::SetReaderAddress),
            0x74 => Some(CommandType::SetWorkAntenna),
            0x75 => Some(CommandType::GetWorkAntenna),
            0x76 => Some(CommandType::SetOutputPower),
            0x77 => Some(CommandType::GetOutputPower),
            0x78 => Some(CommandType::SetFrequencyRegion),
            0x79 => Some(CommandType::GetFrequencyRegion),
            0x7A => Some(CommandType::SetBeeperMode),
            0x7B => Some(CommandType::GetReaderTemperature),
            0x60 => Some(CommandType::ReadGPIOValue),
            0x61 => Some(CommandType::WriteGPIOValue),
            0x62 => Some(CommandType::SetAntConnectionDetector),
            0x63 => Some(CommandType::GetAntConnectionDetector),
            0x66 => Some(CommandType::SetTemporaryOutputPower),
            0x67 => Some(CommandType::SetReaderIdentifier),
            0x68 => Some(CommandType::GetReaderIdentifier),
            0x69 => Some(CommandType::SetRFLinkProfile),
            0x6A => Some(CommandType::GetRFLinkProfile),
            0x7E => Some(CommandType::GetRFPortReturnLoss),
            0x80 => Some(CommandType::Inventory),
            0x81 => Some(CommandType::Read),
            0x82 => Some(CommandType::Write),
            0x83 => Some(CommandType::Lock),
            0x84 => Some(CommandType::Kill),
            0x85 => Some(CommandType::SetAccessEPCMatch),
            0x86 => Some(CommandType::GetAccessEPCMatch),
            0x89 => Some(CommandType::RealTimeInventory),
            0x8A => Some(CommandType::FastSwitchAntInventory),
            0x8B => Some(CommandType::CustomizedSessionTargetInventory),
            0x8C => Some(CommandType::SetImpinjFastTID),
            0x8D => Some(CommandType::SetAndSaveImpinjFastTIC),
            0x8E => Some(CommandType::GetImpinjFastTID),
            0xB0 => Some(CommandType::Inventory6B),
            0xB1 => Some(CommandType::Read6B),
            0xB2 => Some(CommandType::Write6B),
            0xB3 => Some(CommandType::Lock6B),
            0xB4 => Some(CommandType::QueryLock6B),
            0x90 => Some(CommandType::GetInventoryBuffer),
            0x91 => Some(CommandType::GetAndResetInventoryBuffer),
            0x92 => Some(CommandType::GetBufferTagCount),
            0x93 => Some(CommandType::ResetInventoryBuffer),
            _ => None,
        }
    }

    /// Encoding and decoding are inverse to each other: every value
    /// decodes from its own byte, and a byte decodes only to the value it
    /// encodes.
    pub proof fn lemma_byte_bijection(value: CommandType, byte: u8)
        ensures
            CommandType::spec_from_byte(value.spec_to_byte()) == Some(value),
            CommandType::spec_from_byte(byte) == Some(value) <==> value.spec_to_byte() == byte,
    {
    }
}

/// Status byte of a response. `Success` is the only value that reports a
/// completed operation.
///
/// Descriptions of the protocol disagree on the byte for success: some give
/// 0x00, others 0x10. This table holds 0x10, and a status byte 0x00 is refused
/// as unknown rather than taken for success.
#[derive(Clone, Copy, Debug, PartialEq, Eq, Structural)]
pub enum ResponseCode {
    // Outcome of the command
    Success,
    Fail,
    // Reader faults
    MCUResetError,
    CWOnError,
    AntennaMissingError,
    WriteFlashError,
    ReadFlashError,
    SetOutputPowerError,
    // Tag access faults
    TagInventoryError,
    TagReadError,
    TagWriteError,
    TagLockError,
    TagKillError,
    NoTagError,
    InventoryOKAccessFailError,
    BufferEmptyError,
    // Rejected parameters and radio faults
    AccessFailError,
    InvalidParameterError,
    WordCntTooLongError,
    MemBankOutOfRangeError,
    LockRegionOutOfRangeError,
    LockTypeOutOfRangeError,
    InvalidReaderAddressError,
    InvalidAntennaIDError,
    OutputPowerOutOfRangeError,
    InvalidFrequencyRegionError,
    InvalidBaudRateError,
    InvalidBeeperModeError,
    EPCMatchLenTooLongError,
    EPCMatchLenError,
    InvalidEPCMatchModeError,
    InvalidFrequencyRangeError,
    FailToGetRN16Error,
    InvalidDRMModeError,
    PLLLockFailError,
    RFChipError,
    FailToAchieveDesiredPowerError,
    CopyrightAuthenticationError,
    SpectrumRegulationError,
    OutputPowerTooLowError,
}

impl ResponseCode {
    /// The byte that stands for this value on the wire.
    pub open spec fn spec_to_byte(self) -> u8 {
        match self {
            ResponseCode::Success => 0x10,
            ResponseCode::Fail => 0x11,
            ResponseCode::MCUResetError => 0x20,
            ResponseCode::CWOnError => 0x21,
            ResponseCode::AntennaMissingError => 0x22,
            ResponseCode::WriteFlashError => 0x23,
            ResponseCode::ReadFlashError => 0x24,
            ResponseCode::SetOutputPowerError => 0x25,
            ResponseCode::TagInventoryError => 0x31,
            ResponseCode::TagReadError => 0x32,
            ResponseCode::TagWriteError => 0x33,
            ResponseCode::TagLockError => 0x34,
            ResponseCode::TagKillError => 0x35,
            ResponseCode::NoTagError => 0x36,
            ResponseCode::InventoryOKAccessFailError => 0x37,
            ResponseCode::BufferEmptyError => 0x38,
            ResponseCode::AccessFailError => 0x40,
            ResponseCode::InvalidParameterError => 0x41,
            ResponseCode::WordCntTooLongError => 0x42,
            ResponseCode::MemBankOutOfRangeError => 0x43,
            ResponseCode::LockRegionOutOfRangeError => 0x44,
            ResponseCode::LockTypeOutOfRangeError => 0x45,
            ResponseCode::InvalidReaderAddressError => 0x46,
            ResponseCode::InvalidAntennaIDError => 0x47,
            ResponseCode::OutputPowerOutOfRangeError => 0x48,
            ResponseCode::InvalidFrequencyRegionError => 0x49,
            ResponseCode::InvalidBaudRateError => 0x4A,
            ResponseCode::InvalidBeeperModeError => 0x4B,
            ResponseCode::EPCMatchLenTooLongError => 0x4C,
            ResponseCode::EPCMatchLenError => 0x4D,
            ResponseCode::InvalidEPCMatchModeError => 0x4E,
            ResponseCode::InvalidFrequencyRangeError => 0x4F,
            ResponseCode::FailToGetRN16Error => 0x50,
            ResponseCode::InvalidDRMModeError => 0x51,
            ResponseCode::PLLLockFailError => 0x52,
            ResponseCode::RFChipError => 0x53,
            ResponseCode::FailToAchieveDesiredPowerError => 0x54,
            ResponseCode::CopyrightAuthenticationError => 0x55,
            ResponseCode::SpectrumRegulationError => 0x56,
            ResponseCode::OutputPowerTooLowError => 0x57,
        }
    }

    /// The value that `byte` stands for, if it stands for one.
    pub open spec fn spec_from_byte(byte: u8) -> Option<ResponseCode> {
        match byte {
            0x10 => Some(ResponseCode::Success),
            0x11 => Some(ResponseCode::Fail),
            0x20 => Some(ResponseCode::MCUResetError),
            0x21 => Some(ResponseCode::CWOnError),
            0x22 => Some(ResponseCode::AntennaMissingError),
            0x23 => Some(ResponseCode::WriteFlashError),
            0x24 => Some(ResponseCode::ReadFlashError),
            0x25 => Some(ResponseCode::SetOutputPowerError),
            0x31 => Some(ResponseCode::TagInventoryError),
            0x32 => Some(ResponseCode::TagReadError),
            0x33 => Some(ResponseCode::TagWriteError),
            0x34 => Some(ResponseCode::TagLockError),
            0x35 => Some(ResponseCode::TagKillError),
            0x36 => Some(ResponseCode::NoTagError),
            0x37 => Some(ResponseCode::InventoryOKAccessFailError),
            0x38 => Some(ResponseCode::BufferEmptyError),
            0x40 => Some(ResponseCode::AccessFailError),
            0x41 => Some(ResponseCode::InvalidParameterError),
            0x42 => Some(ResponseCode::WordCntTooLongError),
            0x43 => Some(ResponseCode::MemBankOutOfRangeError),
            0x44 => Some(ResponseCode::LockRegionOutOfRangeError),
            0x45 => Some(ResponseCode::LockTypeOutOfRangeError),
            0x46 => Some(ResponseCode::InvalidReaderAddressError),
            0x47 => Some(ResponseCode::InvalidAntennaIDError),
            0x48 => Some(ResponseCode::OutputPowerOutOfRangeError),
            0x49 => Some(ResponseCode::InvalidFrequencyRegionError),
            0x4A => Some(ResponseCode::InvalidBaudRateError),
            0x4B => Some(ResponseCode::InvalidBeeperModeError),
            0x4C => Some(ResponseCode::EPCMatchLenTooLongError),
            0x4D => Some(ResponseCode::EPCMatchLenError),
            0x4E => Some(ResponseCode::InvalidEPCMatchModeError),
            0x4F => Some(ResponseCode::InvalidFrequencyRangeError),
            0x50 => Some(ResponseCode::FailToGetRN16Error),
            0x51 => Some(ResponseCode::InvalidDRMModeError),
            0x52 => Some(ResponseCode::PLLLockFailError),
            0x53 => Some(ResponseCode::RFChipError),
            0x54 => Some(ResponseCode::FailToAchieveDesiredPowerError),
            0x55 => Some(ResponseCode::CopyrightAuthenticationError),
            0x56 => Some(ResponseCode::SpectrumRegulationError),
            0x57 => Some(ResponseCode::OutputPowerTooLowError),
            _ => None,
        }
    }

    /// Encodes this value as its wire byte.
    #[verifier::when_used_as_spec(spec_to_byte)]
    pub fn to_byte(self) -> (byte: u8)
        ensures
            byte == self.spec_to_byte(),
    {
        match self {
            ResponseCode::Success => 0x10,
            ResponseCode::Fail => 0x11,
            ResponseCode::MCUResetError => 0x20,
            ResponseCode::CWOnError => 0x21,
            ResponseCode::AntennaMissingError => 0x22,
            ResponseCode::WriteFlashError => 0x23,
            ResponseCode::ReadFlashError => 0x24,
            ResponseCode::SetOutputPowerError => 0x25,
            ResponseCode::TagInventoryError => 0x31,
            ResponseCode::TagReadError => 0x32,
            ResponseCode::TagWriteError => 0x33,
            ResponseCode::TagLockError => 0x34,
            ResponseCode::TagKillError => 0x35,
            ResponseCode::NoTagError => 0x36,
            ResponseCode::InventoryOKAccessFailError => 0x37,
            ResponseCode::BufferEmptyError => 0x38,
            ResponseCode::AccessFailError => 0x40,
            ResponseCode::InvalidParameterError => 0x41,
            ResponseCode::WordCntTooLongError => 0x42,
            ResponseCode::MemBankOutOfRangeError => 0x43,
            ResponseCode::LockRegionOutOfRangeError => 0x44,
            ResponseCode::LockTypeOutOfRangeError => 0x45,
            ResponseCode::InvalidReaderAddressError => 0x46,
            ResponseCode::InvalidAntennaIDError => 0x47,
            ResponseCode::OutputPowerOutOfRangeError => 0x48,
            ResponseCode::InvalidFrequencyRegionError => 0x49,
            ResponseCode::InvalidBaudRateError => 0x4A,
            ResponseCode::InvalidBeeperModeError => 0x4B,
            ResponseCode::EPCMatchLenTooLongError => 0x4C,
            ResponseCode::EPCMatchLenError => 0x4D,
            ResponseCode::InvalidEPCMatchModeError => 0x4E,
            ResponseCode::InvalidFrequencyRangeError => 0x4F,
            ResponseCode::FailToGetRN16Error => 0x50,
            ResponseCode::InvalidDRMModeError => 0x51,
            ResponseCode::PLLLockFailError => 0x52,
            ResponseCode::RFChipError => 0x53,
            ResponseCode::FailToAchieveDesiredPowerError => 0x54,
            ResponseCode::CopyrightAuthenticationError => 0x55,
            ResponseCode::SpectrumRegulationError => 0x56,
            ResponseCode::OutputPowerTooLowError => 0x57,
        }
    }

    /// Decodes a wire byte. Bytes outside the table are refused, never
    /// mapped to a default.
    #[verifier::when_used_as_spec(spec_from_byte)]
    pub fn from_byte(byte: u8) -> (value: Option<ResponseCode>)
        ensures
            value == ResponseCode::spec_from_byte(byte),
    {
        match byte {
            0x10 => Some(ResponseCode::Success),
            0x11 => Some(ResponseCode::Fail),
            0x20 => Some(ResponseCode::MCUResetError),
            0x21 => Some(ResponseCode::CWOnError),
            0x22 => Some(ResponseCode::AntennaMissingError),
            0x23 => Some(ResponseCode::WriteFlashError),
            0x24 => Some(ResponseCode::ReadFlashError),
            0x25 => Some(ResponseCode::SetOutputPowerError),
            0x31 => Some(ResponseCode::TagInventoryError),
            0x32 => Some(ResponseCode::TagReadError),
            0x33 => Some(ResponseCode::TagWriteError),
            0x34 => Some(ResponseCode::TagLockError),
            0x35 => Some(ResponseCode::TagKillError),
            0x36 => Some(ResponseCode::NoTagError),
            0x37 => Some(ResponseCode::InventoryOKAccessFailError),
            0x38 => Some(ResponseCode::BufferEmptyError),
            0x40 => Some(ResponseCode::AccessFailError),
            0x41 => Some(ResponseCode::InvalidParameterError),
            0x42 => Some(ResponseCode::WordCntTooLongError),
            0x43 => Some(ResponseCode::MemBankOutOfRangeError),
            0x44 => Some(ResponseCode::LockRegionOutOfRangeError),
            0x45 => Some(ResponseCode::LockTypeOutOfRangeError),
            0x46 => Some(ResponseCode::InvalidReaderAddressError),
            0x47 => Some(ResponseCode::InvalidAntennaIDError),
            0x48 => Some(ResponseCode::OutputPowerOutOfRangeError),
            0x49 => Some(ResponseCode::InvalidFrequencyRegionError),
            0x4A => Some(ResponseCode::InvalidBaudRateError),
            0x4B => Some(ResponseCode::InvalidBeeperModeError),
            0x4C => Some(ResponseCode::EPCMatchLenTooLongError),
            0x4D => Some(ResponseCode::EPCMatchLenError),
            0x4E => Some(ResponseCode::InvalidEPCMatchModeError),
            0x4F => Some(ResponseCode::InvalidFrequencyRangeError),
            0x50 => Some(ResponseCode::FailToGetRN16Error),
            0x51 => Some(ResponseCode::InvalidDRMModeError),
            0x52 => Some(ResponseCode::PLLLockFailError),
            0x53 => Some(ResponseCode::RFChipError),
            0x54 => Some(ResponseCode::FailToAchieveDesiredPowerError),
            0x55 => Some(ResponseCode::CopyrightAuthenticationError),
            0x56 => Some(ResponseCode::SpectrumRegulationError),
            0x57 => Some(ResponseCode::OutputPowerTooLowError),
            _ => None,
        }
    }

    /// Encoding and decoding are inverse to each other: every value
    /// decodes from its own byte, and a byte decodes only to the value it
    /// encodes.
    pub proof fn lemma_byte_bijection(value: ResponseCode, byte: u8)
        ensures
            ResponseCode::spec_from_byte(value.spec_to_byte()) == Some(value),
            ResponseCode::spec_from_byte(byte) == Some(value) <==> value.spec_to_byte() == byte,
    {
    }
}

/// Regulatory region that selects the reader's frequency table.
#[derive(Clone, Copy, Debug, PartialEq, Eq, Structural)]
pub enum FrequencyRegion {
    FCC,
    ETSI,
    CHN,
    UserDefined,
}

impl FrequencyRegion {
    /// The byte that stands for this value on the wire.
    pub open spec fn spec_to_byte(self) -> u8 {
        match self {
            FrequencyRegion::FCC => 0x01,
            FrequencyRegion::ETSI => 0x02,
            FrequencyRegion::CHN => 0x03,
            FrequencyRegion::UserDefined => 0x04,
        }
    }

    /// The value that `byte` stands for, if it stands for one.
    pub open spec fn spec_from_byte(byte: u8) -> Option<FrequencyRegion> {
        match byte {
            0x01 => Some(FrequencyRegion::FCC),
            0x02 => Some(FrequencyRegion::ETSI),
            0x03 => Some(FrequencyRegion::CHN),
            0x04 => Some(FrequencyRegion::UserDefined),
            _ => None,
        }
    }

    /// Encodes this value as its wire byte.
    #[verifier::when_used_as_spec(spec_to_byte)]
    pub fn to_byte(self) -> (byte: u8)
        ensures
            byte == self.spec_to_byte(),
    {
        match self {
            FrequencyRegion::FCC => 0x01,
            FrequencyRegion::ETSI => 0x02,
            FrequencyRegion::CHN => 0x03,
            FrequencyRegion::UserDefined => 0x04,
        }
    }

    /// Decodes a wire byte. Bytes outside the table are refused, never
    /// mapped to a default.
    #[verifier::when_used_as_spec(spec_from_byte)]
    pub fn from_byte(byte: u8) -> (value: Option<FrequencyRegion>)
        ensures
            value == FrequencyRegion::spec_from_byte(byte),
    {
        match byte {
            0x01 => Some(FrequencyRegion::FCC),
            0x02 => Some(FrequencyRegion::ETSI),
            0x03 => Some(FrequencyRegion::CHN),
            0x04 => Some(FrequencyRegion::UserDefined),
            _ => None,
        }
    }

    /// Encoding and decoding are inverse to each other: every value
    /// decodes from its own byte, and a byte decodes only to the value it
    /// encodes.
    pub proof fn lemma_byte_bijection(value: FrequencyRegion, byte: u8)
        ensures
            FrequencyRegion::spec_from_byte(value.spec_to_byte()) == Some(value),
            FrequencyRegion::spec_from_byte(byte) == Some(value) <==> value.spec_to_byte() == byte,
    {
    }
}

/// Memory bank of a Gen2 tag.
#[derive(Clone, Copy, Debug, PartialEq, Eq, Structural)]
pub enum MemoryBank {
    Reserved,
    EPC,
    TID,
    User,
}

impl MemoryBank {
    /// The byte that stands for this value on the wire.
    pub open spec fn spec_to_byte(self) -> u8 {
        match self {
            MemoryBank::Reserved => 0x00,
            MemoryBank::EPC => 0x01,
            MemoryBank::TID => 0x02,
            MemoryBank::User => 0x03,
        }
    }

    /// The value that `byte` stands for, if it stands for one.
    pub open spec fn spec_from_byte(byte: u8) -> Option<MemoryBank> {
        match byte {
            0x00 => Some(MemoryBank::Reserved),
            0x01 => Some(MemoryBank::EPC),
            0x02 => Some(MemoryBank::TID),
            0x03 => Some(MemoryBank::User),
            _ => None,
        }
    }

    /// Encodes this value as its wire byte.
    #[verifier::when_used_as_spec(spec_to_byte)]
    pub fn to_byte(self) -> (byte: u8)
        ensures
            byte == self.spec_to_byte(),
    {
        match self {
            MemoryBank::Reserved => 0x00,
            MemoryBank::EPC => 0x01,
            MemoryBank::TID => 0x02,
            MemoryBank::User => 0x03,
        }
    }

    /// Decodes a wire byte. Bytes outside the table are refused, never
    /// mapped to a default.
    #[verifier::when_used_as_spec(spec_from_byte)]
    pub fn from_byte(byte: u8) -> (value: Option<MemoryBank>)
        ensures
            value == MemoryBank::spec_from_byte(byte),
    {
        match byte {
            0x00 => Some(MemoryBank::Reserved),
            0x01 => Some(MemoryBank::EPC),
            0x02 => Some(MemoryBank::TID),
            0x03 => Some(MemoryBank::User),
            _ => None,
        }
    }

    /// Encoding and decoding are inverse to each other: every value
    /// decodes from its own byte, and a byte decodes only to the value it
    /// encodes.
    pub proof fn lemma_byte_bijection(value: MemoryBank, byte: u8)
        ensures
            MemoryBank::spec_from_byte(value.spec_to_byte()) == Some(value),
            MemoryBank::spec_from_byte(byte) == Some(value) <==> value.spec_to_byte() == byte,
    {
    }
}

} // verus!
