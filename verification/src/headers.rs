//! SoE header and IDN attribute wire formats, and the enumerations they carry.

use vstd::prelude::*;

use crate::wire::{value_or_invalid, UnpackError};

verus! {

/// Service requested by an SoE mailbox message (bits 0 to 2 of the SoE header).
#[derive(Clone, Copy, Debug, PartialEq, Eq, Structural)]
pub enum SoeOpcode {
    /// Read Request
    ReadRequest,
    /// Read Response
    ReadResponse,
    /// Write Request
    WriteRequest,
    /// Write Response
    WriteResponse,
    /// Notification
    Notification,
    /// Emergency / Abort
    Emergency,
}

impl SoeOpcode {
    /// The value that stands for this opcode on the wire.
    pub open spec fn spec_to_u8(self) -> u8 {
        match self {
            SoeOpcode::ReadRequest => 0x01,
            SoeOpcode::ReadResponse => 0x02,
            SoeOpcode::WriteRequest => 0x03,
            SoeOpcode::WriteResponse => 0x04,
            SoeOpcode::Notification => 0x05,
            SoeOpcode::Emergency => 0x06,
        }
    }

    /// The opcode that the wire value `value` stands for, if any.
    pub open spec fn spec_from_u8(value: u8) -> Option<Self> {
        match value {
            0x01 => Some(SoeOpcode::ReadRequest),
            0x02 => Some(SoeOpcode::ReadResponse),
            0x03 => Some(SoeOpcode::WriteRequest),
            0x04 => Some(SoeOpcode::WriteResponse),
            0x05 => Some(SoeOpcode::Notification),
            0x06 => Some(SoeOpcode::Emergency),
            _ => None,
        }
    }

    /// The value that stands for this opcode on the wire.
    pub fn to_u8(self) -> (value: u8)
        ensures
            value == self.spec_to_u8(),
    {
        match self {
            SoeOpcode::ReadRequest => 0x01,
            SoeOpcode::ReadResponse => 0x02,
            SoeOpcode::WriteRequest => 0x03,
            SoeOpcode::WriteResponse => 0x04,
            SoeOpcode::Notification => 0x05,
            SoeOpcode::Emergency => 0x06,
        }
    }

    /// Reads a opcode from its wire value; a value that stands for none is refused.
    pub fn from_u8(value: u8) -> (res: Result<Self, UnpackError>)
        ensures
            res == value_or_invalid(Self::spec_from_u8(value)),
    {
        match value {
            0x01 => Ok(SoeOpcode::ReadRequest),
            0x02 => Ok(SoeOpcode::ReadResponse),
            0x03 => Ok(SoeOpcode::WriteRequest),
            0x04 => Ok(SoeOpcode::WriteResponse),
            0x05 => Ok(SoeOpcode::Notification),
            0x06 => Ok(SoeOpcode::Emergency),
            _ => Err(UnpackError::InvalidValue),
        }
    }
}

/// Every opcode reads back from its own wire value, and a wire value reads
/// only as the opcode that writes it.
pub proof fn lemma_soe_opcode_value_round_trip(e: SoeOpcode, value: u8)
    ensures
        SoeOpcode::spec_from_u8(e.spec_to_u8()) == Some(e),
        SoeOpcode::spec_from_u8(value) == Some(e) ==> e.spec_to_u8() == value,
{
}

/// Whether more fragments of the same transfer follow (bit 3 of the SoE header).
#[derive(Clone, Copy, Debug, PartialEq, Eq, Structural)]
pub enum SoeFragmentationFlag {
    /// Complete Transmission
    CompleteTransmission,
    /// Incomplete Frame
    IncompleteFrame,
}

impl SoeFragmentationFlag {
    /// The value that stands for this fragmentation flag on the wire.
    pub open spec fn spec_to_u8(self) -> u8 {
        match self {
            SoeFragmentationFlag::CompleteTransmission => 0,
            SoeFragmentationFlag::IncompleteFrame => 1,
        }
    }

    /// The fragmentation flag that the wire value `value` stands for, if any.
    pub open spec fn spec_from_u8(value: u8) -> Option<Self> {
        match value {
            0 => Some(SoeFragmentationFlag::CompleteTransmission),
            1 => Some(SoeFragmentationFlag::IncompleteFrame),
            _ => None,
        }
    }

    /// The value that stands for this fragmentation flag on the wire.
    pub fn to_u8(self) -> (value: u8)
        ensures
            value == self.spec_to_u8(),
    {
        match self {
            SoeFragmentationFlag::CompleteTransmission => 0,
            SoeFragmentationFlag::IncompleteFrame => 1,
        }
    }

    /// Reads a fragmentation flag from its wire value; a value that stands for none is refused.
    pub fn from_u8(value: u8) -> (res: Result<Self, UnpackError>)
        ensures
            res == value_or_invalid(Self::spec_from_u8(value)),
    {
        match value {
            0 => Ok(SoeFragmentationFlag::CompleteTransmission),
            1 => Ok(SoeFragmentationFlag::IncompleteFrame),
            _ => Err(UnpackError::InvalidValue),
        }
    }
}

/// Every fragmentation flag reads back from its own wire value, and a wire value reads
/// only as the fragmentation flag that writes it.
pub proof fn lemma_soe_fragmentation_flag_value_round_trip(e: SoeFragmentationFlag, value: u8)
    ensures
        SoeFragmentationFlag::spec_from_u8(e.spec_to_u8()) == Some(e),
        SoeFragmentationFlag::spec_from_u8(value) == Some(e) ==> e.spec_to_u8() == value,
{
}

/// Whether the SubDevice reports an error (bit 4 of the SoE header).
#[derive(Clone, Copy, Debug, PartialEq, Eq, Structural)]
pub enum SoeErrorFlag {
    /// No Error
    NoError,
    /// Error Occurred
    ErrorOccurred,
}

impl SoeErrorFlag {
    /// The value that stands for this error flag on the wire.
    pub open spec fn spec_to_u8(self) -> u8 {
        match self {
            SoeErrorFlag::NoError => 0,
            SoeErrorFlag::ErrorOccurred => 1,
        }
    }

    /// The error flag that the wire value `value` stands for, if any.
    pub open spec fn spec_from_u8(value: u8) -> Option<Self> {
        match value {
            0 => Some(SoeErrorFlag::NoError),
            1 => Some(SoeErrorFlag::ErrorOccurred),
            _ => None,
        }
    }

    /// The value that stands for this error flag on the wire.
    pub fn to_u8(self) -> (value: u8)
        ensures
            value == self.spec_to_u8(),
    {
        match self {
            SoeErrorFlag::NoError => 0,
            SoeErrorFlag::ErrorOccurred => 1,
        }
    }

    /// Reads a error flag from its wire value; a value that stands for none is refused.
    pub fn from_u8(value: u8) -> (res: Result<Self, UnpackError>)
        ensures
            res == value_or_invalid(Self::spec_from_u8(value)),
    {
        match value {
            0 => Ok(SoeErrorFlag::NoError),
            1 => Ok(SoeErrorFlag::ErrorOccurred),
            _ => Err(UnpackError::InvalidValue),
        }
    }
}

/// Every error flag reads back from its own wire value, and a wire value reads
/// only as the error flag that writes it.
pub proof fn lemma_soe_error_flag_value_round_trip(e: SoeErrorFlag, value: u8)
    ensures
        SoeErrorFlag::spec_from_u8(e.spec_to_u8()) == Some(e),
        SoeErrorFlag::spec_from_u8(value) == Some(e) ==> e.spec_to_u8() == value,
{
}

/// The element of an IDN that a request addresses (byte 1 of the SoE header).
#[derive(Clone, Copy, Debug, PartialEq, Eq, Structural)]
pub enum SoeElementFlag {
    /// No element: all flags clear
    NoElement,
    DataStateStatus,
    NameDescriptor,
    Attribute,
    Unit,
    MinimumValue,
    MaximumValue,
    ValueData,
}

impl SoeElementFlag {
    /// The value that stands for this element flag on the wire.
    pub open spec fn spec_to_u8(self) -> u8 {
        match self {
            SoeElementFlag::NoElement => 0b00000000,
            SoeElementFlag::DataStateStatus => 0b00000001,
            SoeElementFlag::NameDescriptor => 0b00000010,
            SoeElementFlag::Attribute => 0b00000100,
            SoeElementFlag::Unit => 0b00001000,
            SoeElementFlag::MinimumValue => 0b00010000,
            SoeElementFlag::MaximumValue => 0b00100000,
            SoeElementFlag::ValueData => 0b01000000,
        }
    }

    /// The element flag that the wire value `value` stands for, if any.
    pub open spec fn spec_from_u8(value: u8) -> Option<Self> {
        match value {
            0b00000000 => Some(SoeElementFlag::NoElement),
            0b00000001 => Some(SoeElementFlag::DataStateStatus),
            0b00000010 => Some(SoeElementFlag::NameDescriptor),
            0b00000100 => Some(SoeElementFlag::Attribute),
            0b00001000 => Some(SoeElementFlag::Unit),
            0b00010000 => Some(SoeElementFlag::MinimumValue),
            0b00100000 => Some(SoeElementFlag::MaximumValue),
            0b01000000 => Some(SoeElementFlag::ValueData),
            _ => None,
        }
    }

    /// The value that stands for this element flag on the wire.
    pub fn to_u8(self) -> (value: u8)
        ensures
            value == self.spec_to_u8(),
    {
        match self {
            SoeElementFlag::NoElement => 0b00000000,
            SoeElementFlag::DataStateStatus => 0b00000001,
            SoeElementFlag::NameDescriptor => 0b00000010,
            SoeElementFlag::Attribute => 0b00000100,
            SoeElementFlag::Unit => 0b00001000,
            SoeElementFlag::MinimumValue => 0b00010000,
            SoeElementFlag::MaximumValue => 0b00100000,
            SoeElementFlag::ValueData => 0b01000000,
        }
    }

    /// Reads a element flag from its wire value; a value that stands for none is refused.
    pub fn from_u8(value: u8) -> (res: Result<Self, UnpackError>)
        ensures
            res == value_or_invalid(Self::spec_from_u8(value)),
    {
        match value {
            0b00000000 => Ok(SoeElementFlag::NoElement),
            0b00000001 => Ok(SoeElementFlag::DataStateStatus),
            0b00000010 => Ok(SoeElementFlag::NameDescriptor),
            0b00000100 => Ok(SoeElementFlag::Attribute),
            0b00001000 => Ok(SoeElementFlag::Unit),
            0b00010000 => Ok(SoeElementFlag::MinimumValue),
            0b00100000 => Ok(SoeElementFlag::MaximumValue),
            0b01000000 => Ok(SoeElementFlag::ValueData),
            _ => Err(UnpackError::InvalidValue),
        }
    }
}

/// Every element flag reads back from its own wire value, and a wire value reads
/// only as the element flag that writes it.
pub proof fn lemma_soe_element_flag_value_round_trip(e: SoeElementFlag, value: u8)
    ensures
        SoeElementFlag::spec_from_u8(e.spec_to_u8()) == Some(e),
        SoeElementFlag::spec_from_u8(value) == Some(e) ==> e.spec_to_u8() == value,
{
}

/// Data length of an IDN (Table 292 of the Sercos master protocol API).
#[derive(Clone, Copy, Debug, PartialEq, Eq, Structural)]
pub enum SoeDatalength {
    /// Two Bytes
    TwoBytes,
    /// Four Bytes
    FourBytes,
    /// Eight Bytes
    EightBytes,
    /// Variable 1 Byte Strings
    Variable1ByteStrings,
    /// Variable 2 Byte Strings
    Variable2ByteStrings,
    /// Variable 4 Byte Strings
    Variable4ByteStrings,
    /// Variable 8 Byte Strings
    Variable8ByteStrings,
}

impl SoeDatalength {
    /// The value that stands for this data length on the wire.
    pub open spec fn spec_to_u8(self) -> u8 {
        match self {
            SoeDatalength::TwoBytes => 0b001,
            SoeDatalength::FourBytes => 0b010,
            SoeDatalength::EightBytes => 0b011,
            SoeDatalength::Variable1ByteStrings => 0b100,
            SoeDatalength::Variable2ByteStrings => 0b101,
            SoeDatalength::Variable4ByteStrings => 0b110,
            SoeDatalength::Variable8ByteStrings => 0b111,
        }
    }

    /// The data length that the wire value `value` stands for, if any.
    pub open spec fn spec_from_u8(value: u8) -> Option<Self> {
        match value {
            0b001 => Some(SoeDatalength::TwoBytes),
            0b010 => Some(SoeDatalength::FourBytes),
            0b011 => Some(SoeDatalength::EightBytes),
            0b100 => Some(SoeDatalength::Variable1ByteStrings),
            0b101 => Some(SoeDatalength::Variable2ByteStrings),
            0b110 => Some(SoeDatalength::Variable4ByteStrings),
            0b111 => Some(SoeDatalength::Variable8ByteStrings),
            _ => None,
        }
    }

    /// The value that stands for this data length on the wire.
    pub fn to_u8(self) -> (value: u8)
        ensures
            value == self.spec_to_u8(),
    {
        match self {
            SoeDatalength::TwoBytes => 0b001,
            SoeDatalength::FourBytes => 0b010,
            SoeDatalength::EightBytes => 0b011,
            SoeDatalength::Variable1ByteStrings => 0b100,
            SoeDatalength::Variable2ByteStrings => 0b101,
            SoeDatalength::Variable4ByteStrings => 0b110,
            SoeDatalength::Variable8ByteStrings => 0b111,
        }
    }

    /// Reads a data length from its wire value; a value that stands for none is refused.
    pub fn from_u8(value: u8) -> (res: Result<Self, UnpackError>)
        ensures
            res == value_or_invalid(Self::spec_from_u8(value)),
    {
        match value {
            0b001 => Ok(SoeDatalength::TwoBytes),
            0b010 => Ok(SoeDatalength::FourBytes),
            0b011 => Ok(SoeDatalength::EightBytes),
            0b100 => Ok(SoeDatalength::Variable1ByteStrings),
            0b101 => Ok(SoeDatalength::Variable2ByteStrings),
            0b110 => Ok(SoeDatalength::Variable4ByteStrings),
            0b111 => Ok(SoeDatalength::Variable8ByteStrings),
            _ => Err(UnpackError::InvalidValue),
        }
    }
}

/// Every data length reads back from its own wire value, and a wire value reads
/// only as the data length that writes it.
pub proof fn lemma_soe_datalength_value_round_trip(e: SoeDatalength, value: u8)
    ensures
        SoeDatalength::spec_from_u8(e.spec_to_u8()) == Some(e),
        SoeDatalength::spec_from_u8(value) == Some(e) ==> e.spec_to_u8() == value,
{
}

/// Display format of an IDN (Table 292 of the Sercos master protocol API).
#[derive(Clone, Copy, Debug, PartialEq, Eq, Structural)]
pub enum SoeDisplayFormat {
    /// Binary value [Binary]
    Binary,
    /// Unsigned integer [Decimal]
    UnsignedIntegerDec,
    /// Signed integer [Decimal + sign]
    SignedIntegerDec,
    /// Unsigned integer [Hexadecimal]
    UnsignedIntegerHex,
    /// Extended character set [Text]
    ExtendedCharacterSet,
    /// Unsigned integer [IDN]
    UnsignedIntegerIDN,
    /// ANSI 754-1985 floating point number (single precision)
    ANSI754_1985,
    /// SERCOS time (IEC 61588: 4 octets seconds and 4 octets nanoseconds since 1.1.1970 UTC)
    SERCOStime,
}

impl SoeDisplayFormat {
    /// The value that stands for this display format on the wire.
    pub open spec fn spec_to_u8(self) -> u8 {
        match self {
            SoeDisplayFormat::Binary => 0b000,
            SoeDisplayFormat::UnsignedIntegerDec => 0b001,
            SoeDisplayFormat::SignedIntegerDec => 0b010,
            SoeDisplayFormat::UnsignedIntegerHex => 0b011,
            SoeDisplayFormat::ExtendedCharacterSet => 0b100,
            SoeDisplayFormat::UnsignedIntegerIDN => 0b101,
            SoeDisplayFormat::ANSI754_1985 => 0b110,
            SoeDisplayFormat::SERCOStime => 0b111,
        }
    }

    /// The display format that the wire value `value` stands for, if any.
    pub open spec fn spec_from_u8(value: u8) -> Option<Self> {
        match value {
            0b000 => Some(SoeDisplayFormat::Binary),
            0b001 => Some(SoeDisplayFormat::UnsignedIntegerDec),
            0b010 => Some(SoeDisplayFormat::SignedIntegerDec),
            0b011 => Some(SoeDisplayFormat::UnsignedIntegerHex),
            0b100 => Some(SoeDisplayFormat::ExtendedCharacterSet),
            0b101 => Some(SoeDisplayFormat::UnsignedIntegerIDN),
            0b110 => Some(SoeDisplayFormat::ANSI754_1985),
            0b111 => Some(SoeDisplayFormat::SERCOStime),
            _ => None,
        }
    }

    /// The value that stands for this display format on the wire.
    pub fn to_u8(self) -> (value: u8)
        ensures
            value == self.spec_to_u8(),
    {
        match self {
            SoeDisplayFormat::Binary => 0b000,
            SoeDisplayFormat::UnsignedIntegerDec => 0b001,
            SoeDisplayFormat::SignedIntegerDec => 0b010,
            SoeDisplayFormat::UnsignedIntegerHex => 0b011,
            SoeDisplayFormat::ExtendedCharacterSet => 0b100,
            SoeDisplayFormat::UnsignedIntegerIDN => 0b101,
            SoeDisplayFormat::ANSI754_1985 => 0b110,
            SoeDisplayFormat::SERCOStime => 0b111,
        }
    }

    /// Reads a display format from its wire value; a value that stands for none is refused.
    pub fn from_u8(value: u8) -> (res: Result<Self, UnpackError>)
        ensures
            res == value_or_invalid(Self::spec_from_u8(value)),
    {
        match value {
            0b000 => Ok(SoeDisplayFormat::Binary),
            0b001 => Ok(SoeDisplayFormat::UnsignedIntegerDec),
            0b010 => Ok(SoeDisplayFormat::SignedIntegerDec),
            0b011 => Ok(SoeDisplayFormat::UnsignedIntegerHex),
            0b100 => Ok(SoeDisplayFormat::ExtendedCharacterSet),
            0b101 => Ok(SoeDisplayFormat::UnsignedIntegerIDN),
            0b110 => Ok(SoeDisplayFormat::ANSI754_1985),
            0b111 => Ok(SoeDisplayFormat::SERCOStime),
            _ => Err(UnpackError::InvalidValue),
        }
    }
}

/// Every display format reads back from its own wire value, and a wire value reads
/// only as the display format that writes it.
pub proof fn lemma_soe_display_format_value_round_trip(e: SoeDisplayFormat, value: u8)
    ensures
        SoeDisplayFormat::spec_from_u8(e.spec_to_u8()) == Some(e),
        SoeDisplayFormat::spec_from_u8(value) == Some(e) ==> e.spec_to_u8() == value,
{
}

impl SoeDatalength {
    /// Width in bits of a value of this length; variable length strings have none (0).
    pub open spec fn spec_bit_len(self) -> u16 {
        match self {
            SoeDatalength::TwoBytes => 16,
            SoeDatalength::FourBytes => 32,
            SoeDatalength::EightBytes => 64,
            _ => 0,
        }
    }

    /// Width in bits of a value of this length; 0 for variable length strings.
    pub fn bit_len(self) -> (bits: u16)
        ensures
            bits == self.spec_bit_len(),
    {
        match self {
            SoeDatalength::TwoBytes => 16,
            SoeDatalength::FourBytes => 32,
            SoeDatalength::EightBytes => 64,
            SoeDatalength::Variable1ByteStrings => 0,
            SoeDatalength::Variable2ByteStrings => 0,
            SoeDatalength::Variable4ByteStrings => 0,
            SoeDatalength::Variable8ByteStrings => 0,
        }
    }
}

/// Length in bytes of a packed [`SoeHeader`].
pub const SOE_HEADER_LEN: usize = 4;

/// The four byte header that follows the mailbox header in every SoE message.
///
/// Byte 0 holds the opcode (bits 0 to 2), the fragmentation flag (bit 3), the
/// error flag (bit 4) and the drive number (bits 5 to 7); byte 1 the element
/// flag; bytes 2 and 3 the IDN, little endian (or, while the fragmentation flag
/// is set, the number of fragments that remain).
#[derive(Clone, Copy, Debug, PartialEq, Eq, Structural)]
pub struct SoeHeader {
    pub opcode: SoeOpcode,
    pub fragmentation: SoeFragmentationFlag,
    pub error: SoeErrorFlag,
    /// Only the low three bits are carried on the wire.
    pub drive_num: u8,
    pub element_flag: SoeElementFlag,
    pub idn: u16,
}

/// The low byte of a 16 bit value.
pub open spec fn low_byte(v: u16) -> u8 {
    (v % 256) as u8
}

/// The high byte of a 16 bit value.
pub open spec fn high_byte(v: u16) -> u8 {
    (v / 256) as u8
}

/// The 16 bit value stored little endian in `lo` and `hi`.
pub open spec fn le_u16(lo: u8, hi: u8) -> u16 {
    (lo + 256 * hi) as u16
}

/// Writes `v` little endian.
pub fn u16_le_bytes(v: u16) -> (bytes: (u8, u8))
    ensures
        bytes.0 == low_byte(v),
        bytes.1 == high_byte(v),
{
    ((v % 256) as u8, (v / 256) as u8)
}

/// Reads a little endian 16 bit value.
pub fn u16_from_le(lo: u8, hi: u8) -> (v: u16)
    ensures
        v == le_u16(lo, hi),
{
    lo as u16 + 256 * (hi as u16)
}

impl SoeHeader {
    /// Byte 0: opcode, fragmentation, error and drive number packed in one byte.
    pub open spec fn spec_flags_byte(self) -> u8 {
        (self.opcode.spec_to_u8() + 8 * self.fragmentation.spec_to_u8() + 16
            * self.error.spec_to_u8() + 32 * (self.drive_num % 8)) as u8
    }

    /// This header as the wire carries it: the drive number cut to its low three bits.
    pub open spec fn spec_as_carried(self) -> SoeHeader {
        SoeHeader { drive_num: self.drive_num % 8, ..self }
    }

    /// The four bytes that stand for this header on the wire.
    pub open spec fn spec_pack(self) -> Seq<u8> {
        seq![
            self.spec_flags_byte(),
            self.element_flag.spec_to_u8(),
            low_byte(self.idn),
            high_byte(self.idn),
        ]
    }

    /// The header that the first four bytes of `buf` stand for.
    pub open spec fn spec_unpack(buf: Seq<u8>) -> Result<SoeHeader, UnpackError> {
        if buf.len() < 4 {
            Err(UnpackError::ReadBufferTooShort)
        } else {
            let b0 = buf[0];
            match (
                SoeOpcode::spec_from_u8(b0 % 8),
                SoeFragmentationFlag::spec_from_u8((b0 / 8) % 2),
                SoeErrorFlag::spec_from_u8((b0 / 16) % 2),
                SoeElementFlag::spec_from_u8(buf[1]),
            ) {
                (Some(opcode), Some(fragmentation), Some(error), Some(element_flag)) => Ok(
                    SoeHeader {
                        opcode,
                        fragmentation,
                        error,
                        drive_num: b0 / 32,
                        element_flag,
                        idn: le_u16(buf[2], buf[3]),
                    },
                ),
                _ => Err(UnpackError::InvalidValue),
            }
        }
    }

    /// Packs this header into its four wire bytes; only the low three bits of
    /// the drive number are kept.
    pub fn pack(&self) -> (bytes: [u8; 4])
        ensures
            bytes@ == self.spec_pack(),
    {
        let b0 = self.opcode.to_u8() + 8 * self.fragmentation.to_u8() + 16 * self.error.to_u8()
            + 32 * (self.drive_num % 8);
        let (lo, hi) = u16_le_bytes(self.idn);
        let bytes = [b0, self.element_flag.to_u8(), lo, hi];
        assert(bytes@ =~= self.spec_pack());
        bytes
    }

    /// Reads a header from the first four bytes of `buf`.
    pub fn unpack_from_slice(buf: &[u8]) -> (res: Result<SoeHeader, UnpackError>)
        ensures
            res == Self::spec_unpack(buf@),
    {
        if buf.len() < 4 {
            return Err(UnpackError::ReadBufferTooShort);
        }
        let b0 = buf[0];
        let opcode = SoeOpcode::from_u8(b0 % 8);
        let fragmentation = SoeFragmentationFlag::from_u8((b0 / 8) % 2);
        let error = SoeErrorFlag::from_u8((b0 / 16) % 2);
        let element_flag = SoeElementFlag::from_u8(buf[1]);
        match (opcode, fragmentation, error, element_flag) {
            (Ok(opcode), Ok(fragmentation), Ok(error), Ok(element_flag)) => Ok(
                SoeHeader {
                    opcode,
                    fragmentation,
                    error,
                    drive_num: b0 / 32,
                    element_flag,
                    idn: u16_from_le(buf[2], buf[3]),
                },
            ),
            _ => Err(UnpackError::InvalidValue),
        }
    }
}

/// A header read back from its own packing is the header itself, but for the
/// drive number, of which only the low three bits travel.
pub proof fn lemma_soe_header_round_trip(h: SoeHeader)
    ensures
        SoeHeader::spec_unpack(h.spec_pack()) == Ok::<SoeHeader, UnpackError>(h.spec_as_carried()),
        h.drive_num < 8 ==> SoeHeader::spec_unpack(h.spec_pack()) == Ok::<SoeHeader, UnpackError>(h),
{
    lemma_soe_opcode_value_round_trip(h.opcode, 0);
    lemma_soe_fragmentation_flag_value_round_trip(h.fragmentation, 0);
    lemma_soe_error_flag_value_round_trip(h.error, 0);
    lemma_soe_element_flag_value_round_trip(h.element_flag, 0);
    let b0 = h.spec_flags_byte();
    assert(b0 % 8 == h.opcode.spec_to_u8());
    assert((b0 / 8) % 2 == h.fragmentation.spec_to_u8());
    assert((b0 / 16) % 2 == h.error.spec_to_u8());
    assert(b0 / 32 == h.drive_num % 8);
    assert(le_u16(low_byte(h.idn), high_byte(h.idn)) == h.idn);
}

/// Every header that four bytes are read as packs back into exactly those bytes:
/// all 32 bits of the SoE header are meaningful.
pub proof fn lemma_soe_header_bytes_round_trip(buf: Seq<u8>)
    ensures
        SoeHeader::spec_unpack(buf) matches Ok(h) ==> h.spec_pack() == buf.take(4),
{
    if let Ok(h) = SoeHeader::spec_unpack(buf) {
        let b0 = buf[0];
        lemma_soe_opcode_value_round_trip(h.opcode, b0 % 8);
        lemma_soe_fragmentation_flag_value_round_trip(h.fragmentation, ((b0 / 8) % 2) as u8);
        lemma_soe_error_flag_value_round_trip(h.error, ((b0 / 16) % 2) as u8);
        lemma_soe_element_flag_value_round_trip(h.element_flag, buf[1]);
        assert(h.spec_flags_byte() == b0);
        assert(low_byte(le_u16(buf[2], buf[3])) == buf[2]);
        assert(high_byte(le_u16(buf[2], buf[3])) == buf[3]);
        assert(h.spec_pack() =~= buf.take(4));
    }
}

/// Length in bytes of packed [`SoeAttributes`].
pub const SOE_ATTRIBUTES_LEN: usize = 4;

/// Attribute element of an IDN (Table 292 of the Sercos master protocol API).
///
/// Bytes 0 and 1 hold the conversion factor, little endian. Byte 2 holds the
/// data length (bits 0 to 2), the command flag (bit 3) and the display format
/// (bits 4 to 6); bit 7 is reserved. Byte 3 holds the decimal places (bits 0 to
/// 3) and the write protection in CP2, CP3 and CP4 (bits 4, 5 and 6); bit 7 is
/// reserved.
#[derive(Clone, Copy, Debug, PartialEq, Eq, Structural)]
pub struct SoeAttributes {
    pub conversion_factor: u16,
    pub data_length: SoeDatalength,
    pub is_command: bool,
    pub display_format: SoeDisplayFormat,
    /// Only the low four bits are carried on the wire.
    pub decimal_places: u8,
    pub write_protect_cp2: bool,
    pub write_protect_cp3: bool,
    pub write_protect_cp4: bool,
}

/// The bit that stands for a flag.
pub open spec fn flag_bit(flag: bool) -> u8 {
    if flag {
        1
    } else {
        0
    }
}

fn flag_to_bit(flag: bool) -> (bit: u8)
    ensures
        bit == flag_bit(flag),
{
    if flag {
        1
    } else {
        0
    }
}

impl SoeAttributes {
    /// Byte 2: data length, command flag and display format.
    pub open spec fn spec_format_byte(self) -> u8 {
        (self.data_length.spec_to_u8() + 8 * flag_bit(self.is_command) + 16
            * self.display_format.spec_to_u8()) as u8
    }

    /// Byte 3: decimal places and write protection flags.
    pub open spec fn spec_protection_byte(self) -> u8 {
        (self.decimal_places % 16 + 16 * flag_bit(self.write_protect_cp2) + 32 * flag_bit(
            self.write_protect_cp3,
        ) + 64 * flag_bit(self.write_protect_cp4)) as u8
    }

    /// These attributes as the wire carries them: the decimal places cut to their low four bits.
    pub open spec fn spec_as_carried(self) -> SoeAttributes {
        SoeAttributes { decimal_places: self.decimal_places % 16, ..self }
    }

    /// The four bytes that stand for these attributes on the wire.
    pub open spec fn spec_pack(self) -> Seq<u8> {
        seq![
            low_byte(self.conversion_factor),
            high_byte(self.conversion_factor),
            self.spec_format_byte(),
            self.spec_protection_byte(),
        ]
    }

    /// The attributes that the first four bytes of `buf` stand for.
    pub open spec fn spec_unpack(buf: Seq<u8>) -> Result<SoeAttributes, UnpackError> {
        if buf.len() < 4 {
            Err(UnpackError::ReadBufferTooShort)
        } else {
            let b2 = buf[2];
            let b3 = buf[3];
            match (
                SoeDatalength::spec_from_u8(b2 % 8),
                SoeDisplayFormat::spec_from_u8((b2 / 16) % 8),
            ) {
                (Some(data_length), Some(display_format)) => Ok(
                    SoeAttributes {
                        conversion_factor: le_u16(buf[0], buf[1]),
                        data_length,
                        is_command: (b2 / 8) % 2 == 1,
                        display_format,
                        decimal_places: b3 % 16,
                        write_protect_cp2: (b3 / 16) % 2 == 1,
                        write_protect_cp3: (b3 / 32) % 2 == 1,
                        write_protect_cp4: (b3 / 64) % 2 == 1,
                    },
                ),
                _ => Err(UnpackError::InvalidValue),
            }
        }
    }

    /// Packs these attributes into their four wire bytes; only the low four bits
    /// of the decimal places are kept, and the reserved bits are clear.
    pub fn pack(&self) -> (bytes: [u8; 4])
        ensures
            bytes@ == self.spec_pack(),
    {
        let (lo, hi) = u16_le_bytes(self.conversion_factor);
        let b2 = self.data_length.to_u8() + 8 * flag_to_bit(self.is_command) + 16
            * self.display_format.to_u8();
        let b3 = self.decimal_places % 16 + 16 * flag_to_bit(self.write_protect_cp2) + 32
            * flag_to_bit(self.write_protect_cp3) + 64 * flag_to_bit(self.write_protect_cp4);
        let bytes = [lo, hi, b2, b3];
        assert(bytes@ =~= self.spec_pack());
        bytes
    }

    /// Reads attributes from the first four bytes of `buf`.
    pub fn unpack_from_slice(buf: &[u8]) -> (res: Result<SoeAttributes, UnpackError>)
        ensures
            res == Self::spec_unpack(buf@),
    {
        if buf.len() < 4 {
            return Err(UnpackError::ReadBufferTooShort);
        }
        let b2 = buf[2];
        let b3 = buf[3];
        match (SoeDatalength::from_u8(b2 % 8), SoeDisplayFormat::from_u8((b2 / 16) % 8)) {
            (Ok(data_length), Ok(display_format)) => Ok(
                SoeAttributes {
                    conversion_factor: u16_from_le(buf[0], buf[1]),
                    data_length,
                    is_command: (b2 / 8) % 2 == 1,
                    display_format,
                    decimal_places: b3 % 16,
                    write_protect_cp2: (b3 / 16) % 2 == 1,
                    write_protect_cp3: (b3 / 32) % 2 == 1,
                    write_protect_cp4: (b3 / 64) % 2 == 1,
                },
            ),
            _ => Err(UnpackError::InvalidValue),
        }
    }
}

/// Attributes read back from their own packing are the attributes themselves,
/// but for the decimal places, of which only the low four bits travel.
pub proof fn lemma_soe_attributes_round_trip(a: SoeAttributes)
    ensures
        SoeAttributes::spec_unpack(a.spec_pack()) == Ok::<SoeAttributes, UnpackError>(
            a.spec_as_carried(),
        ),
        a.decimal_places < 16 ==> SoeAttributes::spec_unpack(a.spec_pack()) == Ok::<
            SoeAttributes,
            UnpackError,
        >(a),
{
    lemma_soe_datalength_value_round_trip(a.data_length, 0);
    lemma_soe_display_format_value_round_trip(a.display_format, 0);
    let b2 = a.spec_format_byte();
    let b3 = a.spec_protection_byte();
    assert(b2 % 8 == a.data_length.spec_to_u8());
    assert((b2 / 8) % 2 == flag_bit(a.is_command));
    assert((b2 / 16) % 8 == a.display_format.spec_to_u8());
    assert(b3 % 16 == a.decimal_places % 16);
    assert((b3 / 16) % 2 == flag_bit(a.write_protect_cp2));
    assert((b3 / 32) % 2 == flag_bit(a.write_protect_cp3));
    assert((b3 / 64) % 2 == flag_bit(a.write_protect_cp4));
    assert(le_u16(low_byte(a.conversion_factor), high_byte(a.conversion_factor))
        == a.conversion_factor);
}

proof fn lemma_format_byte_fields(b: u8)
    ensures
        b % 8 + 8 * flag_bit((b / 8) % 2 == 1) + 16 * ((b / 16) % 8) == b % 128,
{
    assert(b % 8 + 8 * ((b / 8) % 2) + 16 * ((b / 16) % 8) == b % 128) by (bit_vector);
}

proof fn lemma_protection_byte_fields(b: u8)
    ensures
        b % 16 + 16 * flag_bit((b / 16) % 2 == 1) + 32 * flag_bit((b / 32) % 2 == 1) + 64
            * flag_bit((b / 64) % 2 == 1) == b % 128,
{
    assert(b % 16 + 16 * ((b / 16) % 2) + 32 * ((b / 32) % 2) + 64 * ((b / 64) % 2) == b % 128)
        by (bit_vector);
}

/// Attributes read from four bytes pack back into those bytes with the two
/// reserved bits (bit 7 of bytes 2 and 3) cleared.
pub proof fn lemma_soe_attributes_bytes_round_trip(buf: Seq<u8>)
    ensures
        SoeAttributes::spec_unpack(buf) matches Ok(a) ==> a.spec_pack() == seq![
            buf[0],
            buf[1],
            (buf[2] % 128) as u8,
            (buf[3] % 128) as u8,
        ],
{
    if let Ok(a) = SoeAttributes::spec_unpack(buf) {
        let b2 = buf[2];
        let b3 = buf[3];
        lemma_soe_datalength_value_round_trip(a.data_length, b2 % 8);
        lemma_soe_display_format_value_round_trip(a.display_format, ((b2 / 16) % 8) as u8);
        lemma_format_byte_fields(b2);
        lemma_protection_byte_fields(b3);
        assert(a.spec_format_byte() == b2 % 128);
        assert(a.spec_protection_byte() == b3 % 128);
        assert(low_byte(le_u16(buf[0], buf[1])) == buf[0]);
        assert(high_byte(le_u16(buf[0], buf[1])) == buf[1]);
        assert(a.spec_pack() =~= seq![buf[0], buf[1], (b2 % 128) as u8, (b3 % 128) as u8]);
    }
}


/// The wire value of every opcode, as the protocol fixes it; every other value
/// stands for none.
pub proof fn lemma_soe_opcode_wire_values(value: u8)
    ensures
        SoeOpcode::spec_from_u8(1) == Some(SoeOpcode::ReadRequest),
        SoeOpcode::ReadRequest.spec_to_u8() == 1,
        SoeOpcode::spec_from_u8(2) == Some(SoeOpcode::ReadResponse),
        SoeOpcode::ReadResponse.spec_to_u8() == 2,
        SoeOpcode::spec_from_u8(3) == Some(SoeOpcode::WriteRequest),
        SoeOpcode::WriteRequest.spec_to_u8() == 3,
        SoeOpcode::spec_from_u8(4) == Some(SoeOpcode::WriteResponse),
        SoeOpcode::WriteResponse.spec_to_u8() == 4,
        SoeOpcode::spec_from_u8(5) == Some(SoeOpcode::Notification),
        SoeOpcode::Notification.spec_to_u8() == 5,
        SoeOpcode::spec_from_u8(6) == Some(SoeOpcode::Emergency),
        SoeOpcode::Emergency.spec_to_u8() == 6,
        (value == 0 || value > 6) ==> SoeOpcode::spec_from_u8(value) is None,
{
}

/// The wire value of every fragmentation flag, as the protocol fixes it; every other value
/// stands for none.
pub proof fn lemma_soe_fragmentation_flag_wire_values(value: u8)
    ensures
        SoeFragmentationFlag::spec_from_u8(0) == Some(SoeFragmentationFlag::CompleteTransmission),
        SoeFragmentationFlag::CompleteTransmission.spec_to_u8() == 0,
        SoeFragmentationFlag::spec_from_u8(1) == Some(SoeFragmentationFlag::IncompleteFrame),
        SoeFragmentationFlag::IncompleteFrame.spec_to_u8() == 1,
        value > 1 ==> SoeFragmentationFlag::spec_from_u8(value) is None,
{
}

/// The wire value of every error flag, as the protocol fixes it; every other value
/// stands for none.
pub proof fn lemma_soe_error_flag_wire_values(value: u8)
    ensures
        SoeErrorFlag::spec_from_u8(0) == Some(SoeErrorFlag::NoError),
        SoeErrorFlag::NoError.spec_to_u8() == 0,
        SoeErrorFlag::spec_from_u8(1) == Some(SoeErrorFlag::ErrorOccurred),
        SoeErrorFlag::ErrorOccurred.spec_to_u8() == 1,
        value > 1 ==> SoeErrorFlag::spec_from_u8(value) is None,
{
}

/// The wire value of every element flag, as the protocol fixes it; every other value
/// stands for none.
pub proof fn lemma_soe_element_flag_wire_values(value: u8)
    ensures
        SoeElementFlag::spec_from_u8(0x00) == Some(SoeElementFlag::NoElement),
        SoeElementFlag::NoElement.spec_to_u8() == 0x00,
        SoeElementFlag::spec_from_u8(0x01) == Some(SoeElementFlag::DataStateStatus),
        SoeElementFlag::DataStateStatus.spec_to_u8() == 0x01,
        SoeElementFlag::spec_from_u8(0x02) == Some(SoeElementFlag::NameDescriptor),
        SoeElementFlag::NameDescriptor.spec_to_u8() == 0x02,
        SoeElementFlag::spec_from_u8(0x04) == Some(SoeElementFlag::Attribute),
        SoeElementFlag::Attribute.spec_to_u8() == 0x04,
        SoeElementFlag::spec_from_u8(0x08) == Some(SoeElementFlag::Unit),
        SoeElementFlag::Unit.spec_to_u8() == 0x08,
        SoeElementFlag::spec_from_u8(0x10) == Some(SoeElementFlag::MinimumValue),
        SoeElementFlag::MinimumValue.spec_to_u8() == 0x10,
        SoeElementFlag::spec_from_u8(0x20) == Some(SoeElementFlag::MaximumValue),
        SoeElementFlag::MaximumValue.spec_to_u8() == 0x20,
        SoeElementFlag::spec_from_u8(0x40) == Some(SoeElementFlag::ValueData),
        SoeElementFlag::ValueData.spec_to_u8() == 0x40,
        !(value == 0 || value == 1 || value == 2 || value == 4 || value == 8 || value == 16 || value == 32 || value == 64) ==> SoeElementFlag::spec_from_u8(value) is None,
{
}

/// The wire value of every data length, as the protocol fixes it; every other value
/// stands for none.
pub proof fn lemma_soe_datalength_wire_values(value: u8)
    ensures
        SoeDatalength::spec_from_u8(1) == Some(SoeDatalength::TwoBytes),
        SoeDatalength::TwoBytes.spec_to_u8() == 1,
        SoeDatalength::spec_from_u8(2) == Some(SoeDatalength::FourBytes),
        SoeDatalength::FourBytes.spec_to_u8() == 2,
        SoeDatalength::spec_from_u8(3) == Some(SoeDatalength::EightBytes),
        SoeDatalength::EightBytes.spec_to_u8() == 3,
        SoeDatalength::spec_from_u8(4) == Some(SoeDatalength::Variable1ByteStrings),
        SoeDatalength::Variable1ByteStrings.spec_to_u8() == 4,
        SoeDatalength::spec_from_u8(5) == Some(SoeDatalength::Variable2ByteStrings),
        SoeDatalength::Variable2ByteStrings.spec_to_u8() == 5,
        SoeDatalength::spec_from_u8(6) == Some(SoeDatalength::Variable4ByteStrings),
        SoeDatalength::Variable4ByteStrings.spec_to_u8() == 6,
        SoeDatalength::spec_from_u8(7) == Some(SoeDatalength::Variable8ByteStrings),
        SoeDatalength::Variable8ByteStrings.spec_to_u8() == 7,
        (value == 0 || value > 7) ==> SoeDatalength::spec_from_u8(value) is None,
{
}

/// The wire value of every display format, as the protocol fixes it; every other value
/// stands for none.
pub proof fn lemma_soe_display_format_wire_values(value: u8)
    ensures
        SoeDisplayFormat::spec_from_u8(0) == Some(SoeDisplayFormat::Binary),
        SoeDisplayFormat::Binary.spec_to_u8() == 0,
        SoeDisplayFormat::spec_from_u8(1) == Some(SoeDisplayFormat::UnsignedIntegerDec),
        SoeDisplayFormat::UnsignedIntegerDec.spec_to_u8() == 1,
        SoeDisplayFormat::spec_from_u8(2) == Some(SoeDisplayFormat::SignedIntegerDec),
        SoeDisplayFormat::SignedIntegerDec.spec_to_u8() == 2,
        SoeDisplayFormat::spec_from_u8(3) == Some(SoeDisplayFormat::UnsignedIntegerHex),
        SoeDisplayFormat::UnsignedIntegerHex.spec_to_u8() == 3,
        SoeDisplayFormat::spec_from_u8(4) == Some(SoeDisplayFormat::ExtendedCharacterSet),
        SoeDisplayFormat::ExtendedCharacterSet.spec_to_u8() == 4,
        SoeDisplayFormat::spec_from_u8(5) == Some(SoeDisplayFormat::UnsignedIntegerIDN),
        SoeDisplayFormat::UnsignedIntegerIDN.spec_to_u8() == 5,
        SoeDisplayFormat::spec_from_u8(6) == Some(SoeDisplayFormat::ANSI754_1985),
        SoeDisplayFormat::ANSI754_1985.spec_to_u8() == 6,
        SoeDisplayFormat::spec_from_u8(7) == Some(SoeDisplayFormat::SERCOStime),
        SoeDisplayFormat::SERCOStime.spec_to_u8() == 7,
        value > 7 ==> SoeDisplayFormat::spec_from_u8(value) is None,
{
}


/// Where each field of the SoE header lies: the opcode in bits 0 to 2 of byte 0,
/// the fragmentation flag in bit 3, the error flag in bit 4, the drive number in
/// bits 5 to 7, the element flag in byte 1, and the IDN little endian in bytes 2
/// and 3. Packing puts each field there, and reading takes it from there.
pub proof fn lemma_soe_header_layout(h: SoeHeader, buf: Seq<u8>)
    ensures
        h.spec_pack().len() == 4,
        h.spec_pack()[0] % 8 == h.opcode.spec_to_u8(),
        (h.spec_pack()[0] / 8) % 2 == 1 <==> h.fragmentation == SoeFragmentationFlag::IncompleteFrame,
        (h.spec_pack()[0] / 16) % 2 == 1 <==> h.error == SoeErrorFlag::ErrorOccurred,
        h.spec_pack()[0] / 32 == h.drive_num % 8,
        h.spec_pack()[1] == h.element_flag.spec_to_u8(),
        h.spec_pack()[2] == h.idn % 256,
        h.spec_pack()[3] == h.idn / 256,
        SoeHeader::spec_unpack(buf) matches Ok(r) ==> {
            &&& r.opcode.spec_to_u8() == buf[0] % 8
            &&& (r.fragmentation == SoeFragmentationFlag::IncompleteFrame <==> (buf[0] / 8) % 2 == 1)
            &&& (r.error == SoeErrorFlag::ErrorOccurred <==> (buf[0] / 16) % 2 == 1)
            &&& r.drive_num == buf[0] / 32
            &&& r.element_flag.spec_to_u8() == buf[1]
            &&& r.idn == buf[2] + 256 * buf[3]
        },
{
    lemma_soe_opcode_wire_values(0);
    lemma_soe_fragmentation_flag_wire_values(0);
    lemma_soe_error_flag_wire_values(0);
    lemma_soe_opcode_value_round_trip(h.opcode, 0);
    lemma_soe_element_flag_value_round_trip(h.element_flag, 0);
    let b0 = h.spec_flags_byte();
    assert(b0 % 8 == h.opcode.spec_to_u8());
    assert((b0 / 8) % 2 == h.fragmentation.spec_to_u8());
    assert((b0 / 16) % 2 == h.error.spec_to_u8());
    assert(b0 / 32 == h.drive_num % 8);
    if let Ok(r) = SoeHeader::spec_unpack(buf) {
        lemma_soe_opcode_value_round_trip(r.opcode, buf[0] % 8);
        lemma_soe_fragmentation_flag_value_round_trip(r.fragmentation, ((buf[0] / 8) % 2) as u8);
        lemma_soe_error_flag_value_round_trip(r.error, ((buf[0] / 16) % 2) as u8);
        lemma_soe_element_flag_value_round_trip(r.element_flag, buf[1]);
    }
}

/// Where each field of the attribute word lies: the conversion factor little
/// endian in bytes 0 and 1; in byte 2 the data length (bits 0 to 2), the command
/// flag (bit 3) and the display format (bits 4 to 6); in byte 3 the decimal
/// places (bits 0 to 3) and the write protection of CP2, CP3 and CP4 (bits 4, 5
/// and 6). A data length code `k` of 1 to 3 reads as a value of `8 * 2^k` bits,
/// a code of 4 to 7 as a variable length string (0 bits), and code 0 is refused.
pub proof fn lemma_soe_attributes_layout(buf: Seq<u8>)
    ensures
        SoeAttributes::spec_unpack(buf) matches Ok(a) ==> {
            &&& a.conversion_factor == buf[0] + 256 * buf[1]
            &&& a.data_length.spec_to_u8() == buf[2] % 8
            &&& a.is_command == ((buf[2] / 8) % 2 == 1)
            &&& a.display_format.spec_to_u8() == (buf[2] / 16) % 8
            &&& a.decimal_places == buf[3] % 16
            &&& a.write_protect_cp2 == ((buf[3] / 16) % 2 == 1)
            &&& a.write_protect_cp3 == ((buf[3] / 32) % 2 == 1)
            &&& a.write_protect_cp4 == ((buf[3] / 64) % 2 == 1)
            &&& (buf[2] % 8 == 1 ==> a.data_length.spec_bit_len() == 16)
            &&& (buf[2] % 8 == 2 ==> a.data_length.spec_bit_len() == 32)
            &&& (buf[2] % 8 == 3 ==> a.data_length.spec_bit_len() == 64)
            &&& (buf[2] % 8 >= 4 ==> a.data_length.spec_bit_len() == 0)
        },
        buf.len() >= 4 && buf[2] % 8 == 0 ==> SoeAttributes::spec_unpack(buf) == Err::<
            SoeAttributes,
            UnpackError,
        >(UnpackError::InvalidValue),
{
    lemma_soe_datalength_wire_values(0);
    if let Ok(a) = SoeAttributes::spec_unpack(buf) {
        lemma_soe_datalength_value_round_trip(a.data_length, buf[2] % 8);
        lemma_soe_display_format_value_round_trip(a.display_format, ((buf[2] / 16) % 8) as u8);
    }
}

/// A data length of a fixed size is as many bits as its bytes hold; a variable
/// length string has no fixed width.
pub proof fn lemma_bit_len_of_each_length()
    ensures
        SoeDatalength::TwoBytes.spec_bit_len() == 2 * 8,
        SoeDatalength::FourBytes.spec_bit_len() == 4 * 8,
        SoeDatalength::EightBytes.spec_bit_len() == 8 * 8,
        SoeDatalength::Variable1ByteStrings.spec_bit_len() == 0,
        SoeDatalength::Variable2ByteStrings.spec_bit_len() == 0,
        SoeDatalength::Variable4ByteStrings.spec_bit_len() == 0,
        SoeDatalength::Variable8ByteStrings.spec_bit_len() == 0,
{
}


/// Little endian: the low byte comes first, the high byte second.
pub proof fn lemma_little_endian(lo: u8, hi: u8, v: u16)
    ensures
        le_u16(lo, hi) == lo + 256 * hi,
        low_byte(v) == v % 256,
        high_byte(v) == v / 256,
        le_u16(low_byte(v), high_byte(v)) == v,
{
}

} // verus!
