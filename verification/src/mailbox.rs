//! The mailbox header that precedes every mailbox message (ETG1000.6, `MbxHeader`).

use vstd::prelude::*;

use crate::headers::{high_byte, le_u16, low_byte, u16_from_le, u16_le_bytes};
use crate::wire::{value_or_invalid, UnpackError};

verus! {

/// Priority of a mailbox message (bits 6 and 7 of byte 4 of the mailbox header).
#[derive(Clone, Copy, Debug, PartialEq, Eq, Structural)]
pub enum Priority {
    /// Lowest priority
    Lowest,
    /// Low priority
    Low,
    /// High priority
    High,
    /// Highest priority
    Highest,
}

impl Priority {
    /// The value that stands for this priority on the wire.
    pub open spec fn spec_to_u8(self) -> u8 {
        match self {
            Priority::Lowest => 0x00,
            Priority::Low => 0x01,
            Priority::High => 0x02,
            Priority::Highest => 0x03,
        }
    }

    /// The priority that the wire value `value` stands for, if any.
    pub open spec fn spec_from_u8(value: u8) -> Option<Self> {
        match value {
            0x00 => Some(Priority::Lowest),
            0x01 => Some(Priority::Low),
            0x02 => Some(Priority::High),
            0x03 => Some(Priority::Highest),
            _ => None,
        }
    }

    /// The value that stands for this priority on the wire.
    pub fn to_u8(self) -> (value: u8)
        ensures
            value == self.spec_to_u8(),
    {
        match self {
            Priority::Lowest => 0x00,
            Priority::Low => 0x01,
            Priority::High => 0x02,
            Priority::Highest => 0x03,
        }
    }

    /// Reads a priority from its wire value; a value that stands for none is refused.
    pub fn from_u8(value: u8) -> (res: Result<Self, UnpackError>)
        ensures
            res == value_or_invalid(Self::spec_from_u8(value)),
    {
        match value {
            0x00 => Ok(Priority::Lowest),
            0x01 => Ok(Priority::Low),
            0x02 => Ok(Priority::High),
            0x03 => Ok(Priority::Highest),
            _ => Err(UnpackError::InvalidValue),
        }
    }
}

/// Every priority reads back from its own wire value, and a wire value reads
/// only as the priority that writes it.
pub proof fn lemma_priority_value_round_trip(e: Priority, value: u8)
    ensures
        Priority::spec_from_u8(e.spec_to_u8()) == Some(e),
        Priority::spec_from_u8(value) == Some(e) ==> e.spec_to_u8() == value,
{
}

/// Protocol carried by a mailbox message (bits 0 to 3 of byte 5 of the mailbox header).
#[derive(Clone, Copy, Debug, PartialEq, Eq, Structural)]
pub enum MailboxType {
    /// Error (ERR)
    Error,
    /// ADS over EtherCAT (AoE)
    Aoe,
    /// Ethernet over EtherCAT (EoE)
    Eoe,
    /// CAN application protocol over EtherCAT (CoE)
    Coe,
    /// File Access over EtherCAT (FoE)
    Foe,
    /// Servo Drive Profile over EtherCAT (SoE)
    Soe,
    /// Vendor specific
    VendorSpecific,
}

impl MailboxType {
    /// The value that stands for this mailbox type on the wire.
    pub open spec fn spec_to_u8(self) -> u8 {
        match self {
            MailboxType::Error => 0x00,
            MailboxType::Aoe => 0x01,
            MailboxType::Eoe => 0x02,
            MailboxType::Coe => 0x03,
            MailboxType::Foe => 0x04,
            MailboxType::Soe => 0x05,
            MailboxType::VendorSpecific => 0x0f,
        }
    }

    /// The mailbox type that the wire value `value` stands for, if any.
    pub open spec fn spec_from_u8(value: u8) -> Option<Self> {
        match value {
            0x00 => Some(MailboxType::Error),
            0x01 => Some(MailboxType::Aoe),
            0x02 => Some(MailboxType::Eoe),
            0x03 => Some(MailboxType::Coe),
            0x04 => Some(MailboxType::Foe),
            0x05 => Some(MailboxType::Soe),
            0x0f => Some(MailboxType::VendorSpecific),
            _ => None,
        }
    }

    /// The value that stands for this mailbox type on the wire.
    pub fn to_u8(self) -> (value: u8)
        ensures
            value == self.spec_to_u8(),
    {
        match self {
            MailboxType::Error => 0x00,
            MailboxType::Aoe => 0x01,
            MailboxType::Eoe => 0x02,
            MailboxType::Coe => 0x03,
            MailboxType::Foe => 0x04,
            MailboxType::Soe => 0x05,
            MailboxType::VendorSpecific => 0x0f,
        }
    }

    /// Reads a mailbox type from its wire value; a value that stands for none is refused.
    pub fn from_u8(value: u8) -> (res: Result<Self, UnpackError>)
        ensures
            res == value_or_invalid(Self::spec_from_u8(value)),
    {
        match value {
            0x00 => Ok(MailboxType::Error),
            0x01 => Ok(MailboxType::Aoe),
            0x02 => Ok(MailboxType::Eoe),
            0x03 => Ok(MailboxType::Coe),
            0x04 => Ok(MailboxType::Foe),
            0x05 => Ok(MailboxType::Soe),
            0x0f => Ok(MailboxType::VendorSpecific),
            _ => Err(UnpackError::InvalidValue),
        }
    }
}

/// Every mailbox type reads back from its own wire value, and a wire value reads
/// only as the mailbox type that writes it.
pub proof fn lemma_mailbox_type_value_round_trip(e: MailboxType, value: u8)
    ensures
        MailboxType::spec_from_u8(e.spec_to_u8()) == Some(e),
        MailboxType::spec_from_u8(value) == Some(e) ==> e.spec_to_u8() == value,
{
}

/// Length in bytes of a packed [`MailboxHeader`].
pub const MAILBOX_HEADER_LEN: usize = 6;

/// The six byte header of a mailbox message.
///
/// Bytes 0 and 1 hold the length of the data that follows the header, little
/// endian; bytes 2 and 3 the station address, which this library always writes
/// as zero and does not read; byte 4 the priority in bits 6 and 7 (bits 0 to 5
/// are reserved); byte 5 the mailbox type (bits 0 to 3) and the counter (bits 4
/// to 6; bit 7 is reserved).
#[derive(Clone, Copy, Debug, PartialEq, Eq, Structural)]
pub struct MailboxHeader {
    /// Length in bytes of the data that follows this header.
    pub length: u16,
    pub priority: Priority,
    pub mailbox_type: MailboxType,
    /// Only the low three bits are carried on the wire.
    pub counter: u8,
}

impl MailboxHeader {
    /// Byte 4: the priority in its top two bits.
    pub open spec fn spec_priority_byte(self) -> u8 {
        (64 * self.priority.spec_to_u8()) as u8
    }

    /// Byte 5: mailbox type and counter.
    pub open spec fn spec_type_byte(self) -> u8 {
        (self.mailbox_type.spec_to_u8() + 16 * (self.counter % 8)) as u8
    }

    /// This header as the wire carries it: the counter cut to its low three bits.
    pub open spec fn spec_as_carried(self) -> MailboxHeader {
        MailboxHeader { counter: self.counter % 8, ..self }
    }

    /// The six bytes that stand for this header on the wire.
    pub open spec fn spec_pack(self) -> Seq<u8> {
        seq![
            low_byte(self.length),
            high_byte(self.length),
            0u8,
            0u8,
            self.spec_priority_byte(),
            self.spec_type_byte(),
        ]
    }

    /// The header that the first six bytes of `buf` stand for.
    pub open spec fn spec_unpack(buf: Seq<u8>) -> Result<MailboxHeader, UnpackError> {
        if buf.len() < 6 {
            Err(UnpackError::ReadBufferTooShort)
        } else {
            match (
                Priority::spec_from_u8(buf[4] / 64),
                MailboxType::spec_from_u8(buf[5] % 16),
            ) {
                (Some(priority), Some(mailbox_type)) => Ok(
                    MailboxHeader {
                        length: le_u16(buf[0], buf[1]),
                        priority,
                        mailbox_type,
                        counter: (buf[5] / 16) % 8,
                    },
                ),
                _ => Err(UnpackError::InvalidValue),
            }
        }
    }

    /// Packs this header into its six wire bytes; only the low three bits of the
    /// counter are kept, and the address and reserved bits are zero.
    pub fn pack(&self) -> (bytes: [u8; 6])
        ensures
            bytes@ == self.spec_pack(),
    {
        let (lo, hi) = u16_le_bytes(self.length);
        let b4 = 64 * self.priority.to_u8();
        let b5 = self.mailbox_type.to_u8() + 16 * (self.counter % 8);
        let bytes = [lo, hi, 0u8, 0u8, b4, b5];
        assert(bytes@ =~= self.spec_pack());
        bytes
    }

    /// Reads a header from the first six bytes of `buf`.
    pub fn unpack_from_slice(buf: &[u8]) -> (res: Result<MailboxHeader, UnpackError>)
        ensures
            res == Self::spec_unpack(buf@),
    {
        if buf.len() < 6 {
            return Err(UnpackError::ReadBufferTooShort);
        }
        match (Priority::from_u8(buf[4] / 64), MailboxType::from_u8(buf[5] % 16)) {
            (Ok(priority), Ok(mailbox_type)) => Ok(
                MailboxHeader {
                    length: u16_from_le(buf[0], buf[1]),
                    priority,
                    mailbox_type,
                    counter: (buf[5] / 16) % 8,
                },
            ),
            _ => Err(UnpackError::InvalidValue),
        }
    }
}

/// A mailbox header read back from its own packing is the header itself, but
/// for the counter, of which only the low three bits travel.
pub proof fn lemma_mailbox_header_round_trip(h: MailboxHeader)
    ensures
        MailboxHeader::spec_unpack(h.spec_pack()) == Ok::<MailboxHeader, UnpackError>(
            h.spec_as_carried(),
        ),
        h.counter < 8 ==> MailboxHeader::spec_unpack(h.spec_pack()) == Ok::<
            MailboxHeader,
            UnpackError,
        >(h),
{
    lemma_priority_value_round_trip(h.priority, 0);
    lemma_mailbox_type_value_round_trip(h.mailbox_type, 0);
    let b5 = h.spec_type_byte();
    assert(h.spec_priority_byte() / 64 == h.priority.spec_to_u8());
    assert(b5 % 16 == h.mailbox_type.spec_to_u8());
    assert((b5 / 16) % 8 == h.counter % 8);
    assert(le_u16(low_byte(h.length), high_byte(h.length)) == h.length);
}

/// A mailbox header read from six bytes packs back into those bytes with the
/// address and the reserved bits cleared.
pub proof fn lemma_mailbox_header_bytes_round_trip(buf: Seq<u8>)
    ensures
        MailboxHeader::spec_unpack(buf) matches Ok(h) ==> h.spec_pack() == seq![
            buf[0],
            buf[1],
            0u8,
            0u8,
            (buf[4] / 64 * 64) as u8,
            (buf[5] % 128) as u8,
        ],
{
    if let Ok(h) = MailboxHeader::spec_unpack(buf) {
        let b4 = buf[4];
        let b5 = buf[5];
        lemma_priority_value_round_trip(h.priority, b4 / 64);
        lemma_mailbox_type_value_round_trip(h.mailbox_type, b5 % 16);
        assert(b5 % 16 + 16 * ((b5 / 16) % 8) == b5 % 128) by (bit_vector);
        assert(low_byte(le_u16(buf[0], buf[1])) == buf[0]);
        assert(high_byte(le_u16(buf[0], buf[1])) == buf[1]);
        assert(h.spec_pack() =~= seq![
            buf[0],
            buf[1],
            0u8,
            0u8,
            (b4 / 64 * 64) as u8,
            (b5 % 128) as u8,
        ]);
    }
}


/// The wire value of every priority, as the protocol fixes it; every other value
/// stands for none.
pub proof fn lemma_priority_wire_values(value: u8)
    ensures
        Priority::spec_from_u8(0) == Some(Priority::Lowest),
        Priority::Lowest.spec_to_u8() == 0,
        Priority::spec_from_u8(1) == Some(Priority::Low),
        Priority::Low.spec_to_u8() == 1,
        Priority::spec_from_u8(2) == Some(Priority::High),
        Priority::High.spec_to_u8() == 2,
        Priority::spec_from_u8(3) == Some(Priority::Highest),
        Priority::Highest.spec_to_u8() == 3,
        value > 3 ==> Priority::spec_from_u8(value) is None,
{
}

/// The wire value of every mailbox type, as the protocol fixes it; every other value
/// stands for none.
pub proof fn lemma_mailbox_type_wire_values(value: u8)
    ensures
        MailboxType::spec_from_u8(0) == Some(MailboxType::Error),
        MailboxType::Error.spec_to_u8() == 0,
        MailboxType::spec_from_u8(1) == Some(MailboxType::Aoe),
        MailboxType::Aoe.spec_to_u8() == 1,
        MailboxType::spec_from_u8(2) == Some(MailboxType::Eoe),
        MailboxType::Eoe.spec_to_u8() == 2,
        MailboxType::spec_from_u8(3) == Some(MailboxType::Coe),
        MailboxType::Coe.spec_to_u8() == 3,
        MailboxType::spec_from_u8(4) == Some(MailboxType::Foe),
        MailboxType::Foe.spec_to_u8() == 4,
        MailboxType::spec_from_u8(5) == Some(MailboxType::Soe),
        MailboxType::Soe.spec_to_u8() == 5,
        MailboxType::spec_from_u8(15) == Some(MailboxType::VendorSpecific),
        MailboxType::VendorSpecific.spec_to_u8() == 15,
        (value > 5 && value != 15) ==> MailboxType::spec_from_u8(value) is None,
{
}


/// Where each field of the mailbox header lies: the length little endian in
/// bytes 0 and 1, zero in bytes 2 and 3, the priority in bits 6 and 7 of byte 4,
/// the mailbox type in bits 0 to 3 of byte 5 and the counter in bits 4 to 6.
pub proof fn lemma_mailbox_header_layout(h: MailboxHeader, buf: Seq<u8>)
    ensures
        h.spec_pack().len() == 6,
        h.spec_pack()[0] == h.length % 256,
        h.spec_pack()[1] == h.length / 256,
        h.spec_pack()[2] == 0,
        h.spec_pack()[3] == 0,
        h.spec_pack()[4] % 64 == 0,
        h.spec_pack()[4] / 64 == h.priority.spec_to_u8(),
        h.spec_pack()[5] % 16 == h.mailbox_type.spec_to_u8(),
        (h.spec_pack()[5] / 16) % 8 == h.counter % 8,
        h.spec_pack()[5] / 128 == 0,
        MailboxHeader::spec_unpack(buf) matches Ok(r) ==> {
            &&& r.length == buf[0] + 256 * buf[1]
            &&& r.priority.spec_to_u8() == buf[4] / 64
            &&& r.mailbox_type.spec_to_u8() == buf[5] % 16
            &&& r.counter == (buf[5] / 16) % 8
        },
{
    lemma_priority_value_round_trip(h.priority, 0);
    lemma_mailbox_type_value_round_trip(h.mailbox_type, 0);
    lemma_priority_wire_values(0);
    lemma_mailbox_type_wire_values(0);
    if let Ok(r) = MailboxHeader::spec_unpack(buf) {
        lemma_priority_value_round_trip(r.priority, buf[4] / 64);
        lemma_mailbox_type_value_round_trip(r.mailbox_type, buf[5] % 16);
    }
}

} // verus!
