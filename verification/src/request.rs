//! The combined mailbox and SoE header of a single IDN request.

use vstd::prelude::*;

use crate::headers::{
    lemma_soe_header_bytes_round_trip, lemma_soe_header_round_trip, SoeElementFlag,
    SoeErrorFlag, SoeFragmentationFlag, SoeHeader, SoeOpcode,
};
use crate::mailbox::{
    lemma_mailbox_header_bytes_round_trip, lemma_mailbox_header_round_trip, MailboxHeader,
    MailboxType, Priority,
};
use crate::wire::UnpackError;

verus! {

/// Length in bytes of a packed [`IdnHeader`].
pub const IDN_HEADER_LEN: usize = 10;

/// Mailbox header (bytes 0 to 5) followed by SoE header (bytes 6 to 9).
#[derive(Clone, Copy, Debug, PartialEq, Eq, Structural)]
pub struct IdnHeader {
    pub mailbox_header: MailboxHeader,
    pub soe_header: SoeHeader,
}

impl IdnHeader {
    /// The header of a read request for element `flag` of IDN `idn_address`.
    pub open spec fn spec_for_reading(
        counter: u8,
        drive_num: u8,
        idn_address: u16,
        flag: SoeElementFlag,
    ) -> IdnHeader {
        IdnHeader {
            mailbox_header: MailboxHeader {
                length: 4,
                priority: Priority::Lowest,
                mailbox_type: MailboxType::Soe,
                counter,
            },
            soe_header: SoeHeader {
                opcode: SoeOpcode::ReadRequest,
                fragmentation: SoeFragmentationFlag::CompleteTransmission,
                error: SoeErrorFlag::NoError,
                drive_num,
                element_flag: flag,
                idn: idn_address,
            },
        }
    }

    /// The header of a write request of `data_len` bytes to element `flag` of IDN `idn_address`.
    pub open spec fn spec_for_writing(
        counter: u8,
        drive_num: u8,
        idn_address: u16,
        flag: SoeElementFlag,
        data_len: u16,
    ) -> IdnHeader {
        IdnHeader {
            mailbox_header: MailboxHeader {
                length: (4 + data_len) as u16,
                priority: Priority::Lowest,
                mailbox_type: MailboxType::Soe,
                counter,
            },
            soe_header: SoeHeader {
                opcode: SoeOpcode::WriteRequest,
                fragmentation: SoeFragmentationFlag::CompleteTransmission,
                error: SoeErrorFlag::NoError,
                drive_num,
                element_flag: flag,
                idn: idn_address,
            },
        }
    }

    /// Header of a complete, unfragmented read request: the mailbox carries only
    /// the four byte SoE header.
    pub fn for_reading(
        counter: u8,
        drive_num: u8,
        idn_address: u16,
        flag: SoeElementFlag,
    ) -> (h: IdnHeader)
        ensures
            h == Self::spec_for_reading(counter, drive_num, idn_address, flag),
    {
        let mailbox_header = MailboxHeader {
            length: 0x04,
            priority: Priority::Lowest,
            mailbox_type: MailboxType::Soe,
            counter,
        };
        let soe_header = SoeHeader {
            opcode: SoeOpcode::ReadRequest,
            fragmentation: SoeFragmentationFlag::CompleteTransmission,
            error: SoeErrorFlag::NoError,
            drive_num,
            element_flag: flag,
            idn: idn_address,
        };
        IdnHeader { mailbox_header, soe_header }
    }

    /// Header of a complete, unfragmented write request whose payload is
    /// `data_len` bytes: the mailbox carries the SoE header and the payload.
    pub fn for_writing(
        counter: u8,
        drive_num: u8,
        idn_address: u16,
        flag: SoeElementFlag,
        data_len: u16,
    ) -> (h: IdnHeader)
        requires
            4 + data_len <= u16::MAX,
        ensures
            h == Self::spec_for_writing(counter, drive_num, idn_address, flag, data_len),
    {
        let mailbox_header = MailboxHeader {
            length: 0x04 + data_len,
            priority: Priority::Lowest,
            mailbox_type: MailboxType::Soe,
            counter,
        };
        let soe_header = SoeHeader {
            opcode: SoeOpcode::WriteRequest,
            fragmentation: SoeFragmentationFlag::CompleteTransmission,
            error: SoeErrorFlag::NoError,
            drive_num,
            element_flag: flag,
            idn: idn_address,
        };
        IdnHeader { mailbox_header, soe_header }
    }

    /// This header as the wire carries it.
    pub open spec fn spec_as_carried(self) -> IdnHeader {
        IdnHeader {
            mailbox_header: self.mailbox_header.spec_as_carried(),
            soe_header: self.soe_header.spec_as_carried(),
        }
    }

    /// The ten bytes that stand for this header on the wire.
    pub open spec fn spec_pack(self) -> Seq<u8> {
        self.mailbox_header.spec_pack() + self.soe_header.spec_pack()
    }

    /// The header that the first ten bytes of `buf` stand for.
    pub open spec fn spec_unpack(buf: Seq<u8>) -> Result<IdnHeader, UnpackError> {
        if buf.len() < 10 {
            Err(UnpackError::ReadBufferTooShort)
        } else {
            match MailboxHeader::spec_unpack(buf.subrange(0, 6)) {
                Err(e) => Err(e),
                Ok(mailbox_header) => match SoeHeader::spec_unpack(buf.subrange(6, 10)) {
                    Err(e) => Err(e),
                    Ok(soe_header) => Ok(IdnHeader { mailbox_header, soe_header }),
                },
            }
        }
    }

    /// Packs this header into its ten wire bytes.
    pub fn pack(&self) -> (bytes: [u8; 10])
        ensures
            bytes@ == self.spec_pack(),
    {
        let m = self.mailbox_header.pack();
        let s = self.soe_header.pack();
        let bytes = [m[0], m[1], m[2], m[3], m[4], m[5], s[0], s[1], s[2], s[3]];
        assert(bytes@ =~= self.spec_pack());
        bytes
    }

    /// Reads a header from the first ten bytes of `buf`.
    pub fn unpack_from_slice(buf: &[u8]) -> (res: Result<IdnHeader, UnpackError>)
        ensures
            res == Self::spec_unpack(buf@),
    {
        if buf.len() < 10 {
            return Err(UnpackError::ReadBufferTooShort);
        }
        let mailbox_bytes = [buf[0], buf[1], buf[2], buf[3], buf[4], buf[5]];
        let soe_bytes = [buf[6], buf[7], buf[8], buf[9]];
        assert(mailbox_bytes@ =~= buf@.subrange(0, 6));
        assert(soe_bytes@ =~= buf@.subrange(6, 10));
        let mailbox_header = MailboxHeader::unpack_from_slice(mailbox_bytes.as_slice())?;
        let soe_header = SoeHeader::unpack_from_slice(soe_bytes.as_slice())?;
        Ok(IdnHeader { mailbox_header, soe_header })
    }
}

/// A header read back from its own packing is the header as the wire carries it.
pub proof fn lemma_idn_header_round_trip(h: IdnHeader)
    ensures
        IdnHeader::spec_unpack(h.spec_pack()) == Ok::<IdnHeader, UnpackError>(h.spec_as_carried()),
{
    lemma_mailbox_header_round_trip(h.mailbox_header);
    lemma_soe_header_round_trip(h.soe_header);
    let b = h.spec_pack();
    assert(b.subrange(0, 6) =~= h.mailbox_header.spec_pack());
    assert(b.subrange(6, 10) =~= h.soe_header.spec_pack());
}

/// A read request header, packed and read back, is unchanged whenever its counter
/// and drive number fit their three bit fields.
pub proof fn lemma_read_request_round_trip(
    counter: u8,
    drive_num: u8,
    idn_address: u16,
    flag: SoeElementFlag,
)
    requires
        counter < 8,
        drive_num < 8,
    ensures
        ({
            let h = IdnHeader::spec_for_reading(counter, drive_num, idn_address, flag);
            IdnHeader::spec_unpack(h.spec_pack()) == Ok::<IdnHeader, UnpackError>(h)
        }),
{
    lemma_idn_header_round_trip(IdnHeader::spec_for_reading(counter, drive_num, idn_address, flag));
}

/// A header read from ten bytes packs back into those bytes, but for the
/// mailbox address and reserved bits, which are cleared.
pub proof fn lemma_idn_header_bytes_round_trip(buf: Seq<u8>)
    ensures
        IdnHeader::spec_unpack(buf) matches Ok(h) ==> h.spec_pack() == seq![
            buf[0],
            buf[1],
            0u8,
            0u8,
            (buf[4] / 64 * 64) as u8,
            (buf[5] % 128) as u8,
            buf[6],
            buf[7],
            buf[8],
            buf[9],
        ],
{
    if let Ok(h) = IdnHeader::spec_unpack(buf) {
        let m = buf.subrange(0, 6);
        let s = buf.subrange(6, 10);
        lemma_mailbox_header_bytes_round_trip(m);
        lemma_soe_header_bytes_round_trip(s);
        assert(s.take(4) =~= s);
        assert(h.spec_pack() =~= seq![
            buf[0],
            buf[1],
            0u8,
            0u8,
            (buf[4] / 64 * 64) as u8,
            (buf[5] % 128) as u8,
            buf[6],
            buf[7],
            buf[8],
            buf[9],
        ]);
    }
}

} // verus!
