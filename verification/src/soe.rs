//! SoE services of a SubDevice: the splitting of an outgoing request into
//! mailbox frames, the reading of the SubDevice's response, and the decoding of
//! the IDN elements that a response carries.
//!
//! A transfer alternates mailbox I/O with decisions. The decisions stand here:
//! [`SoeTransfer::next_frame`] says which bytes to send next, and
//! [`parse_response`] what the SubDevice's answer means. The caller performs
//! the I/O in between.

use vstd::prelude::*;

use crate::headers::{
    le_u16, SoeElementFlag, SoeErrorFlag, SoeFragmentationFlag, SoeHeader, SoeOpcode,
    SOE_HEADER_LEN,
};
use crate::mailbox::{MailboxHeader, MailboxType, Priority, MAILBOX_HEADER_LEN};
use crate::wire::{
    le_u32, str_from_utf8, wire_read_string, wire_read_u16, wire_read_u32, UnpackError,
};

verus! {

/// Error code that a SubDevice returns in an SoE response whose error flag is set.
#[derive(Debug, Clone, Copy, PartialEq, Eq, Structural)]
pub enum SoeErrorCode {
    /// `0x0000`: Success.
    Success,
    /// `0x0001`: IDN does not exist.
    IdnDoesNotExist,
    /// `0x0009`: Invalid IDN format.
    InvalidIdnFormat,
    /// `0x0010`: Service not supported.
    ServiceNotSupported,
    /// `0x0011`: Data container too small.
    DataContainerTooSmall,
    /// `0x0020`: Element does not exist.
    ElementDoesNotExist,
    /// `0x0023`: Name element does not exist.
    NameElementDoesNotExist,
    /// `0x0028`: Element not supported.
    ElementNotSupported,
    /// `0x1001`: Write access prohibited.
    WriteAccessProhibited,
    /// `0x1002`: Write blocked by communication phase.
    WriteBlockedByPhase,
    /// `0x1009`: Value outside limits.
    ValueOutsideLimits,
    /// `0x100A`: Invalid value.
    InvalidValue,
    /// `0x2001`: Command execution error.
    CommandExecutionError,
    /// A code that the table does not list, kept as it was received.
    Unknown(u16),
}

impl SoeErrorCode {
    /// The 16 bit code that stands for this error on the wire.
    pub open spec fn spec_code(self) -> u16 {
        match self {
            SoeErrorCode::Success => 0x0000,
            SoeErrorCode::IdnDoesNotExist => 0x0001,
            SoeErrorCode::InvalidIdnFormat => 0x0009,
            SoeErrorCode::ServiceNotSupported => 0x0010,
            SoeErrorCode::DataContainerTooSmall => 0x0011,
            SoeErrorCode::ElementDoesNotExist => 0x0020,
            SoeErrorCode::NameElementDoesNotExist => 0x0023,
            SoeErrorCode::ElementNotSupported => 0x0028,
            SoeErrorCode::WriteAccessProhibited => 0x1001,
            SoeErrorCode::WriteBlockedByPhase => 0x1002,
            SoeErrorCode::ValueOutsideLimits => 0x1009,
            SoeErrorCode::InvalidValue => 0x100A,
            SoeErrorCode::CommandExecutionError => 0x2001,
            SoeErrorCode::Unknown(code) => code,
        }
    }

    /// Whether this error is one of the table's own entries (not `Unknown`).
    pub open spec fn is_listed(self) -> bool {
        !(self is Unknown)
    }
}

/// The table entry whose code is `code`, or `Unknown(code)` where the table has none.
pub open spec fn error_for_code(code: u16) -> SoeErrorCode {
    match code {
        0x0000 => SoeErrorCode::Success,
        0x0001 => SoeErrorCode::IdnDoesNotExist,
        0x0009 => SoeErrorCode::InvalidIdnFormat,
        0x0010 => SoeErrorCode::ServiceNotSupported,
        0x0011 => SoeErrorCode::DataContainerTooSmall,
        0x0020 => SoeErrorCode::ElementDoesNotExist,
        0x0023 => SoeErrorCode::NameElementDoesNotExist,
        0x0028 => SoeErrorCode::ElementNotSupported,
        0x1001 => SoeErrorCode::WriteAccessProhibited,
        0x1002 => SoeErrorCode::WriteBlockedByPhase,
        0x1009 => SoeErrorCode::ValueOutsideLimits,
        0x100A => SoeErrorCode::InvalidValue,
        0x2001 => SoeErrorCode::CommandExecutionError,
        other => SoeErrorCode::Unknown(other),
    }
}

impl From<u16> for SoeErrorCode {
    /// Reads a service channel error code as received from a SubDevice.
    fn from(code: u16) -> (e: Self) {
        match code {
            0x0000 => SoeErrorCode::Success,
            0x0001 => SoeErrorCode::IdnDoesNotExist,
            0x0009 => SoeErrorCode::InvalidIdnFormat,
            0x0010 => SoeErrorCode::ServiceNotSupported,
            0x0011 => SoeErrorCode::DataContainerTooSmall,
            0x0020 => SoeErrorCode::ElementDoesNotExist,
            0x0023 => SoeErrorCode::NameElementDoesNotExist,
            0x0028 => SoeErrorCode::ElementNotSupported,
            0x1001 => SoeErrorCode::WriteAccessProhibited,
            0x1002 => SoeErrorCode::WriteBlockedByPhase,
            0x1009 => SoeErrorCode::ValueOutsideLimits,
            0x100A => SoeErrorCode::InvalidValue,
            0x2001 => SoeErrorCode::CommandExecutionError,
            other => SoeErrorCode::Unknown(other),
        }
    }
}

impl vstd::std_specs::convert::FromSpecImpl<u16> for SoeErrorCode {
    open spec fn obeys_from_spec() -> bool {
        true
    }

    open spec fn from_spec(code: u16) -> Self {
        error_for_code(code)
    }
}

/// Reading a code never loses it: the error read from `code` carries `code`.
pub proof fn lemma_code_survives_reading(code: u16)
    ensures
        error_for_code(code).spec_code() == code,
{
}

/// Every entry of the table is what its own code reads as.
pub proof fn lemma_listed_error_read_back(e: SoeErrorCode)
    requires
        e.is_listed(),
    ensures
        error_for_code(e.spec_code()) == e,
{
}

/// A code reads as `Unknown` exactly when no entry of the table has it.
pub proof fn lemma_unknown_iff_unlisted(code: u16)
    ensures
        (error_for_code(code) is Unknown) <==> (forall|e: SoeErrorCode|
            #[trigger] e.is_listed() ==> e.spec_code() != code),
{
    lemma_code_survives_reading(code);
    if !(error_for_code(code) is Unknown) {
        assert(error_for_code(code).is_listed());
    } else {
        assert forall|e: SoeErrorCode| #[trigger] e.is_listed() implies e.spec_code() != code by {
            if e.spec_code() == code {
                lemma_listed_error_read_back(e);
            }
        }
    }
}


/// SoE services of one SubDevice, reached through `subdevice`.
pub struct Soe<'maindevice, S> {
    subdevice: &'maindevice S,
}

impl<'maindevice, S> Soe<'maindevice, S> {
    /// The SubDevice whose services this handle reaches.
    pub closed spec fn spec_subdevice(&self) -> &'maindevice S {
        self.subdevice
    }

    /// A handle on the SoE services of `subdevice`.
    pub fn new(subdevice: &'maindevice S) -> (soe: Self)
        ensures
            soe.spec_subdevice() == subdevice,
    {
        Self { subdevice }
    }

    /// The SubDevice whose services this handle reaches.
    pub fn subdevice(&self) -> (subdevice: &'maindevice S)
        ensures
            subdevice == self.spec_subdevice(),
    {
        self.subdevice
    }
}

/// Bytes that precede the payload in every SoE mailbox message: the mailbox
/// header and the SoE header.
pub const SOE_FRAME_HEADER_LEN: usize = MAILBOX_HEADER_LEN + SOE_HEADER_LEN;

/// Why an SoE transfer failed.
#[derive(Clone, Copy, Debug, PartialEq, Eq, Structural)]
pub enum SoeTransferError {
    /// The SubDevice answered with its error flag set, and this code.
    Soe(SoeErrorCode),
    /// A header of the response could not be read.
    Wire(UnpackError),
    /// The payload of the response could not be read as the requested value.
    Decode,
    /// The request needs more fragments than the SoE header can count.
    FragmentCountOverflow,
}

/// The state of an outgoing SoE request, as the contracts speak of it.
pub struct TransferView {
    pub opcode: SoeOpcode,
    pub drive_num: u8,
    pub element: SoeElementFlag,
    pub idn_address: u16,
    /// The whole payload of the request.
    pub data: Seq<u8>,
    /// How many payload bytes one mailbox message can carry.
    pub max_data_len: nat,
    /// How many payload bytes the frames handed out so far carry.
    pub sent: nat,
    /// Whether the last frame has been handed out.
    pub finished: bool,
}

impl TransferView {
    /// The states that a transfer can be in.
    pub open spec fn wf(self) -> bool {
        &&& self.sent <= self.data.len()
        &&& self.max_data_len == 0 ==> self.data.len() == 0
        &&& self.max_data_len + SOE_FRAME_HEADER_LEN <= u16::MAX
        &&& self.data.len() <= usize::MAX
        &&& self.finished ==> self.sent == self.data.len()
    }

    /// Payload bytes that no frame has carried yet.
    pub open spec fn remaining(self) -> nat {
        (self.data.len() - self.sent) as nat
    }

    /// Whether the next frame is the last one: all that remains fits in it.
    pub open spec fn is_last_frame(self) -> bool {
        self.remaining() <= self.max_data_len
    }

    /// How many payload bytes the next frame carries.
    pub open spec fn chunk_len(self) -> nat {
        if self.is_last_frame() {
            self.remaining()
        } else {
            self.max_data_len
        }
    }

    /// The payload bytes that the next frame carries.
    pub open spec fn payload(self) -> Seq<u8> {
        self.data.subrange(self.sent as int, (self.sent + self.chunk_len()) as int)
    }

    /// The count that a fragment (every frame but the last) carries in place
    /// of the IDN: the number of frames that follow it, which is one less than
    /// the remaining bytes, divided by the frame capacity.
    pub open spec fn fragments_left(self) -> nat {
        (self.remaining() - 1) as nat / self.max_data_len
    }

    /// Whether the next frame is a fragment whose count does not fit in 16 bits.
    pub open spec fn count_overflows(self) -> bool {
        !self.is_last_frame() && self.fragments_left() > u16::MAX
    }

    /// The mailbox header of the next frame.
    pub open spec fn mailbox_header(self, counter: u8) -> MailboxHeader {
        MailboxHeader {
            length: (4 + self.chunk_len()) as u16,
            priority: Priority::Lowest,
            mailbox_type: MailboxType::Soe,
            counter,
        }
    }

    /// The SoE header of the next frame.
    pub open spec fn soe_header(self) -> SoeHeader {
        SoeHeader {
            opcode: self.opcode,
            fragmentation: if self.is_last_frame() {
                SoeFragmentationFlag::CompleteTransmission
            } else {
                SoeFragmentationFlag::IncompleteFrame
            },
            error: SoeErrorFlag::NoError,
            drive_num: self.drive_num,
            element_flag: self.element,
            idn: if self.is_last_frame() {
                self.idn_address
            } else {
                self.fragments_left() as u16
            },
        }
    }

    /// The bytes of the next frame, whose mailbox counter is `counter`.
    pub open spec fn frame(self, counter: u8) -> Seq<u8> {
        self.mailbox_header(counter).spec_pack() + self.soe_header().spec_pack() + self.payload()
    }

    /// The state after the next frame has been handed out.
    pub open spec fn advance(self) -> TransferView {
        TransferView {
            sent: self.sent + self.chunk_len(),
            finished: self.is_last_frame(),
            ..self
        }
    }

    /// The payloads of all frames that are still to come, in order.
    pub open spec fn payloads(self) -> Seq<Seq<u8>>
        decreases self.remaining(), if self.finished {
            0int
        } else {
            1int
        },
        when self.wf()
    {
        if self.finished {
            Seq::empty()
        } else {
            seq![self.payload()] + self.advance().payloads()
        }
    }
}

/// An outgoing SoE request, cut into mailbox frames one at a time.
pub struct SoeTransfer {
    opcode: SoeOpcode,
    drive_num: u8,
    element: SoeElementFlag,
    idn_address: u16,
    data: Vec<u8>,
    max_data_len: usize,
    sent: usize,
    finished: bool,
}

impl View for SoeTransfer {
    type V = TransferView;

    closed spec fn view(&self) -> TransferView {
        TransferView {
            opcode: self.opcode,
            drive_num: self.drive_num,
            element: self.element,
            idn_address: self.idn_address,
            data: self.data@,
            max_data_len: self.max_data_len as nat,
            sent: self.sent as nat,
            finished: self.finished,
        }
    }
}

impl SoeTransfer {
    #[verifier::type_invariant]
    spec fn inv(self) -> bool {
        self@.wf()
    }

    /// A transfer of `data` to element `element` of IDN `idn_address` on drive
    /// `drive_num`, through a mailbox of `mailbox_len` bytes.
    pub fn new(
        opcode: SoeOpcode,
        drive_num: u8,
        element: SoeElementFlag,
        idn_address: u16,
        data: Vec<u8>,
        mailbox_len: u16,
    ) -> (t: SoeTransfer)
        requires
            mailbox_len >= SOE_FRAME_HEADER_LEN,
            data@.len() > 0 ==> mailbox_len > SOE_FRAME_HEADER_LEN,
        ensures
            t@ == (TransferView {
                opcode,
                drive_num,
                element,
                idn_address,
                data: data@,
                max_data_len: (mailbox_len - SOE_FRAME_HEADER_LEN) as nat,
                sent: 0,
                finished: false,
            }),
    {
        let data_len = data.len();
        assert(data@.len() == data_len);
        SoeTransfer {
            opcode,
            drive_num,
            element,
            idn_address,
            data,
            max_data_len: mailbox_len as usize - SOE_FRAME_HEADER_LEN,
            sent: 0,
            finished: false,
        }
    }

    /// The transfer of a read request for element `element` of IDN
    /// `idn_address`: a read request carries no payload.
    pub open spec fn spec_read_element(
        drive_num: u8,
        idn_address: u16,
        element: SoeElementFlag,
        mailbox_len: u16,
    ) -> TransferView {
        TransferView {
            opcode: SoeOpcode::ReadRequest,
            drive_num,
            element,
            idn_address,
            data: Seq::empty(),
            max_data_len: (mailbox_len - SOE_FRAME_HEADER_LEN) as nat,
            sent: 0,
            finished: false,
        }
    }

    /// The transfer of a read request for element `element` of IDN
    /// `idn_address`: a read request carries no payload.
    pub fn read_element(
        drive_num: u8,
        idn_address: u16,
        element: SoeElementFlag,
        mailbox_len: u16,
    ) -> (t: SoeTransfer)
        requires
            mailbox_len >= SOE_FRAME_HEADER_LEN,
        ensures
            t@ == Self::spec_read_element(drive_num, idn_address, element, mailbox_len),
    {
        Self::new(SoeOpcode::ReadRequest, drive_num, element, idn_address, Vec::new(), mailbox_len)
    }

    /// The transfer that reads the data state / status of IDN `idn_address`: the read
    /// of its data state / status element.
    pub fn read_status(drive_num: u8, idn_address: u16, mailbox_len: u16) -> (t: SoeTransfer)
        requires
            mailbox_len >= SOE_FRAME_HEADER_LEN,
        ensures
            t@ == Self::spec_read_element(
                drive_num,
                idn_address,
                SoeElementFlag::DataStateStatus,
                mailbox_len,
            ),
    {
        Self::read_element(drive_num, idn_address, SoeElementFlag::DataStateStatus, mailbox_len)
    }

    /// The transfer that reads the name of IDN `idn_address`: the read of its name
    /// element.
    pub fn read_name(drive_num: u8, idn_address: u16, mailbox_len: u16) -> (t: SoeTransfer)
        requires
            mailbox_len >= SOE_FRAME_HEADER_LEN,
        ensures
            t@ == Self::spec_read_element(
                drive_num,
                idn_address,
                SoeElementFlag::NameDescriptor,
                mailbox_len,
            ),
    {
        Self::read_element(drive_num, idn_address, SoeElementFlag::NameDescriptor, mailbox_len)
    }

    /// The transfer that reads the attribute of IDN `idn_address`: the read of its
    /// attribute element.
    pub fn read_attribute(drive_num: u8, idn_address: u16, mailbox_len: u16) -> (t: SoeTransfer)
        requires
            mailbox_len >= SOE_FRAME_HEADER_LEN,
        ensures
            t@ == Self::spec_read_element(
                drive_num,
                idn_address,
                SoeElementFlag::Attribute,
                mailbox_len,
            ),
    {
        Self::read_element(drive_num, idn_address, SoeElementFlag::Attribute, mailbox_len)
    }

    /// The transfer that reads the unit of IDN `idn_address`: the read of its unit
    /// element.
    pub fn read_units(drive_num: u8, idn_address: u16, mailbox_len: u16) -> (t: SoeTransfer)
        requires
            mailbox_len >= SOE_FRAME_HEADER_LEN,
        ensures
            t@ == Self::spec_read_element(
                drive_num,
                idn_address,
                SoeElementFlag::Unit,
                mailbox_len,
            ),
    {
        Self::read_element(drive_num, idn_address, SoeElementFlag::Unit, mailbox_len)
    }

    /// The transfer that reads the list value of IDN `idn_address`: the read of its
    /// value data element.
    pub fn read_data_list(drive_num: u8, idn_address: u16, mailbox_len: u16) -> (t: SoeTransfer)
        requires
            mailbox_len >= SOE_FRAME_HEADER_LEN,
        ensures
            t@ == Self::spec_read_element(
                drive_num,
                idn_address,
                SoeElementFlag::ValueData,
                mailbox_len,
            ),
    {
        Self::read_element(drive_num, idn_address, SoeElementFlag::ValueData, mailbox_len)
    }

    /// The transfer that reads the minimum value of IDN `idn_address`: the read
    /// of its minimum value element.
    pub fn read_min(drive_num: u8, idn_address: u16, mailbox_len: u16) -> (t: SoeTransfer)
        requires
            mailbox_len >= SOE_FRAME_HEADER_LEN,
        ensures
            t@ == Self::spec_read_element(
                drive_num,
                idn_address,
                SoeElementFlag::MinimumValue,
                mailbox_len,
            ),
    {
        Self::read_element(drive_num, idn_address, SoeElementFlag::MinimumValue, mailbox_len)
    }

    /// The transfer that reads the maximum value of IDN `idn_address`: the read
    /// of its maximum value element.
    pub fn read_max(drive_num: u8, idn_address: u16, mailbox_len: u16) -> (t: SoeTransfer)
        requires
            mailbox_len >= SOE_FRAME_HEADER_LEN,
        ensures
            t@ == Self::spec_read_element(
                drive_num,
                idn_address,
                SoeElementFlag::MaximumValue,
                mailbox_len,
            ),
    {
        Self::read_element(drive_num, idn_address, SoeElementFlag::MaximumValue, mailbox_len)
    }

    /// The transfer that reads the value of IDN `idn_address`: the read of its
    /// value data element.
    pub fn read_data(drive_num: u8, idn_address: u16, mailbox_len: u16) -> (t: SoeTransfer)
        requires
            mailbox_len >= SOE_FRAME_HEADER_LEN,
        ensures
            t@ == Self::spec_read_element(
                drive_num,
                idn_address,
                SoeElementFlag::ValueData,
                mailbox_len,
            ),
    {
        Self::read_element(drive_num, idn_address, SoeElementFlag::ValueData, mailbox_len)
    }

    /// The transfer of a write request that sets the value of IDN
    /// `idn_address` to the packed value `data`.
    pub fn write_data(
        drive_num: u8,
        idn_address: u16,
        data: Vec<u8>,
        mailbox_len: u16,
    ) -> (t: SoeTransfer)
        requires
            mailbox_len >= SOE_FRAME_HEADER_LEN,
            data@.len() > 0 ==> mailbox_len > SOE_FRAME_HEADER_LEN,
        ensures
            t@ == (TransferView {
                opcode: SoeOpcode::WriteRequest,
                drive_num,
                element: SoeElementFlag::ValueData,
                idn_address,
                data: data@,
                max_data_len: (mailbox_len - SOE_FRAME_HEADER_LEN) as nat,
                sent: 0,
                finished: false,
            }),
    {
        Self::new(
            SoeOpcode::WriteRequest,
            drive_num,
            SoeElementFlag::ValueData,
            idn_address,
            data,
            mailbox_len,
        )
    }

    /// Whether the last frame has been handed out.
    pub fn is_finished(&self) -> (finished: bool)
        ensures
            finished == self@.finished,
    {
        self.finished
    }

    /// The next frame to send, whose mailbox counter is `counter`: a fragment
    /// of the largest size while more remains than one frame holds, then the
    /// frame that completes the transfer.
    pub fn next_frame(&mut self, counter: u8) -> (res: Result<Vec<u8>, SoeTransferError>)
        requires
            !old(self)@.finished,
        ensures
            old(self)@.count_overflows() ==> res == Err::<Vec<u8>, SoeTransferError>(
                SoeTransferError::FragmentCountOverflow,
            ) && final(self)@ == old(self)@,
            !old(self)@.count_overflows() ==> (res matches Ok(frame) && frame@ == old(
                self,
            )@.frame(counter) && final(self)@ == old(self)@.advance()),
    {
        proof {
            use_type_invariant(&*self);
        }
        let remaining = self.data.len() - self.sent;
        let last = remaining <= self.max_data_len;
        let chunk = if last {
            remaining
        } else {
            self.max_data_len
        };
        let (fragmentation, idn) = if last {
            (SoeFragmentationFlag::CompleteTransmission, self.idn_address)
        } else {
            match u16::try_from((remaining - 1) / self.max_data_len) {
                Ok(count) => (SoeFragmentationFlag::IncompleteFrame, count),
                Err(_) => {
                    return Err(SoeTransferError::FragmentCountOverflow);
                },
            }
        };
        let mailbox_header = MailboxHeader {
            length: 0x04u16 + chunk as u16,
            priority: Priority::Lowest,
            mailbox_type: MailboxType::Soe,
            counter,
        };
        let soe_header = SoeHeader {
            opcode: self.opcode,
            fragmentation,
            error: SoeErrorFlag::NoError,
            drive_num: self.drive_num,
            element_flag: self.element,
            idn,
        };
        let mailbox_bytes = mailbox_header.pack();
        let soe_bytes = soe_header.pack();
        let mut frame: Vec<u8> = Vec::new();
        let mut i: usize = 0;
        while i < MAILBOX_HEADER_LEN
            invariant
                i <= MAILBOX_HEADER_LEN,
                frame@ == mailbox_bytes@.take(i as int),
            decreases MAILBOX_HEADER_LEN - i,
        {
            frame.push(mailbox_bytes[i]);
            i = i + 1;
        }
        let mut i: usize = 0;
        while i < SOE_HEADER_LEN
            invariant
                i <= SOE_HEADER_LEN,
                frame@ == mailbox_bytes@ + soe_bytes@.take(i as int),
            decreases SOE_HEADER_LEN - i,
        {
            frame.push(soe_bytes[i]);
            i = i + 1;
        }
        let start = self.sent;
        let mut i: usize = 0;
        while i < chunk
            invariant
                i <= chunk,
                start + chunk <= self.data@.len(),
                self.data@.len() <= usize::MAX,
                frame@ == mailbox_bytes@ + soe_bytes@ + self.data@.subrange(
                    start as int,
                    start + i,
                ),
            decreases chunk - i,
        {
            frame.push(self.data[start + i]);
            i = i + 1;
        }
        assert(frame@ =~= old(self)@.frame(counter));
        self.sent = self.sent + chunk;
        self.finished = last;
        Ok(frame)
    }
}

/// Handing out a frame keeps a transfer in a state it can be in.
pub proof fn lemma_advance_keeps_wf(v: TransferView)
    requires
        v.wf(),
        !v.finished,
    ensures
        v.advance().wf(),
        v.advance().sent == v.sent + v.payload().len(),
{
}

/// The payloads of the frames still to come, put back together, are exactly the
/// payload bytes not yet sent: a transfer neither loses, repeats nor reorders data.
pub proof fn lemma_payloads_reassemble(v: TransferView)
    requires
        v.wf(),
    ensures
        v.payloads().flatten() == v.data.skip(v.sent as int),
    decreases v.remaining(), if v.finished {
        0int
    } else {
        1int
    },
{
    if v.finished {
        assert(v.data.skip(v.sent as int) =~= Seq::<u8>::empty());
    } else {
        lemma_advance_keeps_wf(v);
        lemma_payloads_reassemble(v.advance());
        let ps = v.payloads();
        let rest = v.advance().payloads();
        assert(ps == seq![v.payload()] + rest);
        assert(ps.drop_first() =~= rest);
        assert(v.data.skip(v.sent as int) =~= v.payload() + v.data.skip(v.advance().sent as int));
    }
}

/// Every frame but the last carries a full mailbox of payload, the last one
/// the rest, and a transfer that has not finished has at least one frame to come.
pub proof fn lemma_payload_sizes(v: TransferView)
    requires
        v.wf(),
    ensures
        !v.finished ==> v.payloads().len() >= 1,
        forall|i: int|
            0 <= i < v.payloads().len() - 1 ==> #[trigger] v.payloads()[i].len() == v.max_data_len,
        v.payloads().len() > 0 ==> v.payloads().last().len() <= v.max_data_len,
    decreases v.remaining(), if v.finished {
        0int
    } else {
        1int
    },
{
    if !v.finished {
        lemma_advance_keeps_wf(v);
        lemma_payload_sizes(v.advance());
        let ps = v.payloads();
        let rest = v.advance().payloads();
        assert(ps == seq![v.payload()] + rest);
        if v.is_last_frame() {
            assert(rest.len() == 0);
        } else {
            assert forall|i: int| 0 <= i < ps.len() - 1 implies #[trigger] ps[i].len()
                == v.max_data_len by {
                if i > 0 {
                    assert(ps[i] == rest[i - 1]);
                }
            }
        }
    }
}

/// A transfer of `n` payload bytes through mailboxes that each carry `m` of
/// them takes one frame when `n` is zero, else `n / m` rounded up.
pub proof fn lemma_frame_count(v: TransferView)
    requires
        v.wf(),
        !v.finished,
    ensures
        v.payloads().len() == if v.remaining() == 0 {
            1
        } else {
            (v.remaining() + v.max_data_len - 1) as nat / v.max_data_len
        },
    decreases v.remaining(),
{
    lemma_advance_keeps_wf(v);
    let rest = v.advance().payloads();
    assert(v.payloads() == seq![v.payload()] + rest);
    let r = v.remaining();
    let m = v.max_data_len;
    if v.is_last_frame() {
        assert(rest.len() == 0);
        if r > 0 {
            assert((r + m - 1) as nat / m == 1) by (nonlinear_arith)
                requires
                    0 < r <= m,
            ;
        }
    } else {
        lemma_frame_count(v.advance());
        assert(v.advance().remaining() == r - m);
        assert((r + m - 1) as nat / m == (r - m + m - 1) as nat / m + 1) by (nonlinear_arith)
            requires
                0 < m < r,
        ;
    }
}

/// The count that a fragment carries is the number of frames that follow it.
pub proof fn lemma_fragment_count_is_frames_left(v: TransferView)
    requires
        v.wf(),
        !v.finished,
        !v.is_last_frame(),
    ensures
        v.fragments_left() == v.advance().payloads().len(),
{
    lemma_advance_keeps_wf(v);
    lemma_frame_count(v.advance());
    let r = v.remaining();
    let m = v.max_data_len;
    assert(v.advance().remaining() == r - m);
    assert((r - 1) as nat / m == (r - m + m - 1) as nat / m);
}

/// Each frame fits its mailbox, and its mailbox header announces exactly the
/// bytes that follow that header.
pub proof fn lemma_frame_fits_mailbox(v: TransferView, counter: u8)
    requires
        v.wf(),
        !v.finished,
    ensures
        v.frame(counter).len() == SOE_FRAME_HEADER_LEN + v.payload().len(),
        v.frame(counter).len() <= SOE_FRAME_HEADER_LEN + v.max_data_len,
        v.mailbox_header(counter).length == v.frame(counter).len() - MAILBOX_HEADER_LEN,
{
}

/// A frame read back by its receiver gives the headers it was written with (as
/// the wire carries them) followed by its payload.
pub proof fn lemma_frame_read_back(v: TransferView, counter: u8)
    requires
        v.wf(),
        !v.finished,
    ensures
        crate::request::IdnHeader::spec_unpack(v.frame(counter)) == Ok::<
            crate::request::IdnHeader,
            UnpackError,
        >(
            (crate::request::IdnHeader {
                mailbox_header: v.mailbox_header(counter),
                soe_header: v.soe_header(),
            }).spec_as_carried(),
        ),
        v.frame(counter).skip(SOE_FRAME_HEADER_LEN as int) == v.payload(),
{
    let h = crate::request::IdnHeader {
        mailbox_header: v.mailbox_header(counter),
        soe_header: v.soe_header(),
    };
    crate::request::lemma_idn_header_round_trip(h);
    let f = v.frame(counter);
    assert(f.subrange(0, 6) =~= h.spec_pack().subrange(0, 6));
    assert(f.subrange(6, 10) =~= h.spec_pack().subrange(6, 10));
    assert(f.skip(10) =~= v.payload());
}

/// The SoE header read back from any frame of a transfer carries the
/// transfer's opcode, element flag and drive number (fragments included), no
/// error, and: on the completing frame the fragmentation flag clear and the
/// transfer's IDN; on a fragment the flag set and, as count, the number of
/// frames that follow it. Its mailbox header is of type SoE at lowest priority,
/// carries the frame's counter, and announces the bytes after it.
pub proof fn lemma_frame_headers_read_back(v: TransferView, counter: u8)
    requires
        v.wf(),
        !v.finished,
    ensures
        MailboxHeader::spec_unpack(v.frame(counter)) matches Ok(m) && m.mailbox_type
            == MailboxType::Soe && m.priority == Priority::Lowest && m.counter == counter % 8
            && m.length == v.frame(counter).len() - MAILBOX_HEADER_LEN,
        SoeHeader::spec_unpack(v.frame(counter).skip(MAILBOX_HEADER_LEN as int)) matches Ok(h)
            && h.opcode == v.opcode && h.element_flag == v.element && h.drive_num == v.drive_num
            % 8 && h.error == SoeErrorFlag::NoError && (v.is_last_frame() ==> (h.fragmentation
            == SoeFragmentationFlag::CompleteTransmission && h.idn == v.idn_address)) && (
        !v.is_last_frame() ==> h.fragmentation == SoeFragmentationFlag::IncompleteFrame) && (
        !v.is_last_frame() && !v.count_overflows() ==> h.idn == v.advance().payloads().len()),
{
    let mh = v.mailbox_header(counter);
    let sh = v.soe_header();
    let f = v.frame(counter);
    crate::mailbox::lemma_mailbox_header_round_trip(mh);
    crate::headers::lemma_soe_header_round_trip(sh);
    lemma_frame_fits_mailbox(v, counter);
    assert(MailboxHeader::spec_unpack(f) == MailboxHeader::spec_unpack(mh.spec_pack())) by {
        assert(f[0] == mh.spec_pack()[0]);
        assert(f[1] == mh.spec_pack()[1]);
        assert(f[4] == mh.spec_pack()[4]);
        assert(f[5] == mh.spec_pack()[5]);
    }
    let rest = f.skip(MAILBOX_HEADER_LEN as int);
    assert(rest =~= sh.spec_pack() + v.payload());
    assert(SoeHeader::spec_unpack(rest) == SoeHeader::spec_unpack(sh.spec_pack())) by {
        assert(rest[0] == sh.spec_pack()[0]);
        assert(rest[1] == sh.spec_pack()[1]);
        assert(rest[2] == sh.spec_pack()[2]);
        assert(rest[3] == sh.spec_pack()[3]);
    }
    if !v.is_last_frame() && !v.count_overflows() {
        lemma_fragment_count_is_frames_left(v);
    }
}

/// A read request for element `element` of IDN `idn_address` goes out as a
/// single frame, the packed header that [`IdnHeader::for_reading`]
/// (crate::request::IdnHeader::for_reading) builds; read back, that frame
/// addresses exactly the IDN, element and drive it was asked for.
pub proof fn lemma_read_request_frame(
    drive_num: u8,
    idn_address: u16,
    element: SoeElementFlag,
    mailbox_len: u16,
    counter: u8,
)
    requires
        mailbox_len >= SOE_FRAME_HEADER_LEN,
    ensures
        ({
            let v = SoeTransfer::spec_read_element(drive_num, idn_address, element, mailbox_len);
            &&& v.wf()
            &&& !v.finished
            &&& v.frame(counter) == crate::request::IdnHeader::spec_for_reading(
                counter,
                drive_num,
                idn_address,
                element,
            ).spec_pack()
            &&& v.advance().finished
            &&& SoeHeader::spec_unpack(v.frame(counter).skip(MAILBOX_HEADER_LEN as int)) matches Ok(
                h,
            ) && h.opcode == SoeOpcode::ReadRequest && h.idn == idn_address && h.element_flag
                == element && h.drive_num == drive_num % 8
        }),
{
    let v = SoeTransfer::spec_read_element(drive_num, idn_address, element, mailbox_len);
    assert(v.data.len() == 0);
    lemma_single_frame_matches_idn_header(v, counter);
    lemma_frame_headers_read_back(v, counter);
}

/// A request that fits one mailbox goes out as one frame whose headers are those
/// that [`IdnHeader::for_reading`](crate::request::IdnHeader::for_reading) and
/// [`IdnHeader::for_writing`](crate::request::IdnHeader::for_writing) build.
pub proof fn lemma_single_frame_matches_idn_header(v: TransferView, counter: u8)
    requires
        v.wf(),
        v.sent == 0,
        !v.finished,
        v.data.len() <= v.max_data_len,
    ensures
        v.opcode == SoeOpcode::ReadRequest && v.data.len() == 0 ==> v.frame(counter) == (
        crate::request::IdnHeader::spec_for_reading(
            counter,
            v.drive_num,
            v.idn_address,
            v.element,
        )).spec_pack(),
        v.opcode == SoeOpcode::WriteRequest ==> v.frame(counter) == (
        crate::request::IdnHeader::spec_for_writing(
            counter,
            v.drive_num,
            v.idn_address,
            v.element,
            v.data.len() as u16,
        )).spec_pack() + v.data,
        v.advance().finished,
{
    assert(v.payload() =~= v.data);
}

/// An SoE response as read from the mailbox: the payload length that its
/// mailbox header announces, and all bytes after its two headers.
pub struct SoeResponse {
    /// Payload length: the mailbox header's length less the SoE header.
    pub len: usize,
    /// Every byte after the mailbox and SoE headers.
    pub payload: Vec<u8>,
}

/// Whether a response holds what its headers promise: an error code where the
/// error flag is set, and a mailbox length that covers the SoE header where it
/// is not.
pub open spec fn response_well_framed(bytes: Seq<u8>) -> bool {
    match MailboxHeader::spec_unpack(bytes) {
        Ok(m) => match SoeHeader::spec_unpack(bytes.skip(MAILBOX_HEADER_LEN as int)) {
            Ok(h) => if h.error == SoeErrorFlag::ErrorOccurred {
                bytes.len() >= SOE_FRAME_HEADER_LEN + 2
            } else {
                m.length >= SOE_HEADER_LEN
            },
            Err(_) => true,
        },
        Err(_) => true,
    }
}

/// Tests whether a response holds what its headers promise, as
/// [`parse_response`] needs.
pub fn response_is_well_framed(response: &[u8]) -> (ok: bool)
    ensures
        ok == response_well_framed(response@),
{
    match MailboxHeader::unpack_from_slice(response) {
        Err(_) => true,
        Ok(m) => {
            let rest = vstd::slice::slice_subrange(response, MAILBOX_HEADER_LEN, response.len());
            assert(rest@ == response@.skip(MAILBOX_HEADER_LEN as int));
            match SoeHeader::unpack_from_slice(rest) {
                Err(_) => true,
                Ok(h) => match h.error {
                    SoeErrorFlag::ErrorOccurred => response.len() >= SOE_FRAME_HEADER_LEN + 2,
                    SoeErrorFlag::NoError => m.length as usize >= SOE_HEADER_LEN,
                },
            }
        },
    }
}

/// What a response says: its payload length and the bytes after its headers;
/// or the SubDevice's error code where the error flag is set; or why a header
/// could not be read.
pub open spec fn spec_parse_response(bytes: Seq<u8>) -> Result<(nat, Seq<u8>), SoeTransferError> {
    match MailboxHeader::spec_unpack(bytes) {
        Err(e) => Err(SoeTransferError::Wire(e)),
        Ok(m) => match SoeHeader::spec_unpack(bytes.skip(MAILBOX_HEADER_LEN as int)) {
            Err(e) => Err(SoeTransferError::Wire(e)),
            Ok(h) => if h.error == SoeErrorFlag::ErrorOccurred {
                Err(
                    SoeTransferError::Soe(
                        error_for_code(
                            le_u16(
                                bytes[SOE_FRAME_HEADER_LEN as int],
                                bytes[SOE_FRAME_HEADER_LEN + 1],
                            ),
                        ),
                    ),
                )
            } else {
                Ok(
                    (
                        (m.length - SOE_HEADER_LEN) as nat,
                        bytes.skip(SOE_FRAME_HEADER_LEN as int),
                    ),
                )
            },
        },
    }
}

/// Reads the response to an SoE request: its two headers, then the SubDevice's
/// error code where the error flag is set, else the payload length and bytes.
pub fn parse_response(response: &[u8]) -> (res: Result<SoeResponse, SoeTransferError>)
    requires
        response_well_framed(response@),
    ensures
        match (res, spec_parse_response(response@)) {
            (Ok(r), Ok((len, payload))) => r.len == len && r.payload@ == payload,
            (Err(e), Err(f)) => e == f,
            _ => false,
        },
{
    let mailbox_header = match MailboxHeader::unpack_from_slice(response) {
        Ok(h) => h,
        Err(e) => {
            return Err(SoeTransferError::Wire(e));
        },
    };
    let after_mailbox = vstd::slice::slice_subrange(response, MAILBOX_HEADER_LEN, response.len());
    assert(after_mailbox@ == response@.skip(MAILBOX_HEADER_LEN as int));
    let soe_header = match SoeHeader::unpack_from_slice(after_mailbox) {
        Ok(h) => h,
        Err(e) => {
            return Err(SoeTransferError::Wire(e));
        },
    };
    let payload = vstd::slice::slice_subrange(response, SOE_FRAME_HEADER_LEN, response.len());
    match soe_header.error {
        SoeErrorFlag::NoError => {},
        SoeErrorFlag::ErrorOccurred => {
            let code = crate::headers::u16_from_le(payload[0], payload[1]);
            return Err(SoeTransferError::Soe(SoeErrorCode::from(code)));
        },
    }
    Ok(
        SoeResponse {
            len: mailbox_header.length as usize - SOE_HEADER_LEN,
            payload: vstd::slice::slice_to_vec(payload),
        },
    )
}

impl SoeResponse {
    /// The payload bytes that the mailbox header announces.
    pub fn data(&self) -> (data: &[u8])
        requires
            self.len <= self.payload@.len(),
        ensures
            data@ == self.payload@.take(self.len as int),
    {
        vstd::slice::slice_subrange(self.payload.as_slice(), 0, self.len)
    }
}

/// Reads the data state / status element: a 16 bit value, little endian.
pub fn decode_status(data: &[u8]) -> (res: Result<u16, SoeTransferError>)
    ensures
        data@.len() >= 2 ==> res == Ok::<u16, SoeTransferError>(le_u16(data@[0], data@[1])),
        data@.len() < 2 ==> res == Err::<u16, SoeTransferError>(SoeTransferError::Decode),
{
    match wire_read_u16(data) {
        Ok(v) => Ok(v),
        Err(_) => Err(SoeTransferError::Decode),
    }
}

/// Reads the attribute element: a 32 bit value, little endian.
pub fn decode_attribute(data: &[u8]) -> (res: Result<u32, SoeTransferError>)
    ensures
        data@.len() >= 4 ==> res == Ok::<u32, SoeTransferError>(
            le_u32(data@[0], data@[1], data@[2], data@[3]),
        ),
        data@.len() < 4 ==> res == Err::<u32, SoeTransferError>(SoeTransferError::Decode),
{
    match wire_read_u32(data) {
        Ok(v) => Ok(v),
        Err(_) => Err(SoeTransferError::Decode),
    }
}

/// Reads the name element: UTF-8 text.
pub fn decode_name(data: &[u8]) -> (res: Result<String, SoeTransferError>)
    ensures
        vstd::utf8::valid_utf8(data@) ==> (res matches Ok(name) && name@
            == vstd::utf8::decode_utf8(data@)),
        !vstd::utf8::valid_utf8(data@) ==> res == Err::<String, SoeTransferError>(
            SoeTransferError::Decode,
        ),
{
    match str_from_utf8(data) {
        Some(name) => Ok(name.to_owned()),
        None => Err(SoeTransferError::Decode),
    }
}

/// Reads the unit element: UTF-8 text.
pub fn decode_units(data: &[u8]) -> (res: Result<String, SoeTransferError>)
    ensures
        vstd::utf8::valid_utf8(data@) ==> (res matches Ok(units) && units@
            == vstd::utf8::decode_utf8(data@)),
        !vstd::utf8::valid_utf8(data@) ==> res == Err::<String, SoeTransferError>(
            SoeTransferError::Decode,
        ),
{
    match wire_read_string(data) {
        Ok(units) => Ok(units),
        Err(_) => Err(SoeTransferError::Decode),
    }
}

/// The `i`th 16 bit little endian word of `data`.
pub open spec fn word_at(data: Seq<u8>, i: int) -> u16 {
    le_u16(data[2 * i], data[2 * i + 1])
}

/// Reads a list value: 16 bit words, of which the first holds the current
/// length and the second the maximum length of the list, and the rest the list;
/// a trailing odd byte is ignored. Gives the maximum length and the list.
pub fn decode_data_list(data: &[u8]) -> (res: (u16, Vec<u16>))
    requires
        data@.len() >= 4,
    ensures
        res.0 == word_at(data@, 1),
        res.1@.len() == data@.len() / 2 - 2,
        forall|i: int| 0 <= i < res.1@.len() ==> #[trigger] res.1@[i] == word_at(data@, i + 2),
{
    let len = data.len();
    let n_words = len / 2;
    let max_length = crate::headers::u16_from_le(data[2], data[3]);
    let mut list: Vec<u16> = Vec::new();
    let mut i: usize = 2;
    while i < n_words
        invariant
            2 <= i <= n_words,
            len == data@.len(),
            n_words == len / 2,
            list@.len() == i - 2,
            forall|j: int| 0 <= j < list@.len() ==> #[trigger] list@[j] == word_at(data@, j + 2),
        decreases n_words - i,
    {
        list.push(crate::headers::u16_from_le(data[2 * i], data[2 * i + 1]));
        i = i + 1;
    }
    (max_length, list)
}

/// A response read back from the bytes a SubDevice writes (mailbox header,
/// SoE header, then payload) gives the payload and the announced length, or,
/// where the error flag is set, the error whose code leads the payload; and
/// such an error keeps its code.
pub proof fn lemma_response_read_back(m: MailboxHeader, h: SoeHeader, payload: Seq<u8>)
    ensures
        h.error == SoeErrorFlag::NoError && m.length >= SOE_HEADER_LEN ==> spec_parse_response(
            m.spec_pack() + h.spec_pack() + payload,
        ) == Ok::<(nat, Seq<u8>), SoeTransferError>(
            ((m.length - SOE_HEADER_LEN) as nat, payload),
        ),
        h.error == SoeErrorFlag::ErrorOccurred && payload.len() >= 2 ==> spec_parse_response(
            m.spec_pack() + h.spec_pack() + payload,
        ) == Err::<(nat, Seq<u8>), SoeTransferError>(
            SoeTransferError::Soe(error_for_code(le_u16(payload[0], payload[1]))),
        ),
        error_for_code(le_u16(payload[0], payload[1])).spec_code() == le_u16(
            payload[0],
            payload[1],
        ),
        h.error == SoeErrorFlag::NoError ==> (response_well_framed(
            m.spec_pack() + h.spec_pack() + payload,
        ) <==> m.length >= SOE_HEADER_LEN),
        h.error == SoeErrorFlag::ErrorOccurred ==> (response_well_framed(
            m.spec_pack() + h.spec_pack() + payload,
        ) <==> payload.len() >= 2),
        h.error == SoeErrorFlag::NoError && m.length >= SOE_HEADER_LEN && (m.length
            - SOE_HEADER_LEN) <= payload.len() ==> (spec_parse_response(
            m.spec_pack() + h.spec_pack() + payload,
        ) matches Ok((len, rest)) && rest.take(len as int) == payload.take(
            m.length - SOE_HEADER_LEN,
        )),
{
    crate::mailbox::lemma_mailbox_header_round_trip(m);
    crate::headers::lemma_soe_header_round_trip(h);
    lemma_code_survives_reading(le_u16(payload[0], payload[1]));
    let b = m.spec_pack() + h.spec_pack() + payload;
    assert(b.subrange(0, 6) =~= m.spec_pack());
    assert(MailboxHeader::spec_unpack(b) == MailboxHeader::spec_unpack(m.spec_pack())) by {
        assert(b[4] == m.spec_pack()[4]);
        assert(b[5] == m.spec_pack()[5]);
        assert(b[0] == m.spec_pack()[0]);
        assert(b[1] == m.spec_pack()[1]);
    }
    let rest = b.skip(MAILBOX_HEADER_LEN as int);
    assert(rest =~= h.spec_pack() + payload);
    assert(SoeHeader::spec_unpack(rest) == SoeHeader::spec_unpack(h.spec_pack())) by {
        assert(rest[0] == h.spec_pack()[0]);
        assert(rest[1] == h.spec_pack()[1]);
        assert(rest[2] == h.spec_pack()[2]);
        assert(rest[3] == h.spec_pack()[3]);
    }
    assert(b.skip(SOE_FRAME_HEADER_LEN as int) =~= payload);
    if payload.len() >= 2 {
        assert(b[SOE_FRAME_HEADER_LEN as int] == payload[0]);
        assert(b[SOE_FRAME_HEADER_LEN + 1] == payload[1]);
    }
}


/// The code of every error that an SoE response can carry, as the protocol fixes it.
pub proof fn lemma_error_code_table()
    ensures
        error_for_code(0x0000) == SoeErrorCode::Success,
        error_for_code(0x0001) == SoeErrorCode::IdnDoesNotExist,
        error_for_code(0x0009) == SoeErrorCode::InvalidIdnFormat,
        error_for_code(0x0010) == SoeErrorCode::ServiceNotSupported,
        error_for_code(0x0011) == SoeErrorCode::DataContainerTooSmall,
        error_for_code(0x0020) == SoeErrorCode::ElementDoesNotExist,
        error_for_code(0x0023) == SoeErrorCode::NameElementDoesNotExist,
        error_for_code(0x0028) == SoeErrorCode::ElementNotSupported,
        error_for_code(0x1001) == SoeErrorCode::WriteAccessProhibited,
        error_for_code(0x1002) == SoeErrorCode::WriteBlockedByPhase,
        error_for_code(0x1009) == SoeErrorCode::ValueOutsideLimits,
        error_for_code(0x100A) == SoeErrorCode::InvalidValue,
        error_for_code(0x2001) == SoeErrorCode::CommandExecutionError,
{
}


/// The `i`th word of a byte sequence is its bytes `2 i` (low) and `2 i + 1`
/// (high); so the list entries that [`decode_data_list`] gives are the words
/// from byte 4 on, in order.
pub proof fn lemma_word_layout(data: Seq<u8>, i: int)
    requires
        0 <= i,
        2 * i + 1 < data.len(),
    ensures
        word_at(data, i) == data[2 * i] + 256 * data[2 * i + 1],
{
}

} // verus!
