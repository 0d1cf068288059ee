//! The Sercos service channel error table.

use vstd::prelude::*;

verus! {

/// Error codes of the Sercos service channel (Table 293, "Summary of Service
/// Channel Errors"), as a SubDevice reports them in an SoE response.
#[derive(Debug, Clone, Copy, PartialEq, Eq, Structural)]
pub enum SoeErrorCode {
    /// `0x0000`: No error in the service channel.
    NoError,
    /// `0x0001`: Service channel not open.
    ChannelNotOpen,
    /// `0x0009`: Invalid access to closing the service channel.
    InvalidChannelClosing,
    /// `0x1001`: No IDN.
    NoIDN,
    /// `0x1009`: Invalid access to element 1.
    InvalidAccessToElement1,
    /// `0x2001`: No name.
    NoName,
    /// `0x2002`: Name transmission too short.
    NameTransmissionTooShort,
    /// `0x2003`: Name transmission too long.
    NameTransmissionTooLong,
    /// `0x2004`: Name cannot be changed (read only).
    NameReadOnly,
    /// `0x2005`: Name is write-protected at this time.
    NameWriteProtected,
    /// `0x3002`: Attribute transmission too short.
    AttributeTransmissionTooShort,
    /// `0x3003`: Attribute transmission too long.
    AttributeTransmissionTooLong,
    /// `0x3004`: Attribute cannot be changed (read only).
    AttributeRreadOnly,
    /// `0x3005`: Attribute is write-protected at this time.
    AttributeWriteProtected,
    /// `0x4001`: No units.
    NoUnits,
    /// `0x4002`: Unit transmission too short.
    UnitTransmissionTooShort,
    /// `0x4003`: Unit transmission too long.
    UnitTransmissionTooLong,
    /// `0x4004`: Unit cannot be changed (read only).
    UnitReadOnly,
    /// `0x4005`: Unit is write-protected at this time.
    UnitWriteProtected,
    /// `0x5001`: No minimum input value.
    NoMinimum,
    /// `0x5002`: Minimum input value transmission too short.
    MinimumTransmissionTooShort,
    /// `0x5003`: Minimum input value transmission too long.
    MinimumTransmissionTooLong,
    /// `0x5004`: Minimum input value cannot be changed (read only).
    MinimumReadOnly,
    /// `0x5005`: Minimum input value is write-protected at this time.
    MinimumWriteProtected,
    /// `0x6001`: No maximum input value.
    NoMaximum,
    /// `0x6002`: Maximum input value transmission too short.
    MaximumTransmissionTooShort,
    /// `0x6003`: Maximum input value transmission too long.
    MaximumTransmissionTooLong,
    /// `0x6004`: Maximum input value cannot be changed (read only).
    MaximumReadOnly,
    /// `0x6005`: Maximum input value is write-protected at this time.
    MaximumWriteProtected,
    /// `0x7002`: Operation data transmission too short.
    OperationDataTransmissionTooShort,
    /// `0x7003`: Operation data transmission too long.
    OperationDataTransmissionTooLong,
    /// `0x7004`: Operation data is read only.
    OperationDataIsReadOnly,
    /// `0x7005`: Operation data is currently write-protected (e.g. communication phase).
    OperationDataIsCurrentlyWriteProtected,
    /// `0x7006`: Operation data is less than the minimum input value.
    OperationDataIsLessThanTheMinimum,
    /// `0x7007`: Operation data exceeds the maximum input value.
    OperationDataExceedsTheMaximum,
    /// `0x7008`: Invalid operation data: configured IDN not supported due to invalid bit number or bit combination.
    InvalidOperationData,
    /// `0x7009`: Operation data is write protected by a password.
    OperationDataWriteProtectedByAPassword,
    /// `0x700A`: Operation data is write protected (cyclically configured in the MDT or AT).
    OperationDataWriteProtectedCyclicallyConfigured,
    /// `0x700B`: Invalid indirect addressing (e.g. data container, list handling).
    InvalidIndirectAddressing,
    /// `0x700C`: Operation data is write protected due to other settings.
    OperationDataWriteProtectedDueToOtherSettings,
    /// `0x700D`: Invalid floating point number.
    InvalidFloatingPointNumber,
    /// `0x700E`: Operation data is write protected at parameterization level.
    OperationDataWriteProtectedAtParameterizationLevel,
    /// `0x700F`: Operation data is write protected at operating level.
    OperationDataWriteProtectedAtOperatingLevel,
    /// `0x7010`: Procedure command already active.
    ProcedureCommandAlreadyActive,
    /// `0x7011`: Procedure command not interruptible.
    ProcedureCommandNotInterruptible,
    /// `0x7012`: Procedure command currently not executable.
    ProcedureCommandCurrentlyNotExecutable,
    /// `0x7013`: Procedure command not executable due to invalid or false parameters.
    ProcedureCommandNotExecutableDueToInvalidOrFalseParameters,
    /// `0xC000`: Vendor specific: unknown internal error.
    UnknownInternalError,
    /// `0xC001`: Vendor specific: internal error in IDN task.
    InternalErrorInIdnTask,
    /// `0xC002`: Vendor specific: out of memory.
    OutOfMemory,
    /// `0xC003`: Vendor specific: packet out of memory.
    PacketOutOfMemory,
    /// `0xC004`: Vendor specific: packet done failed.
    PacketDoneFailed,
    /// `0xC005`: Vendor specific: send packet failed.
    SendPacketFailed,
    /// `0xC006`: Vendor specific: get packet failed.
    GetPacketFailed,
    /// `0xC007`: Vendor specific: release packet failed.
    ReleasePacketFailed,
    /// `0xC008`: Vendor specific: error during user application transfer.
    ErrorDuringUserApplicationTransfer,
    /// A code that the table does not list, kept as it was received.
    Unknown(u16),
}

impl SoeErrorCode {
    /// The 16 bit code that stands for this error on the wire.
    pub open spec fn spec_code(self) -> u16 {
        match self {
            SoeErrorCode::NoError => 0x0000,
            SoeErrorCode::ChannelNotOpen => 0x0001,
            SoeErrorCode::InvalidChannelClosing => 0x0009,
            SoeErrorCode::NoIDN => 0x1001,
            SoeErrorCode::InvalidAccessToElement1 => 0x1009,
            SoeErrorCode::NoName => 0x2001,
            SoeErrorCode::NameTransmissionTooShort => 0x2002,
            SoeErrorCode::NameTransmissionTooLong => 0x2003,
            SoeErrorCode::NameReadOnly => 0x2004,
            SoeErrorCode::NameWriteProtected => 0x2005,
            SoeErrorCode::AttributeTransmissionTooShort => 0x3002,
            SoeErrorCode::AttributeTransmissionTooLong => 0x3003,
            SoeErrorCode::AttributeRreadOnly => 0x3004,
            SoeErrorCode::AttributeWriteProtected => 0x3005,
            SoeErrorCode::NoUnits => 0x4001,
            SoeErrorCode::UnitTransmissionTooShort => 0x4002,
            SoeErrorCode::UnitTransmissionTooLong => 0x4003,
            SoeErrorCode::UnitReadOnly => 0x4004,
            SoeErrorCode::UnitWriteProtected => 0x4005,
            SoeErrorCode::NoMinimum => 0x5001,
            SoeErrorCode::MinimumTransmissionTooShort => 0x5002,
            SoeErrorCode::MinimumTransmissionTooLong => 0x5003,
            SoeErrorCode::MinimumReadOnly => 0x5004,
            SoeErrorCode::MinimumWriteProtected => 0x5005,
            SoeErrorCode::NoMaximum => 0x6001,
            SoeErrorCode::MaximumTransmissionTooShort => 0x6002,
            SoeErrorCode::MaximumTransmissionTooLong => 0x6003,
            SoeErrorCode::MaximumReadOnly => 0x6004,
            SoeErrorCode::MaximumWriteProtected => 0x6005,
            SoeErrorCode::OperationDataTransmissionTooShort => 0x7002,
            SoeErrorCode::OperationDataTransmissionTooLong => 0x7003,
            SoeErrorCode::OperationDataIsReadOnly => 0x7004,
            SoeErrorCode::OperationDataIsCurrentlyWriteProtected => 0x7005,
            SoeErrorCode::OperationDataIsLessThanTheMinimum => 0x7006,
            SoeErrorCode::OperationDataExceedsTheMaximum => 0x7007,
            SoeErrorCode::InvalidOperationData => 0x7008,
            SoeErrorCode::OperationDataWriteProtectedByAPassword => 0x7009,
            SoeErrorCode::OperationDataWriteProtectedCyclicallyConfigured => 0x700A,
            SoeErrorCode::InvalidIndirectAddressing => 0x700B,
            SoeErrorCode::OperationDataWriteProtectedDueToOtherSettings => 0x700C,
            SoeErrorCode::InvalidFloatingPointNumber => 0x700D,
            SoeErrorCode::OperationDataWriteProtectedAtParameterizationLevel => 0x700E,
            SoeErrorCode::OperationDataWriteProtectedAtOperatingLevel => 0x700F,
            SoeErrorCode::ProcedureCommandAlreadyActive => 0x7010,
            SoeErrorCode::ProcedureCommandNotInterruptible => 0x7011,
            SoeErrorCode::ProcedureCommandCurrentlyNotExecutable => 0x7012,
            SoeErrorCode::ProcedureCommandNotExecutableDueToInvalidOrFalseParameters => 0x7013,
            SoeErrorCode::UnknownInternalError => 0xC000,
            SoeErrorCode::InternalErrorInIdnTask => 0xC001,
            SoeErrorCode::OutOfMemory => 0xC002,
            SoeErrorCode::PacketOutOfMemory => 0xC003,
            SoeErrorCode::PacketDoneFailed => 0xC004,
            SoeErrorCode::SendPacketFailed => 0xC005,
            SoeErrorCode::GetPacketFailed => 0xC006,
            SoeErrorCode::ReleasePacketFailed => 0xC007,
            SoeErrorCode::ErrorDuringUserApplicationTransfer => 0xC008,
            SoeErrorCode::Unknown(code) => code,
        }
    }

    /// Whether this error is one of the table's own entries (not `Unknown`).
    pub open spec fn is_listed(self) -> bool {
        !(self is Unknown)
    }
}

/// The table entry whose code is `code`, or `Unknown(code)` where the table has none.
pub open spec fn error_for_code(code: u16) -> SoeErrorCode {
    match code {
        0x0000 => SoeErrorCode::NoError,
        0x0001 => SoeErrorCode::ChannelNotOpen,
        0x0009 => SoeErrorCode::InvalidChannelClosing,
        0x1001 => SoeErrorCode::NoIDN,
        0x1009 => SoeErrorCode::InvalidAccessToElement1,
        0x2001 => SoeErrorCode::NoName,
        0x2002 => SoeErrorCode::NameTransmissionTooShort,
        0x2003 => SoeErrorCode::NameTransmissionTooLong,
        0x2004 => SoeErrorCode::NameReadOnly,
        0x2005 => SoeErrorCode::NameWriteProtected,
        0x3002 => SoeErrorCode::AttributeTransmissionTooShort,
        0x3003 => SoeErrorCode::AttributeTransmissionTooLong,
        0x3004 => SoeErrorCode::AttributeRreadOnly,
        0x3005 => SoeErrorCode::AttributeWriteProtected,
        0x4001 => SoeErrorCode::NoUnits,
        0x4002 => SoeErrorCode::UnitTransmissionTooShort,
        0x4003 => SoeErrorCode::UnitTransmissionTooLong,
        0x4004 => SoeErrorCode::UnitReadOnly,
        0x4005 => SoeErrorCode::UnitWriteProtected,
        0x5001 => SoeErrorCode::NoMinimum,
        0x5002 => SoeErrorCode::MinimumTransmissionTooShort,
        0x5003 => SoeErrorCode::MinimumTransmissionTooLong,
        0x5004 => SoeErrorCode::MinimumReadOnly,
        0x5005 => SoeErrorCode::MinimumWriteProtected,
        0x6001 => SoeErrorCode::NoMaximum,
        0x6002 => SoeErrorCode::MaximumTransmissionTooShort,
        0x6003 => SoeErrorCode::MaximumTransmissionTooLong,
        0x6004 => SoeErrorCode::MaximumReadOnly,
        0x6005 => SoeErrorCode::MaximumWriteProtected,
        0x7002 => SoeErrorCode::OperationDataTransmissionTooShort,
        0x7003 => SoeErrorCode::OperationDataTransmissionTooLong,
        0x7004 => SoeErrorCode::OperationDataIsReadOnly,
        0x7005 => SoeErrorCode::OperationDataIsCurrentlyWriteProtected,
        0x7006 => SoeErrorCode::OperationDataIsLessThanTheMinimum,
        0x7007 => SoeErrorCode::OperationDataExceedsTheMaximum,
        0x7008 => SoeErrorCode::InvalidOperationData,
        0x7009 => SoeErrorCode::OperationDataWriteProtectedByAPassword,
        0x700A => SoeErrorCode::OperationDataWriteProtectedCyclicallyConfigured,
        0x700B => SoeErrorCode::InvalidIndirectAddressing,
        0x700C => SoeErrorCode::OperationDataWriteProtectedDueToOtherSettings,
        0x700D => SoeErrorCode::InvalidFloatingPointNumber,
        0x700E => SoeErrorCode::OperationDataWriteProtectedAtParameterizationLevel,
        0x700F => SoeErrorCode::OperationDataWriteProtectedAtOperatingLevel,
        0x7010 => SoeErrorCode::ProcedureCommandAlreadyActive,
        0x7011 => SoeErrorCode::ProcedureCommandNotInterruptible,
        0x7012 => SoeErrorCode::ProcedureCommandCurrentlyNotExecutable,
        0x7013 => SoeErrorCode::ProcedureCommandNotExecutableDueToInvalidOrFalseParameters,
        0xC000 => SoeErrorCode::UnknownInternalError,
        0xC001 => SoeErrorCode::InternalErrorInIdnTask,
        0xC002 => SoeErrorCode::OutOfMemory,
        0xC003 => SoeErrorCode::PacketOutOfMemory,
        0xC004 => SoeErrorCode::PacketDoneFailed,
        0xC005 => SoeErrorCode::SendPacketFailed,
        0xC006 => SoeErrorCode::GetPacketFailed,
        0xC007 => SoeErrorCode::ReleasePacketFailed,
        0xC008 => SoeErrorCode::ErrorDuringUserApplicationTransfer,
        other => SoeErrorCode::Unknown(other),
    }
}

impl From<u16> for SoeErrorCode {
    /// Reads a service channel error code as received from a SubDevice.
    fn from(code: u16) -> (e: Self) {
        match code {
            0x0000 => SoeErrorCode::NoError,
            0x0001 => SoeErrorCode::ChannelNotOpen,
            0x0009 => SoeErrorCode::InvalidChannelClosing,
            0x1001 => SoeErrorCode::NoIDN,
            0x1009 => SoeErrorCode::InvalidAccessToElement1,
            0x2001 => SoeErrorCode::NoName,
            0x2002 => SoeErrorCode::NameTransmissionTooShort,
            0x2003 => SoeErrorCode::NameTransmissionTooLong,
            0x2004 => SoeErrorCode::NameReadOnly,
            0x2005 => SoeErrorCode::NameWriteProtected,
            0x3002 => SoeErrorCode::AttributeTransmissionTooShort,
            0x3003 => SoeErrorCode::AttributeTransmissionTooLong,
            0x3004 => SoeErrorCode::AttributeRreadOnly,
            0x3005 => SoeErrorCode::AttributeWriteProtected,
            0x4001 => SoeErrorCode::NoUnits,
            0x4002 => SoeErrorCode::UnitTransmissionTooShort,
            0x4003 => SoeErrorCode::UnitTransmissionTooLong,
            0x4004 => SoeErrorCode::UnitReadOnly,
            0x4005 => SoeErrorCode::UnitWriteProtected,
            0x5001 => SoeErrorCode::NoMinimum,
            0x5002 => SoeErrorCode::MinimumTransmissionTooShort,
            0x5003 => SoeErrorCode::MinimumTransmissionTooLong,
            0x5004 => SoeErrorCode::MinimumReadOnly,
            0x5005 => SoeErrorCode::MinimumWriteProtected,
            0x6001 => SoeErrorCode::NoMaximum,
            0x6002 => SoeErrorCode::MaximumTransmissionTooShort,
            0x6003 => SoeErrorCode::MaximumTransmissionTooLong,
            0x6004 => SoeErrorCode::MaximumReadOnly,
            0x6005 => SoeErrorCode::MaximumWriteProtected,
            0x7002 => SoeErrorCode::OperationDataTransmissionTooShort,
            0x7003 => SoeErrorCode::OperationDataTransmissionTooLong,
            0x7004 => SoeErrorCode::OperationDataIsReadOnly,
            0x7005 => SoeErrorCode::OperationDataIsCurrentlyWriteProtected,
            0x7006 => SoeErrorCode::OperationDataIsLessThanTheMinimum,
            0x7007 => SoeErrorCode::OperationDataExceedsTheMaximum,
            0x7008 => SoeErrorCode::InvalidOperationData,
            0x7009 => SoeErrorCode::OperationDataWriteProtectedByAPassword,
            0x700A => SoeErrorCode::OperationDataWriteProtectedCyclicallyConfigured,
            0x700B => SoeErrorCode::InvalidIndirectAddressing,
            0x700C => SoeErrorCode::OperationDataWriteProtectedDueToOtherSettings,
            0x700D => SoeErrorCode::InvalidFloatingPointNumber,
            0x700E => SoeErrorCode::OperationDataWriteProtectedAtParameterizationLevel,
            0x700F => SoeErrorCode::OperationDataWriteProtectedAtOperatingLevel,
            0x7010 => SoeErrorCode::ProcedureCommandAlreadyActive,
            0x7011 => SoeErrorCode::ProcedureCommandNotInterruptible,
            0x7012 => SoeErrorCode::ProcedureCommandCurrentlyNotExecutable,
            0x7013 => SoeErrorCode::ProcedureCommandNotExecutableDueToInvalidOrFalseParameters,
            0xC000 => SoeErrorCode::UnknownInternalError,
            0xC001 => SoeErrorCode::InternalErrorInIdnTask,
            0xC002 => SoeErrorCode::OutOfMemory,
            0xC003 => SoeErrorCode::PacketOutOfMemory,
            0xC004 => SoeErrorCode::PacketDoneFailed,
            0xC005 => SoeErrorCode::SendPacketFailed,
            0xC006 => SoeErrorCode::GetPacketFailed,
            0xC007 => SoeErrorCode::ReleasePacketFailed,
            0xC008 => SoeErrorCode::ErrorDuringUserApplicationTransfer,
            other => SoeErrorCode::Unknown(other),
        }
    }
}

impl vstd::std_specs::convert::FromSpecImpl<u16> for SoeErrorCode {
    open spec fn obeys_from_spec() -> bool {
        true
    }

    open spec fn from_spec(code: u16) -> Self {
        error_for_code(code)
    }
}

/// Reading a code never loses it: the error read from `code` carries `code`.
pub proof fn lemma_code_survives_reading(code: u16)
    ensures
        error_for_code(code).spec_code() == code,
{
}

/// Every entry of the table is what its own code reads as.
pub proof fn lemma_listed_error_read_back(e: SoeErrorCode)
    requires
        e.is_listed(),
    ensures
        error_for_code(e.spec_code()) == e,
{
}

/// A code reads as `Unknown` exactly when no entry of the table has it.
pub proof fn lemma_unknown_iff_unlisted(code: u16)
    ensures
        (error_for_code(code) is Unknown) <==> (forall|e: SoeErrorCode|
            #[trigger] e.is_listed() ==> e.spec_code() != code),
{
    lemma_code_survives_reading(code);
    if !(error_for_code(code) is Unknown) {
        assert(error_for_code(code).is_listed());
    } else {
        assert forall|e: SoeErrorCode| #[trigger] e.is_listed() implies e.spec_code() != code by {
            if e.spec_code() == code {
                lemma_listed_error_read_back(e);
            }
        }
    }
}


/// The code of every entry, as Table 293 of the Sercos master protocol API lists it.
pub proof fn lemma_error_code_table()
    ensures
        error_for_code(0x0000) == SoeErrorCode::NoError,
        error_for_code(0x0001) == SoeErrorCode::ChannelNotOpen,
        error_for_code(0x0009) == SoeErrorCode::InvalidChannelClosing,
        error_for_code(0x1001) == SoeErrorCode::NoIDN,
        error_for_code(0x1009) == SoeErrorCode::InvalidAccessToElement1,
        error_for_code(0x2001) == SoeErrorCode::NoName,
        error_for_code(0x2002) == SoeErrorCode::NameTransmissionTooShort,
        error_for_code(0x2003) == SoeErrorCode::NameTransmissionTooLong,
        error_for_code(0x2004) == SoeErrorCode::NameReadOnly,
        error_for_code(0x2005) == SoeErrorCode::NameWriteProtected,
        error_for_code(0x3002) == SoeErrorCode::AttributeTransmissionTooShort,
        error_for_code(0x3003) == SoeErrorCode::AttributeTransmissionTooLong,
        error_for_code(0x3004) == SoeErrorCode::AttributeRreadOnly,
        error_for_code(0x3005) == SoeErrorCode::AttributeWriteProtected,
        error_for_code(0x4001) == SoeErrorCode::NoUnits,
        error_for_code(0x4002) == SoeErrorCode::UnitTransmissionTooShort,
        error_for_code(0x4003) == SoeErrorCode::UnitTransmissionTooLong,
        error_for_code(0x4004) == SoeErrorCode::UnitReadOnly,
        error_for_code(0x4005) == SoeErrorCode::UnitWriteProtected,
        error_for_code(0x5001) == SoeErrorCode::NoMinimum,
        error_for_code(0x5002) == SoeErrorCode::MinimumTransmissionTooShort,
        error_for_code(0x5003) == SoeErrorCode::MinimumTransmissionTooLong,
        error_for_code(0x5004) == SoeErrorCode::MinimumReadOnly,
        error_for_code(0x5005) == SoeErrorCode::MinimumWriteProtected,
        error_for_code(0x6001) == SoeErrorCode::NoMaximum,
        error_for_code(0x6002) == SoeErrorCode::MaximumTransmissionTooShort,
        error_for_code(0x6003) == SoeErrorCode::MaximumTransmissionTooLong,
        error_for_code(0x6004) == SoeErrorCode::MaximumReadOnly,
        error_for_code(0x6005) == SoeErrorCode::MaximumWriteProtected,
        error_for_code(0x7002) == SoeErrorCode::OperationDataTransmissionTooShort,
        error_for_code(0x7003) == SoeErrorCode::OperationDataTransmissionTooLong,
        error_for_code(0x7004) == SoeErrorCode::OperationDataIsReadOnly,
        error_for_code(0x7005) == SoeErrorCode::OperationDataIsCurrentlyWriteProtected,
        error_for_code(0x7006) == SoeErrorCode::OperationDataIsLessThanTheMinimum,
        error_for_code(0x7007) == SoeErrorCode::OperationDataExceedsTheMaximum,
        error_for_code(0x7008) == SoeErrorCode::InvalidOperationData,
        error_for_code(0x7009) == SoeErrorCode::OperationDataWriteProtectedByAPassword,
        error_for_code(0x700A) == SoeErrorCode::OperationDataWriteProtectedCyclicallyConfigured,
        error_for_code(0x700B) == SoeErrorCode::InvalidIndirectAddressing,
        error_for_code(0x700C) == SoeErrorCode::OperationDataWriteProtectedDueToOtherSettings,
        error_for_code(0x700D) == SoeErrorCode::InvalidFloatingPointNumber,
        error_for_code(0x700E) == SoeErrorCode::OperationDataWriteProtectedAtParameterizationLevel,
        error_for_code(0x700F) == SoeErrorCode::OperationDataWriteProtectedAtOperatingLevel,
        error_for_code(0x7010) == SoeErrorCode::ProcedureCommandAlreadyActive,
        error_for_code(0x7011) == SoeErrorCode::ProcedureCommandNotInterruptible,
        error_for_code(0x7012) == SoeErrorCode::ProcedureCommandCurrentlyNotExecutable,
        error_for_code(0x7013) == SoeErrorCode::ProcedureCommandNotExecutableDueToInvalidOrFalseParameters,
        error_for_code(0xC000) == SoeErrorCode::UnknownInternalError,
        error_for_code(0xC001) == SoeErrorCode::InternalErrorInIdnTask,
        error_for_code(0xC002) == SoeErrorCode::OutOfMemory,
        error_for_code(0xC003) == SoeErrorCode::PacketOutOfMemory,
        error_for_code(0xC004) == SoeErrorCode::PacketDoneFailed,
        error_for_code(0xC005) == SoeErrorCode::SendPacketFailed,
        error_for_code(0xC006) == SoeErrorCode::GetPacketFailed,
        error_for_code(0xC007) == SoeErrorCode::ReleasePacketFailed,
        error_for_code(0xC008) == SoeErrorCode::ErrorDuringUserApplicationTransfer,
{
}

} // verus!
