use ethercrab_soe::error::SoeErrorCode as ChannelError;
use ethercrab_soe::soe::SoeErrorCode;

#[test]
fn channel_error_known_codes() {
    assert_eq!(ChannelError::from(0x0000), ChannelError::NoError);
    assert_eq!(ChannelError::from(0x0001), ChannelError::ChannelNotOpen);
    assert_eq!(ChannelError::from(0x1001), ChannelError::NoIDN);
    assert_eq!(ChannelError::from(0x3004), ChannelError::AttributeRreadOnly);
    assert_eq!(ChannelError::from(0x700A), ChannelError::OperationDataWriteProtectedCyclicallyConfigured);
    assert_eq!(ChannelError::from(0x7013), ChannelError::ProcedureCommandNotExecutableDueToInvalidOrFalseParameters);
    assert_eq!(ChannelError::from(0xC008), ChannelError::ErrorDuringUserApplicationTransfer);
}

#[test]
fn channel_error_unlisted_codes_are_kept() {
    assert_eq!(ChannelError::from(0x0002), ChannelError::Unknown(0x0002));
    assert_eq!(ChannelError::from(0x3001), ChannelError::Unknown(0x3001));
    assert_eq!(ChannelError::from(0x7014), ChannelError::Unknown(0x7014));
    assert_eq!(ChannelError::from(0xFFFF), ChannelError::Unknown(0xFFFF));
}

#[test]
fn channel_error_listed_codes_are_distinct() {
    // Every code reads as either Unknown of itself or a listed entry; the listed
    // entries read from distinct codes are distinct.
    let mut listed = Vec::new();
    for code in 0..=u16::MAX {
        match ChannelError::from(code) {
            ChannelError::Unknown(c) => assert_eq!(c, code),
            other => listed.push(other),
        }
    }
    assert_eq!(listed.len(), 56);
    for i in 0..listed.len() {
        for j in (i + 1)..listed.len() {
            assert_ne!(listed[i], listed[j]);
        }
    }
}

#[test]
fn response_error_known_codes() {
    assert_eq!(SoeErrorCode::from(0x0000), SoeErrorCode::Success);
    assert_eq!(SoeErrorCode::from(0x0001), SoeErrorCode::IdnDoesNotExist);
    assert_eq!(SoeErrorCode::from(0x0009), SoeErrorCode::InvalidIdnFormat);
    assert_eq!(SoeErrorCode::from(0x0010), SoeErrorCode::ServiceNotSupported);
    assert_eq!(SoeErrorCode::from(0x0011), SoeErrorCode::DataContainerTooSmall);
    assert_eq!(SoeErrorCode::from(0x0020), SoeErrorCode::ElementDoesNotExist);
    assert_eq!(SoeErrorCode::from(0x0023), SoeErrorCode::NameElementDoesNotExist);
    assert_eq!(SoeErrorCode::from(0x0028), SoeErrorCode::ElementNotSupported);
    assert_eq!(SoeErrorCode::from(0x1001), SoeErrorCode::WriteAccessProhibited);
    assert_eq!(SoeErrorCode::from(0x1002), SoeErrorCode::WriteBlockedByPhase);
    assert_eq!(SoeErrorCode::from(0x1009), SoeErrorCode::ValueOutsideLimits);
    assert_eq!(SoeErrorCode::from(0x100A), SoeErrorCode::InvalidValue);
    assert_eq!(SoeErrorCode::from(0x2001), SoeErrorCode::CommandExecutionError);
}

#[test]
fn response_error_unlisted_codes_are_kept() {
    assert_eq!(SoeErrorCode::from(0x0002), SoeErrorCode::Unknown(0x0002));
    assert_eq!(SoeErrorCode::from(0x7008), SoeErrorCode::Unknown(0x7008));
    let unknown = (0..=u16::MAX)
        .filter(|c| matches!(SoeErrorCode::from(*c), SoeErrorCode::Unknown(x) if x == *c))
        .count();
    assert_eq!(unknown, 65536 - 13);
}
