use ethercrab_soe::headers::{
    SoeAttributes, SoeDatalength, SoeDisplayFormat, SoeElementFlag, SoeErrorFlag,
    SoeFragmentationFlag, SoeHeader, SoeOpcode,
};
use ethercrab_soe::mailbox::{MailboxHeader, MailboxType, Priority};
use ethercrab_soe::request::IdnHeader;
use ethercrab_soe::wire::UnpackError;

fn read_header(idn: u16) -> SoeHeader {
    SoeHeader {
        opcode: SoeOpcode::ReadRequest,
        fragmentation: SoeFragmentationFlag::CompleteTransmission,
        error: SoeErrorFlag::NoError,
        drive_num: 0,
        element_flag: SoeElementFlag::ValueData,
        idn,
    }
}

#[test]
fn datalength_bit_len() {
    assert_eq!(SoeDatalength::TwoBytes.bit_len(), 16);
    assert_eq!(SoeDatalength::FourBytes.bit_len(), 32);
    assert_eq!(SoeDatalength::EightBytes.bit_len(), 64);
    assert_eq!(SoeDatalength::Variable1ByteStrings.bit_len(), 0);
    assert_eq!(SoeDatalength::Variable2ByteStrings.bit_len(), 0);
    assert_eq!(SoeDatalength::Variable4ByteStrings.bit_len(), 0);
    assert_eq!(SoeDatalength::Variable8ByteStrings.bit_len(), 0);
}

#[test]
fn enum_wire_values_round_trip() {
    for v in 0..=255u8 {
        match SoeOpcode::from_u8(v) {
            Ok(op) => assert_eq!(op.to_u8(), v),
            Err(e) => {
                assert_eq!(e, UnpackError::InvalidValue);
                assert!(v == 0 || v > 6);
            }
        }
        match SoeElementFlag::from_u8(v) {
            Ok(f) => assert_eq!(f.to_u8(), v),
            Err(e) => assert_eq!(e, UnpackError::InvalidValue),
        }
        match MailboxType::from_u8(v) {
            Ok(t) => assert_eq!(t.to_u8(), v),
            Err(e) => assert_eq!(e, UnpackError::InvalidValue),
        }
    }
    assert_eq!(SoeOpcode::from_u8(0x03), Ok(SoeOpcode::WriteRequest));
    assert_eq!(SoeElementFlag::from_u8(0x40), Ok(SoeElementFlag::ValueData));
    assert_eq!(SoeElementFlag::from_u8(0x00), Ok(SoeElementFlag::NoElement));
    assert_eq!(SoeElementFlag::from_u8(0x03), Err(UnpackError::InvalidValue));
    assert_eq!(SoeDatalength::from_u8(0), Err(UnpackError::InvalidValue));
    assert_eq!(SoeDisplayFormat::from_u8(0b111), Ok(SoeDisplayFormat::SERCOStime));
    assert_eq!(Priority::from_u8(3), Ok(Priority::Highest));
    assert_eq!(MailboxType::from_u8(0x0f), Ok(MailboxType::VendorSpecific));
    assert_eq!(MailboxType::from_u8(0x06), Err(UnpackError::InvalidValue));
}

#[test]
fn soe_header_pack_layout() {
    assert_eq!(read_header(0x0033).pack(), [0x01, 0x40, 0x33, 0x00]);
    let h = SoeHeader {
        opcode: SoeOpcode::WriteRequest,
        fragmentation: SoeFragmentationFlag::IncompleteFrame,
        error: SoeErrorFlag::ErrorOccurred,
        drive_num: 1,
        element_flag: SoeElementFlag::Attribute,
        idn: 0x8123,
    };
    assert_eq!(h.pack(), [0b0011_1011, 0x04, 0x23, 0x81]);
}

#[test]
fn soe_header_round_trip() {
    let h = SoeHeader {
        opcode: SoeOpcode::Notification,
        fragmentation: SoeFragmentationFlag::IncompleteFrame,
        error: SoeErrorFlag::NoError,
        drive_num: 7,
        element_flag: SoeElementFlag::MaximumValue,
        idn: 0xBEEF,
    };
    assert_eq!(SoeHeader::unpack_from_slice(&h.pack()), Ok(h));
    // Only three bits of the drive number travel.
    let wide = SoeHeader { drive_num: 9, ..h };
    assert_eq!(SoeHeader::unpack_from_slice(&wide.pack()), Ok(SoeHeader { drive_num: 1, ..h }));
}

#[test]
fn soe_header_bytes_round_trip() {
    let bytes = [0b1110_0101u8, 0x20, 0x01, 0x02, 0xAA];
    let h = SoeHeader::unpack_from_slice(&bytes).unwrap();
    assert_eq!(h.opcode, SoeOpcode::Notification);
    assert_eq!(h.fragmentation, SoeFragmentationFlag::CompleteTransmission);
    assert_eq!(h.error, SoeErrorFlag::NoError);
    assert_eq!(h.drive_num, 7);
    assert_eq!(h.element_flag, SoeElementFlag::MaximumValue);
    assert_eq!(h.idn, 0x0201);
    assert_eq!(h.pack(), [bytes[0], bytes[1], bytes[2], bytes[3]]);
}

#[test]
fn soe_header_unpack_errors() {
    assert_eq!(SoeHeader::unpack_from_slice(&[0x01, 0x40, 0x33]), Err(UnpackError::ReadBufferTooShort));
    assert_eq!(SoeHeader::unpack_from_slice(&[0x00, 0x40, 0x33, 0x00]), Err(UnpackError::InvalidValue));
    assert_eq!(SoeHeader::unpack_from_slice(&[0x07, 0x40, 0x33, 0x00]), Err(UnpackError::InvalidValue));
    assert_eq!(SoeHeader::unpack_from_slice(&[0x01, 0x41, 0x33, 0x00]), Err(UnpackError::InvalidValue));
}

#[test]
fn soe_attributes_pack_layout() {
    let a = SoeAttributes {
        conversion_factor: 0x0102,
        data_length: SoeDatalength::FourBytes,
        is_command: true,
        display_format: SoeDisplayFormat::SignedIntegerDec,
        decimal_places: 3,
        write_protect_cp2: true,
        write_protect_cp3: false,
        write_protect_cp4: true,
    };
    assert_eq!(a.pack(), [0x02, 0x01, 0b0010_1010, 0b0101_0011]);
    assert_eq!(SoeAttributes::unpack_from_slice(&a.pack()), Ok(a));
    let wide = SoeAttributes { decimal_places: 0x13, ..a };
    assert_eq!(SoeAttributes::unpack_from_slice(&wide.pack()), Ok(a));
}

#[test]
fn soe_attributes_reserved_bits_are_dropped() {
    let bytes = [0xFF, 0xFF, 0xFF, 0xFF];
    let a = SoeAttributes::unpack_from_slice(&bytes).unwrap();
    assert_eq!(a.conversion_factor, 0xFFFF);
    assert_eq!(a.data_length, SoeDatalength::Variable8ByteStrings);
    assert!(a.is_command);
    assert_eq!(a.display_format, SoeDisplayFormat::SERCOStime);
    assert_eq!(a.decimal_places, 15);
    assert!(a.write_protect_cp2 && a.write_protect_cp3 && a.write_protect_cp4);
    assert_eq!(a.pack(), [0xFF, 0xFF, 0x7F, 0x7F]);
}

#[test]
fn soe_attributes_unpack_errors() {
    assert_eq!(SoeAttributes::unpack_from_slice(&[0, 0, 0x11]), Err(UnpackError::ReadBufferTooShort));
    assert_eq!(SoeAttributes::unpack_from_slice(&[0, 0, 0x10, 0]), Err(UnpackError::InvalidValue));
}

#[test]
fn mailbox_header_layout_and_round_trip() {
    let m = MailboxHeader {
        length: 0x0104,
        priority: Priority::High,
        mailbox_type: MailboxType::Soe,
        counter: 3,
    };
    assert_eq!(m.pack(), [0x04, 0x01, 0x00, 0x00, 0x80, 0x35]);
    assert_eq!(MailboxHeader::unpack_from_slice(&m.pack()), Ok(m));
    let wide = MailboxHeader { counter: 11, ..m };
    assert_eq!(MailboxHeader::unpack_from_slice(&wide.pack()), Ok(m));
    let bytes = [0x04, 0x00, 0x12, 0x34, 0xFF, 0xF6];
    assert_eq!(
        MailboxHeader::unpack_from_slice(&bytes),
        Err(UnpackError::InvalidValue)
    );
    let bytes = [0x04, 0x00, 0x12, 0x34, 0xFF, 0xF5];
    let read = MailboxHeader::unpack_from_slice(&bytes).unwrap();
    assert_eq!(read.priority, Priority::Highest);
    assert_eq!(read.counter, 7);
    assert_eq!(read.pack(), [0x04, 0x00, 0x00, 0x00, 0xC0, 0x75]);
    assert_eq!(MailboxHeader::unpack_from_slice(&bytes[..5]), Err(UnpackError::ReadBufferTooShort));
}

#[test]
fn idn_header_for_reading() {
    let h = IdnHeader::for_reading(2, 1, 0x0033, SoeElementFlag::ValueData);
    assert_eq!(h.mailbox_header.length, 4);
    assert_eq!(h.mailbox_header.priority, Priority::Lowest);
    assert_eq!(h.mailbox_header.mailbox_type, MailboxType::Soe);
    assert_eq!(h.mailbox_header.counter, 2);
    assert_eq!(h.soe_header.opcode, SoeOpcode::ReadRequest);
    assert_eq!(h.soe_header.fragmentation, SoeFragmentationFlag::CompleteTransmission);
    assert_eq!(h.soe_header.error, SoeErrorFlag::NoError);
    assert_eq!(h.soe_header.drive_num, 1);
    assert_eq!(h.soe_header.element_flag, SoeElementFlag::ValueData);
    assert_eq!(h.soe_header.idn, 0x0033);
    assert_eq!(h.pack(), [0x04, 0x00, 0x00, 0x00, 0x00, 0x25, 0x21, 0x40, 0x33, 0x00]);
    assert_eq!(IdnHeader::unpack_from_slice(&h.pack()), Ok(h));
}

#[test]
fn idn_header_for_writing() {
    let h = IdnHeader::for_writing(1, 0, 32969, SoeElementFlag::ValueData, 2);
    assert_eq!(h.mailbox_header.length, 6);
    assert_eq!(h.soe_header.opcode, SoeOpcode::WriteRequest);
    assert_eq!(h.soe_header.idn, 32969);
    assert_eq!(h.pack(), [0x06, 0x00, 0x00, 0x00, 0x00, 0x15, 0x03, 0x40, 0xC9, 0x80]);
    assert_eq!(IdnHeader::unpack_from_slice(&h.pack()), Ok(h));
    let max = IdnHeader::for_writing(1, 0, 1, SoeElementFlag::ValueData, u16::MAX - 4);
    assert_eq!(max.mailbox_header.length, u16::MAX);
}

#[test]
fn idn_header_unpack_errors() {
    let h = IdnHeader::for_reading(1, 0, 1, SoeElementFlag::Unit).pack();
    assert_eq!(IdnHeader::unpack_from_slice(&h[..9]), Err(UnpackError::ReadBufferTooShort));
    let mut bad_type = h;
    bad_type[5] = 0x1E;
    assert_eq!(IdnHeader::unpack_from_slice(&bad_type), Err(UnpackError::InvalidValue));
    let mut bad_opcode = h;
    bad_opcode[6] = 0x00;
    assert_eq!(IdnHeader::unpack_from_slice(&bad_opcode), Err(UnpackError::InvalidValue));
}
