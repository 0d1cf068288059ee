use ethercrab_soe::headers::{
    SoeElementFlag, SoeErrorFlag, SoeFragmentationFlag, SoeHeader, SoeOpcode,
};
use ethercrab_soe::mailbox::{MailboxHeader, MailboxType, Priority};
use ethercrab_soe::request::IdnHeader;
use ethercrab_soe::soe::{
    decode_attribute, decode_data_list, decode_name, decode_status, decode_units,
    parse_response, response_is_well_framed, Soe, SoeErrorCode, SoeResponse, SoeTransfer, SoeTransferError,
};
use ethercrab_soe::wire::UnpackError;

/// Runs a transfer to its end, giving every frame it hands out.
fn all_frames(mut t: SoeTransfer) -> Vec<Vec<u8>> {
    let mut frames = Vec::new();
    let mut counter = 1u8;
    while !t.is_finished() {
        frames.push(t.next_frame(counter).unwrap());
        counter = if counter == 7 { 1 } else { counter + 1 };
    }
    frames
}

fn response(length: u16, soe: SoeHeader, payload: &[u8]) -> Vec<u8> {
    let m = MailboxHeader {
        length,
        priority: Priority::Lowest,
        mailbox_type: MailboxType::Soe,
        counter: 1,
    };
    let mut bytes = m.pack().to_vec();
    bytes.extend_from_slice(&soe.pack());
    bytes.extend_from_slice(payload);
    bytes
}

fn response_header(error: SoeErrorFlag) -> SoeHeader {
    SoeHeader {
        opcode: SoeOpcode::ReadResponse,
        fragmentation: SoeFragmentationFlag::CompleteTransmission,
        error,
        drive_num: 0,
        element_flag: SoeElementFlag::ValueData,
        idn: 51,
    }
}

#[test]
fn soe_handle_keeps_its_subdevice() {
    let subdevice = String::from("AX5203-0000-0216");
    let soe = Soe::new(&subdevice);
    assert!(std::ptr::eq(soe.subdevice(), &subdevice));
}

#[test]
fn read_request_is_one_header_only_frame() {
    let t = SoeTransfer::new(SoeOpcode::ReadRequest, 0, SoeElementFlag::ValueData, 51, Vec::new(), 128);
    let frames = all_frames(t);
    assert_eq!(frames.len(), 1);
    let expected = IdnHeader::for_reading(1, 0, 51, SoeElementFlag::ValueData).pack();
    assert_eq!(frames[0], expected.to_vec());
}

#[test]
fn small_write_fits_one_frame() {
    let t = SoeTransfer::new(
        SoeOpcode::WriteRequest,
        0,
        SoeElementFlag::ValueData,
        32969,
        vec![0xd0, 0x07],
        128,
    );
    let frames = all_frames(t);
    assert_eq!(frames.len(), 1);
    let mut expected = IdnHeader::for_writing(1, 0, 32969, SoeElementFlag::ValueData, 2).pack().to_vec();
    expected.extend_from_slice(&[0xd0, 0x07]);
    assert_eq!(frames[0], expected);
}

#[test]
fn large_write_is_fragmented_and_reassembles() {
    let data: Vec<u8> = (0..10u8).collect();
    // Mailbox of 14 bytes: 10 bytes of headers, 4 of payload per frame.
    let t = SoeTransfer::new(SoeOpcode::WriteRequest, 1, SoeElementFlag::ValueData, 24, data.clone(), 14);
    let frames = all_frames(t);
    assert_eq!(frames.len(), 3);

    let mut reassembled = Vec::new();
    let expected_idn = [2u16, 1, 24];
    for (i, frame) in frames.iter().enumerate() {
        assert!(frame.len() <= 14);
        let header = IdnHeader::unpack_from_slice(frame).unwrap();
        assert_eq!(header.mailbox_header.length as usize, frame.len() - 6);
        assert_eq!(header.mailbox_header.mailbox_type, MailboxType::Soe);
        assert_eq!(header.mailbox_header.counter as usize, i + 1);
        assert_eq!(header.soe_header.opcode, SoeOpcode::WriteRequest);
        assert_eq!(header.soe_header.drive_num, 1);
        assert_eq!(header.soe_header.idn, expected_idn[i]);
        let last = i == frames.len() - 1;
        assert_eq!(
            header.soe_header.fragmentation,
            if last { SoeFragmentationFlag::CompleteTransmission } else { SoeFragmentationFlag::IncompleteFrame }
        );
        reassembled.extend_from_slice(&frame[10..]);
    }
    assert_eq!(frames[0].len(), 14);
    assert_eq!(frames[1].len(), 14);
    assert_eq!(frames[2].len(), 12);
    assert_eq!(reassembled, data);
}

#[test]
fn exact_multiple_ends_with_full_frame() {
    let data: Vec<u8> = (0..8u8).collect();
    let t = SoeTransfer::new(SoeOpcode::WriteRequest, 0, SoeElementFlag::ValueData, 7, data.clone(), 14);
    let frames = all_frames(t);
    assert_eq!(frames.len(), 2);
    let first = IdnHeader::unpack_from_slice(&frames[0]).unwrap();
    assert_eq!(first.soe_header.fragmentation, SoeFragmentationFlag::IncompleteFrame);
    assert_eq!(first.soe_header.idn, 1);
    let second = IdnHeader::unpack_from_slice(&frames[1]).unwrap();
    assert_eq!(second.soe_header.fragmentation, SoeFragmentationFlag::CompleteTransmission);
    assert_eq!(second.soe_header.idn, 7);
    assert_eq!(second.mailbox_header.length, 8);
}

#[test]
fn frame_count_is_rounded_up() {
    for len in 0..40usize {
        let data = vec![0xAAu8; len];
        let t = SoeTransfer::new(SoeOpcode::WriteRequest, 0, SoeElementFlag::ValueData, 1, data, 15);
        let frames = all_frames(t);
        let expected = if len == 0 { 1 } else { (len + 4) / 5 };
        assert_eq!(frames.len(), expected);
    }
}

#[test]
fn too_many_fragments_is_refused() {
    let data = vec![0u8; 65537];
    let mut t = SoeTransfer::new(SoeOpcode::WriteRequest, 0, SoeElementFlag::ValueData, 1, data, 11);
    assert_eq!(t.next_frame(1), Err(SoeTransferError::FragmentCountOverflow));
    assert!(!t.is_finished());
    // Fewer bytes fit in the 16 bit count.
    let mut t = SoeTransfer::new(SoeOpcode::WriteRequest, 0, SoeElementFlag::ValueData, 1, vec![0u8; 65535], 11);
    let frame = t.next_frame(1).unwrap();
    assert_eq!(IdnHeader::unpack_from_slice(&frame).unwrap().soe_header.idn, 65534);
}

#[test]
fn response_payload_is_read() {
    let bytes = response(4 + 2, response_header(SoeErrorFlag::NoError), &[0x34, 0x12, 0x00, 0x00]);
    let r = parse_response(&bytes).unwrap();
    assert_eq!(r.len, 2);
    assert_eq!(r.payload, vec![0x34, 0x12, 0x00, 0x00]);
    assert_eq!(r.data(), &[0x34, 0x12]);
    assert_eq!(decode_status(r.data()), Ok(0x1234));
}

#[test]
fn response_error_code_is_reported() {
    let bytes = response(6, response_header(SoeErrorFlag::ErrorOccurred), &[0x09, 0x10]);
    assert_eq!(
        parse_response(&bytes).err(),
        Some(SoeTransferError::Soe(SoeErrorCode::ValueOutsideLimits))
    );
    let bytes = response(6, response_header(SoeErrorFlag::ErrorOccurred), &[0x34, 0x12]);
    assert_eq!(
        parse_response(&bytes).err(),
        Some(SoeTransferError::Soe(SoeErrorCode::Unknown(0x1234)))
    );
}

#[test]
fn response_header_errors() {
    let bytes = response(6, response_header(SoeErrorFlag::NoError), &[1, 2]);
    assert_eq!(
        parse_response(&bytes[..5]).err(),
        Some(SoeTransferError::Wire(UnpackError::ReadBufferTooShort))
    );
    assert_eq!(
        parse_response(&bytes[..9]).err(),
        Some(SoeTransferError::Wire(UnpackError::ReadBufferTooShort))
    );
    let mut bad_type = bytes.clone();
    bad_type[5] = 0x17;
    assert_eq!(
        parse_response(&bad_type).err(),
        Some(SoeTransferError::Wire(UnpackError::InvalidValue))
    );
    let mut bad_element = bytes.clone();
    bad_element[7] = 0x03;
    assert_eq!(
        parse_response(&bad_element).err(),
        Some(SoeTransferError::Wire(UnpackError::InvalidValue))
    );
}

#[test]
fn response_without_payload() {
    let bytes = response(4, response_header(SoeErrorFlag::NoError), &[]);
    let r = parse_response(&bytes).unwrap();
    assert_eq!(r.len, 0);
    assert!(r.payload.is_empty());
    assert_eq!(r.data(), &[] as &[u8]);
}

#[test]
fn status_decoding() {
    assert_eq!(decode_status(&[0x01, 0x80, 0xFF]), Ok(0x8001));
    assert_eq!(decode_status(&[0x01]), Err(SoeTransferError::Decode));
    assert_eq!(decode_status(&[]), Err(SoeTransferError::Decode));
}

#[test]
fn attribute_decoding() {
    assert_eq!(decode_attribute(&[0x01, 0x02, 0x03, 0x04]), Ok(0x0403_0201));
    assert_eq!(decode_attribute(&[0x01, 0x02, 0x03]), Err(SoeTransferError::Decode));
}

#[test]
fn name_decoding() {
    assert_eq!(decode_name(b"AX5203-0000-0216"), Ok(String::from("AX5203-0000-0216")));
    assert_eq!(decode_name("Geschwindigkeit \u{00e4}".as_bytes()), Ok(String::from("Geschwindigkeit \u{00e4}")));
    assert_eq!(decode_name(&[]), Ok(String::new()));
    assert_eq!(decode_name(&[0x41, 0xFF]), Err(SoeTransferError::Decode));
}

#[test]
fn units_decoding() {
    assert_eq!(decode_units(b"rpm"), Ok(String::from("rpm")));
    assert_eq!(decode_units(&[0xC3]), Err(SoeTransferError::Decode));
}

#[test]
fn data_list_decoding() {
    let (max, list) = decode_data_list(&[0x04, 0x00, 0x08, 0x00, 0x01, 0x00, 0x02, 0x01, 0x09]);
    assert_eq!(max, 8);
    assert_eq!(list, vec![0x0001, 0x0102]);
    let (max, list) = decode_data_list(&[0x00, 0x00, 0x10, 0x00]);
    assert_eq!(max, 16);
    assert!(list.is_empty());
}

#[test]
fn response_data_is_the_announced_prefix() {
    let r = SoeResponse { len: 3, payload: vec![1, 2, 3, 4, 5] };
    assert_eq!(r.data(), &[1, 2, 3]);
}

#[test]
fn service_transfers_match_their_requests() {
    let read = all_frames(SoeTransfer::read_element(1, 15, SoeElementFlag::Unit, 10));
    assert_eq!(read, vec![IdnHeader::for_reading(1, 1, 15, SoeElementFlag::Unit).pack().to_vec()]);
    let write = all_frames(SoeTransfer::write_data(0, 15, vec![0x07, 0x00], 12));
    let mut expected = IdnHeader::for_writing(1, 0, 15, SoeElementFlag::ValueData, 2).pack().to_vec();
    expected.extend_from_slice(&[0x07, 0x00]);
    assert_eq!(write, vec![expected]);
}

#[test]
fn well_framed_responses() {
    assert!(response_is_well_framed(&response(4, response_header(SoeErrorFlag::NoError), &[])));
    assert!(!response_is_well_framed(&response(3, response_header(SoeErrorFlag::NoError), &[])));
    assert!(response_is_well_framed(&response(6, response_header(SoeErrorFlag::ErrorOccurred), &[1, 0])));
    assert!(!response_is_well_framed(&response(6, response_header(SoeErrorFlag::ErrorOccurred), &[1])));
    // Responses whose headers cannot be read are reported, not refused.
    assert!(response_is_well_framed(&[0x04, 0x00]));
    assert!(response_is_well_framed(&response(3, response_header(SoeErrorFlag::NoError), &[])[..8]));
}

#[test]
fn fragment_count_is_frames_that_follow() {
    for len in 0..60usize {
        let data = vec![0x55u8; len];
        let t = SoeTransfer::new(SoeOpcode::WriteRequest, 0, SoeElementFlag::ValueData, 77, data, 14);
        let frames = all_frames(t);
        for (i, frame) in frames.iter().enumerate() {
            let header = IdnHeader::unpack_from_slice(frame).unwrap();
            if i + 1 < frames.len() {
                assert_eq!(header.soe_header.fragmentation, SoeFragmentationFlag::IncompleteFrame);
                assert_eq!(header.soe_header.idn as usize, frames.len() - 1 - i);
            } else {
                assert_eq!(header.soe_header.fragmentation, SoeFragmentationFlag::CompleteTransmission);
                assert_eq!(header.soe_header.idn, 77);
            }
        }
    }
}

#[test]
fn min_max_data_reads_are_element_reads() {
    let cases = [
        (SoeTransfer::read_min(1, 300, 64), SoeElementFlag::MinimumValue),
        (SoeTransfer::read_max(1, 300, 64), SoeElementFlag::MaximumValue),
        (SoeTransfer::read_data(1, 300, 64), SoeElementFlag::ValueData),
    ];
    for (t, element) in cases {
        let frames = all_frames(t);
        let expected = all_frames(SoeTransfer::read_element(1, 300, element, 64));
        assert_eq!(frames, expected);
        assert_eq!(frames[0][7], element.to_u8());
    }
    assert_eq!(SoeElementFlag::MinimumValue.to_u8(), 0x10);
    assert_eq!(SoeElementFlag::MaximumValue.to_u8(), 0x20);
    assert_eq!(SoeElementFlag::ValueData.to_u8(), 0x40);
}

#[test]
fn element_services_read_their_elements() {
    let cases = [
        (SoeTransfer::read_status(0, 51, 40), SoeElementFlag::DataStateStatus, 0x01u8),
        (SoeTransfer::read_name(0, 51, 40), SoeElementFlag::NameDescriptor, 0x02),
        (SoeTransfer::read_attribute(0, 51, 40), SoeElementFlag::Attribute, 0x04),
        (SoeTransfer::read_units(0, 51, 40), SoeElementFlag::Unit, 0x08),
        (SoeTransfer::read_data_list(0, 51, 40), SoeElementFlag::ValueData, 0x40),
    ];
    for (t, element, byte) in cases {
        let frames = all_frames(t);
        assert_eq!(frames, all_frames(SoeTransfer::read_element(0, 51, element, 40)));
        assert_eq!(frames.len(), 1);
        assert_eq!(frames[0][7], byte);
    }
}
