//! Errors of the packed little endian wire encoding, and the decoders of
//! `ethercrab_wire` and `std` that responses are read with.

use vstd::prelude::*;

verus! {

/// Why a value could not be read from, or written to, its wire encoding.
#[derive(Clone, Copy, Debug, PartialEq, Eq, Structural)]
pub enum UnpackError {
    /// The buffer to read a value from is shorter than its encoding.
    ReadBufferTooShort,
    /// A field holds a value that stands for no variant of its type.
    InvalidValue,
}

/// `Ok` of the value that was found, or `InvalidValue` where none was.
pub open spec fn value_or_invalid<T>(found: Option<T>) -> Result<T, UnpackError> {
    match found {
        Some(v) => Ok(v),
        None => Err(UnpackError::InvalidValue),
    }
}

/// The 32 bit value stored little endian in `b0` (lowest) to `b3` (highest).
pub open spec fn le_u32(b0: u8, b1: u8, b2: u8, b3: u8) -> u32 {
    (b0 + 256 * b1 + 65536 * b2 + 16777216 * b3) as u32
}

/// The error type of `ethercrab_wire`; this library reads none of it.
#[verifier::external_type_specification]
#[verifier::external_body]
pub struct ExWireError(ethercrab_wire::WireError);

/// Calls `<u16 as ethercrab_wire::EtherCrabWireRead>::unpack_from_slice`, which
/// reads the first two bytes of `buf` little endian and fails (with
/// `ReadBufferTooShort`) exactly when `buf` is shorter than two bytes. Which
/// error it fails with is not stated.
#[verifier::external_body]
pub(crate) fn wire_read_u16(buf: &[u8]) -> (res: Result<u16, ethercrab_wire::WireError>)
    ensures
        res is Ok <==> buf@.len() >= 2,
        res matches Ok(v) ==> v == (buf@[0] + 256 * buf@[1]),
{
    <u16 as ethercrab_wire::EtherCrabWireRead>::unpack_from_slice(buf)
}

/// Calls `<u32 as ethercrab_wire::EtherCrabWireRead>::unpack_from_slice`, which
/// reads the first four bytes of `buf` little endian and fails (with
/// `ReadBufferTooShort`) exactly when `buf` is shorter than four bytes. Which
/// error it fails with is not stated.
#[verifier::external_body]
pub(crate) fn wire_read_u32(buf: &[u8]) -> (res: Result<u32, ethercrab_wire::WireError>)
    ensures
        res is Ok <==> buf@.len() >= 4,
        res matches Ok(v) ==> v == le_u32(buf@[0], buf@[1], buf@[2], buf@[3]),
{
    <u32 as ethercrab_wire::EtherCrabWireRead>::unpack_from_slice(buf)
}

/// Calls `<String as ethercrab_wire::EtherCrabWireRead>::unpack_from_slice`,
/// which reads all of `buf` as UTF-8 text (through `core::str::from_utf8`) and
/// fails (with `InvalidUtf8`) exactly when `buf` is not valid UTF-8. Which error
/// it fails with is not stated.
#[verifier::external_body]
pub(crate) fn wire_read_string(buf: &[u8]) -> (res: Result<String, ethercrab_wire::WireError>)
    ensures
        res is Ok <==> vstd::utf8::valid_utf8(buf@),
        res matches Ok(s) ==> s@ == vstd::utf8::decode_utf8(buf@),
{
    <String as ethercrab_wire::EtherCrabWireRead>::unpack_from_slice(buf)
}

/// Calls `core::str::from_utf8`, which succeeds exactly when `bytes` are valid
/// UTF-8 and then gives the text they encode; its error is dropped.
#[verifier::external_body]
pub(crate) fn str_from_utf8(bytes: &[u8]) -> (res: Option<&str>)
    ensures
        res is Some <==> vstd::utf8::valid_utf8(bytes@),
        res matches Some(s) ==> s@ == vstd::utf8::decode_utf8(bytes@),
{
    match core::str::from_utf8(bytes) {
        Ok(s) => Some(s),
        Err(_) => None,
    }
}

} // verus!
