//! The integers of a transport buffer, read and written through `byteorder`.

use vstd::prelude::*;
use crate::wire::{byte_type_id, length_in, length_field};

verus! {

/// `byteorder::ReadBytesExt::read_i8`, on a `std::io::Cursor` at the start of
/// `bytes`. It reads one byte and gives it as a signed integer. It fails,
/// with the error of `std::io::Read::read_exact`, exactly where there is no
/// byte to read.
#[verifier::external_body]
pub(crate) fn read_i8(bytes: &[u8]) -> (read: Result<i8, std::io::Error>)
    ensures
        read is Ok <==> bytes@.len() >= 1,
        read matches Ok(value) ==> value == byte_type_id(bytes@[0]),
{
    let mut cursor = std::io::Cursor::new(bytes);
    byteorder::ReadBytesExt::read_i8(&mut cursor)
}

/// `byteorder::ReadBytesExt::read_u32` in the order
/// `byteorder::LittleEndian`, on a `std::io::Cursor` at the start of `bytes`.
/// It reads four bytes and gives the integer that they spell, least
/// significant byte first. It fails, with the error of
/// `std::io::Read::read_exact`, exactly where fewer than four bytes are there.
#[verifier::external_body]
pub(crate) fn read_u32(bytes: &[u8]) -> (read: Result<u32, std::io::Error>)
    ensures
        read is Ok <==> bytes@.len() >= 4,
        read matches Ok(value) ==> value == length_in(bytes@),
{
    let mut cursor = std::io::Cursor::new(bytes);
    byteorder::ReadBytesExt::read_u32::<byteorder::LittleEndian>(&mut cursor)
}

/// `byteorder::ByteOrder::write_u32` of `byteorder::LittleEndian`. It
/// overwrites the first four bytes of `field` with `value`, least significant
/// byte first, and leaves the others as they were. It panics on fewer than
/// four bytes, which the precondition excludes.
#[verifier::external_body]
pub(crate) fn write_u32(field: &mut Vec<u8>, value: u32)
    requires
        old(field)@.len() >= 4,
    ensures
        final(field)@ == length_field(value) + old(field)@.subrange(4, old(field)@.len() as int),
{
    <byteorder::LittleEndian as byteorder::ByteOrder>::write_u32(field.as_mut_slice(), value)
}

/// `std::io::Error::from`, given `std::io::ErrorKind::UnexpectedEof`: the
/// error with which `std` answers a read beyond the end.
#[verifier::external_body]
pub(crate) fn unexpected_eof() -> std::io::Error {
    std::io::Error::from(std::io::ErrorKind::UnexpectedEof)
}

} // verus!
