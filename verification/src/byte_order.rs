//! Integers in the byte order of the host.
//!
//! Netlink messages never leave the machine, so their multi-byte fields are
//! laid out as the host lays out its integers. The layout is stated here
//! over [`vstd::endian::endianness`], which stands for the order of the
//! machine that runs the code.

use netlink_packet_utils::byteorder::{ByteOrder, NativeEndian};
use vstd::endian::{endianness, Endian};
use vstd::prelude::*;

verus! {

/// The 16-bit value that two bytes hold in host order.
pub open spec fn host_u16(bytes: Seq<u8>) -> u16
    recommends
        bytes.len() == 2,
{
    match endianness() {
        Endian::Little => (bytes[0] + 256 * bytes[1]) as u16,
        Endian::Big => (bytes[1] + 256 * bytes[0]) as u16,
    }
}

/// The two bytes that hold a 16-bit value in host order.
pub open spec fn host_u16_bytes(value: u16) -> Seq<u8> {
    match endianness() {
        Endian::Little => seq![(value % 256) as u8, (value / 256) as u8],
        Endian::Big => seq![(value / 256) as u8, (value % 256) as u8],
    }
}

/// The 32-bit value that four bytes hold in host order.
pub open spec fn host_u32(bytes: Seq<u8>) -> u32
    recommends
        bytes.len() == 4,
{
    match endianness() {
        Endian::Little => (bytes[0] + 256 * bytes[1] + 65536 * bytes[2] + 16777216 * bytes[3])
            as u32,
        Endian::Big => (bytes[3] + 256 * bytes[2] + 65536 * bytes[1] + 16777216 * bytes[0])
            as u32,
    }
}

/// The four bytes that hold a 32-bit value in host order.
pub open spec fn host_u32_bytes(value: u32) -> Seq<u8> {
    match endianness() {
        Endian::Little => seq![
            (value % 256) as u8,
            (value / 256 % 256) as u8,
            (value / 65536 % 256) as u8,
            (value / 16777216) as u8,
        ],
        Endian::Big => seq![
            (value / 16777216) as u8,
            (value / 65536 % 256) as u8,
            (value / 256 % 256) as u8,
            (value % 256) as u8,
        ],
    }
}

/// `buffer` with the bytes from `offset` on replaced by `bytes`.
pub open spec fn overwrite(buffer: Seq<u8>, offset: int, bytes: Seq<u8>) -> Seq<u8>
    recommends
        0 <= offset,
        offset + bytes.len() <= buffer.len(),
{
    buffer.subrange(0, offset) + bytes + buffer.subrange(
        offset + bytes.len(),
        buffer.len() as int,
    )
}

/// Writing one run of bytes behind another is writing them as one run.
pub proof fn lemma_overwrite_next(buffer: Seq<u8>, offset: int, first: Seq<u8>, next: Seq<u8>)
    requires
        0 <= offset,
        offset + first.len() + next.len() <= buffer.len(),
    ensures
        overwrite(overwrite(buffer, offset, first), offset + first.len(), next) == overwrite(
            buffer,
            offset,
            first + next,
        ),
{
    assert(overwrite(overwrite(buffer, offset, first), offset + first.len(), next) =~= overwrite(
        buffer,
        offset,
        first + next,
    ));
}

/// Reading back the bytes of a 16-bit value gives the value.
pub proof fn lemma_host_u16_of_bytes(value: u16)
    ensures
        host_u16_bytes(value).len() == 2,
        host_u16(host_u16_bytes(value)) == value,
{
}

/// Writing back the value of two bytes gives the two bytes.
pub proof fn lemma_host_u16_bytes_of_value(bytes: Seq<u8>)
    requires
        bytes.len() == 2,
    ensures
        host_u16_bytes(host_u16(bytes)) == bytes,
{
    assert(host_u16_bytes(host_u16(bytes)) =~= bytes);
}

/// Reading back the bytes of a 32-bit value gives the value.
pub proof fn lemma_host_u32_of_bytes(value: u32)
    ensures
        host_u32_bytes(value).len() == 4,
        host_u32(host_u32_bytes(value)) == value,
{
}

/// Writing back the value of four bytes gives the four bytes.
pub proof fn lemma_host_u32_bytes_of_value(bytes: Seq<u8>)
    requires
        bytes.len() == 4,
    ensures
        host_u32_bytes(host_u32(bytes)) == bytes,
{
    lemma_digits_of_sum(bytes[0], bytes[1], bytes[2], bytes[3]);
    lemma_digits_of_sum(bytes[3], bytes[2], bytes[1], bytes[0]);
    assert(host_u32_bytes(host_u32(bytes)) =~= bytes);
}

/// The four base-256 digits of a sum of four weighted bytes are the bytes.
proof fn lemma_digits_of_sum(b0: u8, b1: u8, b2: u8, b3: u8)
    ensures
        ({
            let v = b0 + 256 * b1 + 65536 * b2 + 16777216 * b3;
            &&& 0 <= v <= u32::MAX
            &&& v % 256 == b0
            &&& v / 256 % 256 == b1
            &&& v / 65536 % 256 == b2
            &&& v / 16777216 == b3
        }),
{
    let v = b0 + 256 * b1 + 65536 * b2 + 16777216 * b3;
    assert(v / 256 == b1 + 256 * b2 + 65536 * b3);
    assert(v / 65536 == b2 + 256 * b3);
}

/// `NativeEndian::read_u16` of the `byteorder` crate, as `netlink_packet_utils`
/// hands it on: the first two bytes of the slice, read as the host lays out
/// a `u16`. It panics on a shorter slice; here the slice holds exactly two.
#[verifier::external_body]
fn native_read_u16(bytes: &[u8]) -> (value: u16)
    requires
        bytes@.len() == 2,
    ensures
        value == host_u16(bytes@),
{
    NativeEndian::read_u16(bytes)
}

/// `NativeEndian::read_u32` of the `byteorder` crate: the first four bytes of
/// the slice, read as the host lays out a `u32`. It panics on a shorter
/// slice; here the slice holds exactly four.
#[verifier::external_body]
fn native_read_u32(bytes: &[u8]) -> (value: u32)
    requires
        bytes@.len() == 4,
    ensures
        value == host_u32(bytes@),
{
    NativeEndian::read_u32(bytes)
}

/// `NativeEndian::write_u16` of the `byteorder` crate, on two bytes of its
/// own: they come back holding the value as the host lays out a `u16`.
#[verifier::external_body]
fn native_u16_bytes(value: u16) -> (bytes: [u8; 2])
    ensures
        bytes@ == host_u16_bytes(value),
{
    let mut bytes = [0u8; 2];
    NativeEndian::write_u16(&mut bytes, value);
    bytes
}

/// `NativeEndian::write_u32` of the `byteorder` crate, on four bytes of its
/// own: they come back holding the value as the host lays out a `u32`.
#[verifier::external_body]
fn native_u32_bytes(value: u32) -> (bytes: [u8; 4])
    ensures
        bytes@ == host_u32_bytes(value),
{
    let mut bytes = [0u8; 4];
    NativeEndian::write_u32(&mut bytes, value);
    bytes
}

/// Reads the 16-bit field that starts at `offset`.
pub fn read_u16(buffer: &[u8], offset: usize) -> (value: u16)
    requires
        offset + 2 <= buffer.len(),
    ensures
        value == host_u16(buffer@.subrange(offset as int, offset + 2)),
{
    native_read_u16(&buffer[offset..offset + 2])
}

/// Reads the 32-bit field that starts at `offset`.
pub fn read_u32(buffer: &[u8], offset: usize) -> (value: u32)
    requires
        offset + 4 <= buffer.len(),
    ensures
        value == host_u32(buffer@.subrange(offset as int, offset + 4)),
{
    native_read_u32(&buffer[offset..offset + 4])
}

/// Writes the 16-bit field that starts at `offset`, and nothing else.
pub fn write_u16(buffer: &mut [u8], offset: usize, value: u16)
    requires
        offset + 2 <= old(buffer).len(),
    ensures
        final(buffer)@ == overwrite(old(buffer)@, offset as int, host_u16_bytes(value)),
{
    let bytes = native_u16_bytes(value);
    buffer[offset] = bytes[0];
    buffer[offset + 1] = bytes[1];
    assert(buffer@ =~= overwrite(old(buffer)@, offset as int, host_u16_bytes(value)));
}

/// Writes the 32-bit field that starts at `offset`, and nothing else.
pub fn write_u32(buffer: &mut [u8], offset: usize, value: u32)
    requires
        offset + 4 <= old(buffer).len(),
    ensures
        final(buffer)@ == overwrite(old(buffer)@, offset as int, host_u32_bytes(value)),
{
    let bytes = native_u32_bytes(value);
    buffer[offset] = bytes[0];
    buffer[offset + 1] = bytes[1];
    buffer[offset + 2] = bytes[2];
    buffer[offset + 3] = bytes[3];
    assert(buffer@ =~= overwrite(old(buffer)@, offset as int, host_u32_bytes(value)));
}

} // verus!
