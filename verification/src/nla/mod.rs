//! Netlink attributes: a kind, a value, and the four-byte header that frames
//! them.
//!
//! An attribute takes `length` bytes, header included, and the next one
//! starts at the following multiple of four:
//!
//! ```text
//! | length: u16 | kind: u16 | value ... | padding to a multiple of 4 |
//! ```
//!
//! Both header fields are in host order. The two highest bits of the kind
//! are flags; they travel with the kind wherever an attribute is kept whole.

pub mod buffer;
pub mod default_nla;
pub mod laws;
pub mod row;

pub use self::buffer::{NlaBuffer, NlasIterator};
pub use self::default_nla::{
    default_nla_kind, default_nla_value, default_nla_view, parse_default_nla,
};
pub use self::laws::{
    is_nla_row, is_one_nla, lemma_bytes_of_first_nla, lemma_first_nla_of_bytes,
    lemma_nlas_bytes_of_parse, lemma_parse_nlas_behind, lemma_parse_nlas_of_bytes,
    lemma_parse_nlas_truncated,
};
pub use self::row::{
    all_fit, behind, checked_nlas_buffer_len, emit_nlas, emit_nlas_at, lemma_nlas_bytes_concat,
    lemma_nlas_bytes_len, lemma_nlas_prefix, lemma_nlas_single, nla_views, nlas_buffer_len,
    nlas_bytes, nlas_fit, parse_nlas, spec_nlas_buffer_len, spec_parse_nlas,
};

use crate::byte_order::{
    host_u16, host_u16_bytes, lemma_host_u16_of_bytes, lemma_overwrite_next, overwrite, write_u16,
};
use crate::error::DecodeError;
use vstd::prelude::*;

verus! {

/// The bit of the kind that marks an attribute whose value holds attributes.
pub const NLA_F_NESTED: u16 = 0x8000;

/// The bit of the kind that marks a value in network byte order.
pub const NLA_F_NET_BYTEORDER: u16 = 0x4000;

/// The bits of the kind that are not flags.
pub const NLA_TYPE_MASK: u16 = 0x3fff;

/// Attributes start at multiples of this many bytes.
pub const NLA_ALIGNTO: usize = 4;

/// The bytes that the length and the kind take.
pub const NLA_HEADER_SIZE: usize = 4;

/// The largest value that the 16-bit length of an attribute can frame.
pub const NLA_MAX_VALUE_LEN: usize = 0xffff - 4;

/// The least multiple of four that is not below `len`.
pub open spec fn nla_align(len: nat) -> nat {
    ((len + 3) / 4 * 4) as nat
}

/// `n` zero bytes.
pub open spec fn zeros(n: nat) -> Seq<u8> {
    Seq::new(n, |i: int| 0u8)
}

/// An attribute as the wire shows it: the kind with its flags, and the
/// bytes of the value.
pub struct NlaView {
    pub kind: u16,
    pub value: Seq<u8>,
}

impl NlaView {
    /// Whether the 16-bit length field can frame the value.
    pub open spec fn fits(self) -> bool {
        self.value.len() <= NLA_MAX_VALUE_LEN
    }

    /// The bytes that the attribute takes in a message, padding included.
    pub open spec fn buffer_len(self) -> nat {
        nla_align(self.value.len()) + 4
    }

    /// The attribute on the wire: length, kind, value, and zeros up to the
    /// next multiple of four. The length field is right where the value
    /// [`fits`](Self::fits).
    pub open spec fn bytes(self) -> Seq<u8> {
        host_u16_bytes((self.value.len() + 4) as u16) + host_u16_bytes(self.kind) + self.value
            + zeros((nla_align(self.value.len()) - self.value.len()) as nat)
    }
}

/// The length that the attribute at the start of `bytes` declares.
pub open spec fn declared_length(bytes: Seq<u8>) -> u16
    recommends
        bytes.len() >= 2,
{
    host_u16(bytes.subrange(0, 2))
}

/// The kind, flags included, of the attribute at the start of `bytes`.
pub open spec fn declared_kind(bytes: Seq<u8>) -> u16
    recommends
        bytes.len() >= 4,
{
    host_u16(bytes.subrange(2, 4))
}

/// Whether an attribute starts `bytes`: its header is there, it declares no
/// more than what is there, and no less than its header.
pub open spec fn check_nla(bytes: Seq<u8>) -> Result<(), DecodeError> {
    if bytes.len() < 4 {
        Err(DecodeError::TruncatedAttributeHeader)
    } else if bytes.len() < declared_length(bytes) {
        Err(DecodeError::TruncatedAttribute)
    } else if declared_length(bytes) < 4 {
        Err(DecodeError::InvalidAttributeLength)
    } else {
        Ok(())
    }
}

/// The attribute at the start of `bytes`.
pub open spec fn first_nla(bytes: Seq<u8>) -> NlaView
    recommends
        check_nla(bytes) is Ok,
{
    NlaView { kind: declared_kind(bytes), value: bytes.subrange(4, declared_length(bytes) as int) }
}

/// Rounds a length up to the next multiple of four.
pub fn align(len: usize) -> (aligned: usize)
    requires
        len + 3 <= usize::MAX,
    ensures
        aligned == nla_align(len as nat),
        len <= aligned < len + 4,
        aligned % 4 == 0,
{
    (len + (NLA_ALIGNTO - 1)) / NLA_ALIGNTO * NLA_ALIGNTO
}

/// Writes `count` zeros from `offset` on, and nothing else.
pub fn write_zeros(buffer: &mut [u8], offset: usize, count: usize)
    requires
        offset + count <= old(buffer).len(),
    ensures
        final(buffer)@ == overwrite(old(buffer)@, offset as int, zeros(count as nat)),
{
    let mut i: usize = 0;
    while i < count
        invariant
            i <= count,
            buffer.len() == old(buffer).len(),
            offset + count <= buffer.len(),
            buffer@ =~= overwrite(old(buffer)@, offset as int, zeros(i as nat)),
        decreases count - i,
    {
        buffer[offset + i] = 0;
        i += 1;
    }
}

/// What is left of `bytes` behind its first attribute and the padding of
/// that attribute. The last attribute may come without its padding.
pub open spec fn after_first_nla(bytes: Seq<u8>) -> Seq<u8>
    recommends
        check_nla(bytes) is Ok,
{
    let next = nla_align(declared_length(bytes) as nat);
    if next >= bytes.len() {
        Seq::empty()
    } else {
        bytes.skip(next as int)
    }
}

/// What every family of attributes can do: tell its kind and the length of
/// its value, write the value, and read itself from the bytes of one
/// attribute.
///
/// The view of an attribute is what the wire shows of it. A family reads
/// every attribute, also one of a kind that it has no name for: it keeps
/// that one whole, so that writing it back gives the bytes that were read.
pub trait Nla: Sized + View<V = NlaView> {
    /// The length of the value.
    fn value_len(&self) -> (len: usize)
        ensures
            len == self@.value.len(),
    ;

    /// The kind, flags included.
    fn kind(&self) -> (kind: u16)
        ensures
            kind == self@.kind,
    ;

    /// Writes the value over `buffer`, which has the value's length.
    fn emit_value(&self, buffer: &mut [u8])
        requires
            old(buffer).len() == self@.value.len(),
        ensures
            final(buffer)@ == self@.value,
    ;

    /// Reads the attribute under `buf`.
    fn parse(buf: &NlaBuffer<'_>) -> (r: Result<Self, DecodeError>)
        ensures
            r matches Ok(nla) && nla@ == first_nla(buf@),
    ;

    /// Whether the value holds attributes of its own.
    fn is_nested(&self) -> (nested: bool)
        ensures
            nested == (self@.kind & NLA_F_NESTED != 0),
    {
        (self.kind() & NLA_F_NESTED) != 0
    }

    /// Whether the value is in network byte order.
    fn is_network_byteorder(&self) -> (network: bool)
        ensures
            network == (self@.kind & NLA_F_NET_BYTEORDER != 0),
    {
        (self.kind() & NLA_F_NET_BYTEORDER) != 0
    }

    /// Whether the 16-bit length field can frame the value.
    fn fits(&self) -> (fits: bool)
        ensures
            fits == self@.fits(),
    {
        self.value_len() <= NLA_MAX_VALUE_LEN
    }

    /// The bytes that the attribute takes in a message, padding included.
    fn buffer_len(&self) -> (len: usize)
        requires
            self@.buffer_len() <= usize::MAX,
        ensures
            len == self@.buffer_len(),
    {
        align(self.value_len()) + NLA_HEADER_SIZE
    }

    /// Writes the attribute at `offset`: header, value and zeros for
    /// padding. Every other byte of `buffer` stays as it was.
    fn emit_at(&self, buffer: &mut [u8], offset: usize)
        requires
            self@.fits(),
            offset + self@.buffer_len() <= old(buffer).len(),
        ensures
            final(buffer)@ == overwrite(old(buffer)@, offset as int, self@.bytes()),
    {
        let value_len = self.value_len();
        let padded = align(value_len);
        let ghost length_bytes = host_u16_bytes((value_len + 4) as u16);
        let ghost kind_bytes = host_u16_bytes(self@.kind);
        let ghost padding = zeros((padded - value_len) as nat);
        proof {
            lemma_host_u16_of_bytes((value_len + 4) as u16);
            lemma_host_u16_of_bytes(self@.kind);
        }
        write_u16(buffer, offset, (value_len + NLA_HEADER_SIZE) as u16);
        write_u16(buffer, offset + 2, self.kind());
        let ghost framed = buffer@;
        let (_, rest) = buffer.split_at_mut(offset + NLA_HEADER_SIZE);
        let (value, _) = rest.split_at_mut(value_len);
        self.emit_value(value);
        assert(buffer@ == overwrite(framed, offset + 4, self@.value)) by {
            assert(buffer@ =~= overwrite(framed, offset + 4, self@.value));
        }
        write_zeros(buffer, offset + NLA_HEADER_SIZE + value_len, padded - value_len);
        proof {
            let start = old(buffer)@;
            let header = length_bytes + kind_bytes;
            lemma_overwrite_next(start, offset as int, length_bytes, kind_bytes);
            lemma_overwrite_next(start, offset as int, header, self@.value);
            lemma_overwrite_next(start, offset as int, header + self@.value, padding);
        }
    }

    /// Writes the attribute at the start of `buffer`: header, value and
    /// zeros for padding. What lies behind the padding stays as it was.
    fn emit(&self, buffer: &mut [u8])
        requires
            self@.fits(),
            self@.buffer_len() <= old(buffer).len(),
        ensures
            final(buffer)@ == overwrite(old(buffer)@, 0, self@.bytes()),
    {
        self.emit_at(buffer, 0)
    }
}

} // verus!
