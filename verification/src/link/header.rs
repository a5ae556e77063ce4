//! The fixed header of a link message.
//!
//! ```text
//! 0        8        16                32
//! | family | unused | link layer type |
//! |            interface index        |
//! |              device flags         |
//! |              change mask          |
//! ```

use crate::address_family_linux::{AddressFamily, OpenCoded};
use crate::byte_order::{
    host_u16, host_u16_bytes, host_u32, host_u32_bytes, lemma_host_u16_bytes_of_value,
    lemma_host_u16_of_bytes, lemma_host_u32_bytes_of_value, lemma_host_u32_of_bytes, overwrite,
    read_u16, read_u32, write_u16, write_u32,
};
use crate::error::DecodeError;
use vstd::prelude::*;

verus! {

/// The bytes that the header of a link message takes.
pub const LINK_HEADER_LEN: usize = 16;

/// A view of the bytes of a link message. One exists only over bytes that
/// hold the whole header, so its accessors stay within the bytes.
pub struct LinkMessageBuffer<'a> {
    buffer: &'a [u8],
}

impl<'a> View for LinkMessageBuffer<'a> {
    type V = Seq<u8>;

    closed spec fn view(&self) -> Seq<u8> {
        self.buffer@
    }
}

impl<'a> LinkMessageBuffer<'a> {
    #[verifier::type_invariant]
    spec fn holds_header(self) -> bool {
        self.buffer@.len() >= LINK_HEADER_LEN
    }

    /// Looks at `buffer` as a link message, unless it is too short to hold
    /// the header.
    pub fn new_checked(buffer: &'a [u8]) -> (r: Result<LinkMessageBuffer<'a>, DecodeError>)
        ensures
            match r {
                Ok(buf) => buffer@.len() >= LINK_HEADER_LEN && buf@ == buffer@,
                Err(e) => buffer@.len() < LINK_HEADER_LEN && e == DecodeError::TruncatedHeader,
            },
    {
        if buffer.len() < LINK_HEADER_LEN {
            Err(DecodeError::TruncatedHeader)
        } else {
            Ok(LinkMessageBuffer { buffer })
        }
    }

    /// The bytes under the view.
    pub fn into_inner(self) -> (buffer: &'a [u8])
        ensures
            buffer@ == self@,
            buffer@.len() >= LINK_HEADER_LEN,
    {
        proof {
            use_type_invariant(&self);
        }
        self.buffer
    }

    /// The bytes under the view.
    pub fn inner(&self) -> (buffer: &'a [u8])
        ensures
            buffer@ == self@,
            buffer@.len() >= LINK_HEADER_LEN,
    {
        proof {
            use_type_invariant(self);
        }
        self.buffer
    }

    /// The byte of the address family.
    pub fn interface_family(&self) -> (family: u8)
        ensures
            self@.len() >= LINK_HEADER_LEN,
            family == self@[0],
    {
        proof {
            use_type_invariant(self);
        }
        self.buffer[0]
    }

    /// The type of the link layer.
    pub fn link_layer_type(&self) -> (link_layer_type: u16)
        ensures
            self@.len() >= LINK_HEADER_LEN,
            link_layer_type == host_u16(self@.subrange(2, 4)),
    {
        proof {
            use_type_invariant(self);
        }
        read_u16(self.buffer, 2)
    }

    /// The index of the interface.
    pub fn link_index(&self) -> (index: u32)
        ensures
            self@.len() >= LINK_HEADER_LEN,
            index == host_u32(self@.subrange(4, 8)),
    {
        proof {
            use_type_invariant(self);
        }
        read_u32(self.buffer, 4)
    }

    /// The flags of the device.
    pub fn flags(&self) -> (flags: u32)
        ensures
            self@.len() >= LINK_HEADER_LEN,
            flags == host_u32(self@.subrange(8, 12)),
    {
        proof {
            use_type_invariant(self);
        }
        read_u32(self.buffer, 8)
    }

    /// The mask of the flags that a request changes.
    pub fn change_mask(&self) -> (change_mask: u32)
        ensures
            self@.len() >= LINK_HEADER_LEN,
            change_mask == host_u32(self@.subrange(12, 16)),
    {
        proof {
            use_type_invariant(self);
        }
        read_u32(self.buffer, 12)
    }

    /// What follows the header: the attributes.
    pub fn payload(&self) -> (payload: &'a [u8])
        ensures
            self@.len() >= LINK_HEADER_LEN,
            payload@ == self@.skip(LINK_HEADER_LEN as int),
    {
        proof {
            use_type_invariant(self);
        }
        let len = self.buffer.len();
        let payload = &self.buffer[LINK_HEADER_LEN..len];
        assert(payload@ =~= self@.skip(LINK_HEADER_LEN as int));
        payload
    }
}

/// The header of a link message. The link layer type, the flags and the
/// change mask are kept as the numbers that the wire holds.
#[derive(Debug, PartialEq, Eq, Clone, Copy, Structural)]
pub struct LinkHeader {
    /// The address family of the interface.
    pub interface_family: AddressFamily,
    /// The index of the interface.
    pub index: u32,
    /// The type of the link layer.
    pub link_layer_type: u16,
    /// The flags of the device.
    pub flags: u32,
    /// The mask of the flags that a request changes.
    pub change_mask: u32,
}

impl LinkHeader {
    /// The header with every field zero and no address family.
    pub open spec fn spec_default() -> LinkHeader {
        LinkHeader {
            interface_family: AddressFamily::Unspec,
            index: 0,
            link_layer_type: 0,
            flags: 0,
            change_mask: 0,
        }
    }

    /// The header that the first sixteen of `bytes` hold.
    pub open spec fn spec_parse(bytes: Seq<u8>) -> LinkHeader
        recommends
            bytes.len() >= LINK_HEADER_LEN,
    {
        LinkHeader {
            interface_family: AddressFamily::of_code(bytes[0]),
            index: host_u32(bytes.subrange(4, 8)),
            link_layer_type: host_u16(bytes.subrange(2, 4)),
            flags: host_u32(bytes.subrange(8, 12)),
            change_mask: host_u32(bytes.subrange(12, 16)),
        }
    }

    /// The sixteen bytes of the header. No field lies in the second byte:
    /// it is `unused`, whatever that is.
    pub open spec fn bytes(self, unused: u8) -> Seq<u8> {
        seq![self.interface_family.code(), unused] + host_u16_bytes(self.link_layer_type)
            + host_u32_bytes(self.index) + host_u32_bytes(self.flags) + host_u32_bytes(
            self.change_mask,
        )
    }

    /// Reading back the bytes of a header gives the header, whatever
    /// follows them, if reading back the byte of its family gives the
    /// family.
    pub proof fn lemma_parse_of_bytes(self, unused: u8, tail: Seq<u8>)
        requires
            self.interface_family.is_canonical(),
        ensures
            self.bytes(unused).len() == LINK_HEADER_LEN,
            Self::spec_parse(self.bytes(unused) + tail) == self,
    {
        let bytes = self.bytes(unused) + tail;
        lemma_host_u16_of_bytes(self.link_layer_type);
        lemma_host_u32_of_bytes(self.index);
        lemma_host_u32_of_bytes(self.flags);
        lemma_host_u32_of_bytes(self.change_mask);
        assert(bytes.subrange(2, 4) =~= host_u16_bytes(self.link_layer_type));
        assert(bytes.subrange(4, 8) =~= host_u32_bytes(self.index));
        assert(bytes.subrange(8, 12) =~= host_u32_bytes(self.flags));
        assert(bytes.subrange(12, 16) =~= host_u32_bytes(self.change_mask));
        assert(bytes[0] == self.interface_family.code());
    }

    /// The header takes sixteen bytes.
    pub proof fn lemma_bytes_len(self, unused: u8)
        ensures
            self.bytes(unused).len() == LINK_HEADER_LEN,
    {
        lemma_host_u16_of_bytes(self.link_layer_type);
        lemma_host_u32_of_bytes(self.index);
        lemma_host_u32_of_bytes(self.flags);
        lemma_host_u32_of_bytes(self.change_mask);
    }

    /// Writing back the header at the front of `bytes` gives the first
    /// sixteen of them, the unused one kept.
    pub proof fn lemma_bytes_of_parse(bytes: Seq<u8>)
        requires
            bytes.len() >= LINK_HEADER_LEN,
        ensures
            Self::spec_parse(bytes).bytes(bytes[1]) == bytes.take(LINK_HEADER_LEN as int),
    {
        lemma_host_u16_bytes_of_value(bytes.subrange(2, 4));
        lemma_host_u32_bytes_of_value(bytes.subrange(4, 8));
        lemma_host_u32_bytes_of_value(bytes.subrange(8, 12));
        lemma_host_u32_bytes_of_value(bytes.subrange(12, 16));
        AddressFamily::lemma_code_is_preserved(bytes[0]);
        assert(Self::spec_parse(bytes).bytes(bytes[1]) =~= bytes.take(LINK_HEADER_LEN as int));
    }

    /// Reads the header under `buf`.
    pub fn parse(buf: &LinkMessageBuffer<'_>) -> (header: LinkHeader)
        ensures
            buf@.len() >= LINK_HEADER_LEN,
            header == Self::spec_parse(buf@),
    {
        LinkHeader {
            interface_family: AddressFamily::from_code(buf.interface_family()),
            index: buf.link_index(),
            link_layer_type: buf.link_layer_type(),
            flags: buf.flags(),
            change_mask: buf.change_mask(),
        }
    }

    /// The bytes that the header takes.
    pub fn buffer_len(&self) -> (len: usize)
        ensures
            len == LINK_HEADER_LEN,
    {
        LINK_HEADER_LEN
    }

    /// Writes the header over the first sixteen bytes of `buffer`, but for
    /// the second, which holds no field. Every other byte stays as it was.
    pub fn emit(&self, buffer: &mut [u8])
        requires
            old(buffer).len() >= LINK_HEADER_LEN,
        ensures
            final(buffer)@ == overwrite(old(buffer)@, 0, self.bytes(old(buffer)@[1])),
    {
        proof {
            lemma_host_u16_of_bytes(self.link_layer_type);
            lemma_host_u32_of_bytes(self.index);
            lemma_host_u32_of_bytes(self.flags);
            lemma_host_u32_of_bytes(self.change_mask);
        }
        buffer[0] = self.interface_family.to_code();
        write_u32(buffer, 4, self.index);
        write_u32(buffer, 12, self.change_mask);
        write_u16(buffer, 2, self.link_layer_type);
        write_u32(buffer, 8, self.flags);
        assert(buffer@ =~= overwrite(old(buffer)@, 0, self.bytes(old(buffer)@[1])));
    }
}

impl Default for LinkHeader {
    fn default() -> (header: LinkHeader)
        ensures
            header == LinkHeader::spec_default(),
    {
        LinkHeader {
            interface_family: AddressFamily::Unspec,
            index: 0,
            link_layer_type: 0,
            flags: 0,
            change_mask: 0,
        }
    }
}

} // verus!
