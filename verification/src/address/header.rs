//! The fixed header of an address message.
//!
//! ```text
//! 0        8               16       24      32
//! | family | prefix length | flags  | scope |
//! |             interface index             |
//! ```

use crate::address_family_linux::{AddressFamily, OpenCoded};
use crate::byte_order::{
    host_u32, host_u32_bytes, lemma_host_u32_bytes_of_value, lemma_host_u32_of_bytes, overwrite,
    read_u32, write_u32,
};
use crate::error::DecodeError;
use vstd::prelude::*;

verus! {

/// The bytes that the header of an address message takes.
pub const ADDRESS_HEADER_LEN: usize = 8;

/// A view of the bytes of an address message. One exists only over bytes
/// that hold the whole header, so its accessors stay within the bytes.
pub struct AddressMessageBuffer<'a> {
    buffer: &'a [u8],
}

impl<'a> View for AddressMessageBuffer<'a> {
    type V = Seq<u8>;

    closed spec fn view(&self) -> Seq<u8> {
        self.buffer@
    }
}

impl<'a> AddressMessageBuffer<'a> {
    #[verifier::type_invariant]
    spec fn holds_header(self) -> bool {
        self.buffer@.len() >= ADDRESS_HEADER_LEN
    }

    /// Looks at `buffer` as an address message, unless it is too short to
    /// hold the header.
    pub fn new_checked(buffer: &'a [u8]) -> (r: Result<AddressMessageBuffer<'a>, DecodeError>)
        ensures
            match r {
                Ok(buf) => buffer@.len() >= ADDRESS_HEADER_LEN && buf@ == buffer@,
                Err(e) => buffer@.len() < ADDRESS_HEADER_LEN && e == DecodeError::TruncatedHeader,
            },
    {
        if buffer.len() < ADDRESS_HEADER_LEN {
            Err(DecodeError::TruncatedHeader)
        } else {
            Ok(AddressMessageBuffer { buffer })
        }
    }

    /// The bytes under the view.
    pub fn into_inner(self) -> (buffer: &'a [u8])
        ensures
            buffer@ == self@,
            buffer@.len() >= ADDRESS_HEADER_LEN,
    {
        proof {
            use_type_invariant(&self);
        }
        self.buffer
    }

    /// The bytes under the view.
    pub fn inner(&self) -> (buffer: &'a [u8])
        ensures
            buffer@ == self@,
            buffer@.len() >= ADDRESS_HEADER_LEN,
    {
        proof {
            use_type_invariant(self);
        }
        self.buffer
    }

    /// The byte of the address family.
    pub fn family(&self) -> (family: u8)
        ensures
            self@.len() >= ADDRESS_HEADER_LEN,
            family == self@[0],
    {
        proof {
            use_type_invariant(self);
        }
        self.buffer[0]
    }

    /// The length of the prefix, in bits.
    pub fn prefix_len(&self) -> (prefix_len: u8)
        ensures
            self@.len() >= ADDRESS_HEADER_LEN,
            prefix_len == self@[1],
    {
        proof {
            use_type_invariant(self);
        }
        self.buffer[1]
    }

    /// The flags of the address.
    pub fn flags(&self) -> (flags: u8)
        ensures
            self@.len() >= ADDRESS_HEADER_LEN,
            flags == self@[2],
    {
        proof {
            use_type_invariant(self);
        }
        self.buffer[2]
    }

    /// The scope of the address.
    pub fn scope(&self) -> (scope: u8)
        ensures
            self@.len() >= ADDRESS_HEADER_LEN,
            scope == self@[3],
    {
        proof {
            use_type_invariant(self);
        }
        self.buffer[3]
    }

    /// The index of the interface that has the address.
    pub fn index(&self) -> (index: u32)
        ensures
            self@.len() >= ADDRESS_HEADER_LEN,
            index == host_u32(self@.subrange(4, 8)),
    {
        proof {
            use_type_invariant(self);
        }
        read_u32(self.buffer, 4)
    }

    /// What follows the header: the attributes.
    pub fn payload(&self) -> (payload: &'a [u8])
        ensures
            self@.len() >= ADDRESS_HEADER_LEN,
            payload@ == self@.skip(ADDRESS_HEADER_LEN as int),
    {
        proof {
            use_type_invariant(self);
        }
        let len = self.buffer.len();
        let payload = &self.buffer[ADDRESS_HEADER_LEN..len];
        assert(payload@ =~= self@.skip(ADDRESS_HEADER_LEN as int));
        payload
    }
}

/// The header of an address message. The flags and the scope are kept as
/// the numbers that the wire holds.
#[derive(Debug, PartialEq, Eq, Clone, Copy, Structural)]
pub struct AddressHeader {
    /// The address family.
    pub family: AddressFamily,
    /// The length of the prefix, in bits.
    pub prefix_len: u8,
    /// The flags of the address.
    pub flags: u8,
    /// The scope of the address.
    pub scope: u8,
    /// The index of the interface that has the address.
    pub index: u32,
}

impl AddressHeader {
    /// The header with every field zero and no address family.
    pub open spec fn spec_default() -> AddressHeader {
        AddressHeader { family: AddressFamily::Unspec, prefix_len: 0, flags: 0, scope: 0, index: 0 }
    }

    /// The header that the first eight of `bytes` hold.
    pub open spec fn spec_parse(bytes: Seq<u8>) -> AddressHeader
        recommends
            bytes.len() >= ADDRESS_HEADER_LEN,
    {
        AddressHeader {
            family: AddressFamily::of_code(bytes[0]),
            prefix_len: bytes[1],
            flags: bytes[2],
            scope: bytes[3],
            index: host_u32(bytes.subrange(4, 8)),
        }
    }

    /// The eight bytes of the header.
    pub open spec fn bytes(self) -> Seq<u8> {
        seq![self.family.code(), self.prefix_len, self.flags, self.scope] + host_u32_bytes(
            self.index,
        )
    }

    /// The header takes eight bytes.
    pub proof fn lemma_bytes_len(self)
        ensures
            self.bytes().len() == ADDRESS_HEADER_LEN,
    {
        lemma_host_u32_of_bytes(self.index);
    }

    /// Reading back the bytes of a header gives the header, whatever
    /// follows them, if reading back the byte of its family gives the
    /// family.
    pub proof fn lemma_parse_of_bytes(self, tail: Seq<u8>)
        requires
            self.family.is_canonical(),
        ensures
            self.bytes().len() == ADDRESS_HEADER_LEN,
            Self::spec_parse(self.bytes() + tail) == self,
    {
        let bytes = self.bytes() + tail;
        lemma_host_u32_of_bytes(self.index);
        assert(bytes.subrange(4, 8) =~= host_u32_bytes(self.index));
        assert(bytes[0] == self.family.code());
        assert(bytes[1] == self.prefix_len);
        assert(bytes[2] == self.flags);
        assert(bytes[3] == self.scope);
    }

    /// Writing back the header at the front of `bytes` gives the first
    /// eight of them.
    pub proof fn lemma_bytes_of_parse(bytes: Seq<u8>)
        requires
            bytes.len() >= ADDRESS_HEADER_LEN,
        ensures
            Self::spec_parse(bytes).bytes() == bytes.take(ADDRESS_HEADER_LEN as int),
    {
        lemma_host_u32_bytes_of_value(bytes.subrange(4, 8));
        AddressFamily::lemma_code_is_preserved(bytes[0]);
        assert(Self::spec_parse(bytes).bytes() =~= bytes.take(ADDRESS_HEADER_LEN as int));
    }

    /// Reads the header under `buf`.
    pub fn parse(buf: &AddressMessageBuffer<'_>) -> (header: AddressHeader)
        ensures
            buf@.len() >= ADDRESS_HEADER_LEN,
            header == Self::spec_parse(buf@),
    {
        AddressHeader {
            family: AddressFamily::from_code(buf.family()),
            prefix_len: buf.prefix_len(),
            flags: buf.flags(),
            scope: buf.scope(),
            index: buf.index(),
        }
    }

    /// The bytes that the header takes.
    pub fn buffer_len(&self) -> (len: usize)
        ensures
            len == ADDRESS_HEADER_LEN,
    {
        ADDRESS_HEADER_LEN
    }

    /// Writes the header over the first eight bytes of `buffer`. Every
    /// other byte stays as it was.
    pub fn emit(&self, buffer: &mut [u8])
        requires
            old(buffer).len() >= ADDRESS_HEADER_LEN,
        ensures
            final(buffer)@ == overwrite(old(buffer)@, 0, self.bytes()),
    {
        proof {
            lemma_host_u32_of_bytes(self.index);
        }
        buffer[0] = self.family.to_code();
        buffer[1] = self.prefix_len;
        buffer[2] = self.flags;
        buffer[3] = self.scope;
        write_u32(buffer, 4, self.index);
        assert(buffer@ =~= overwrite(old(buffer)@, 0, self.bytes()));
    }
}

impl Default for AddressHeader {
    fn default() -> (header: AddressHeader)
        ensures
            header == AddressHeader::spec_default(),
    {
        AddressHeader { family: AddressFamily::Unspec, prefix_len: 0, flags: 0, scope: 0, index: 0 }
    }
}

} // verus!
