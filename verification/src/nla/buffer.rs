//! Views of the bytes of attributes.

use crate::byte_order::read_u16;
use crate::error::DecodeError;
use crate::nla::{
    after_first_nla, align, check_nla, declared_kind, declared_length, first_nla, NLA_F_NESTED,
    NLA_F_NET_BYTEORDER, NLA_HEADER_SIZE, NLA_TYPE_MASK,
};
use vstd::prelude::*;

verus! {

/// A view of the bytes that start with an attribute. One exists only over
/// bytes that passed [`check_nla`], so its accessors stay within the bytes.
pub struct NlaBuffer<'a> {
    buffer: &'a [u8],
}

impl<'a> View for NlaBuffer<'a> {
    type V = Seq<u8>;

    closed spec fn view(&self) -> Seq<u8> {
        self.buffer@
    }
}

impl<'a> NlaBuffer<'a> {
    #[verifier::type_invariant]
    spec fn checked(self) -> bool {
        check_nla(self.buffer@) is Ok
    }

    /// Looks at the attribute that starts `buffer`, or says why none does.
    pub fn new_checked(buffer: &'a [u8]) -> (r: Result<NlaBuffer<'a>, DecodeError>)
        ensures
            match r {
                Ok(buf) => check_nla(buffer@) is Ok && buf@ == buffer@,
                Err(e) => check_nla(buffer@) == Err::<(), DecodeError>(e),
            },
    {
        let len = buffer.len();
        if len < NLA_HEADER_SIZE {
            return Err(DecodeError::TruncatedAttributeHeader);
        }
        let length = read_u16(buffer, 0) as usize;
        if len < length {
            Err(DecodeError::TruncatedAttribute)
        } else if length < NLA_HEADER_SIZE {
            Err(DecodeError::InvalidAttributeLength)
        } else {
            Ok(NlaBuffer { buffer })
        }
    }

    /// The bytes under the view.
    pub fn into_inner(self) -> (buffer: &'a [u8])
        ensures
            buffer@ == self@,
            check_nla(self@) is Ok,
    {
        proof {
            use_type_invariant(&self);
        }
        self.buffer
    }

    /// The bytes under the view.
    pub fn inner(&self) -> (buffer: &'a [u8])
        ensures
            buffer@ == self@,
            check_nla(self@) is Ok,
    {
        proof {
            use_type_invariant(self);
        }
        self.buffer
    }

    /// The kind without its two flags.
    pub fn kind(&self) -> (kind: u16)
        ensures
            kind == declared_kind(self@) & NLA_TYPE_MASK,
    {
        proof {
            use_type_invariant(self);
        }
        read_u16(self.buffer, 2) & NLA_TYPE_MASK
    }

    /// Whether the value holds attributes of its own.
    pub fn nested_flag(&self) -> (flag: bool)
        ensures
            flag == (declared_kind(self@) & NLA_F_NESTED != 0),
    {
        proof {
            use_type_invariant(self);
        }
        (read_u16(self.buffer, 2) & NLA_F_NESTED) != 0
    }

    /// Whether the value is in network byte order.
    pub fn network_byte_order_flag(&self) -> (flag: bool)
        ensures
            flag == (declared_kind(self@) & NLA_F_NET_BYTEORDER != 0),
    {
        proof {
            use_type_invariant(self);
        }
        (read_u16(self.buffer, 2) & NLA_F_NET_BYTEORDER) != 0
    }

    /// The length of header and value together, without the padding.
    pub fn length(&self) -> (length: u16)
        ensures
            length == declared_length(self@),
            4 <= length <= self@.len(),
    {
        proof {
            use_type_invariant(self);
        }
        read_u16(self.buffer, 0)
    }

    /// The length of the value.
    pub fn value_length(&self) -> (length: usize)
        ensures
            length == declared_length(self@) - 4,
            length == first_nla(self@).value.len(),
    {
        self.length() as usize - NLA_HEADER_SIZE
    }

    /// The value.
    pub fn value(&self) -> (value: &'a [u8])
        ensures
            value@ == first_nla(self@).value,
    {
        let end = self.length() as usize;
        &self.buffer[NLA_HEADER_SIZE..end]
    }
}

/// Walks over the attributes in a buffer without decoding their values.
///
/// Its view is the part of the buffer that it has not walked over yet.
pub struct NlasIterator<'a> {
    position: usize,
    buffer: &'a [u8],
}

impl<'a> View for NlasIterator<'a> {
    type V = Seq<u8>;

    closed spec fn view(&self) -> Seq<u8> {
        self.buffer@.skip(self.position as int)
    }
}

impl<'a> NlasIterator<'a> {
    #[verifier::type_invariant]
    spec fn in_bounds(self) -> bool {
        self.position <= self.buffer@.len()
    }

    /// Starts at the front of `buffer`.
    pub fn new(buffer: &'a [u8]) -> (iter: NlasIterator<'a>)
        ensures
            iter@ == buffer@,
    {
        assert(buffer@.skip(0) =~= buffer@);
        NlasIterator { position: 0, buffer }
    }

    /// Steps over the next attribute and hands out a view of it. When the
    /// bytes that are left do not start with an attribute, it says why and
    /// gives up the rest; when none are left, it returns `None`.
    pub fn next(&mut self) -> (r: Option<Result<NlaBuffer<'a>, DecodeError>>)
        ensures
            match r {
                None => old(self)@.len() == 0 && final(self)@ == old(self)@,
                Some(Ok(buf)) => {
                    &&& old(self)@.len() > 0
                    &&& check_nla(old(self)@) is Ok
                    &&& buf@ == old(self)@
                    &&& final(self)@ == after_first_nla(old(self)@)
                },
                Some(Err(e)) => {
                    &&& old(self)@.len() > 0
                    &&& check_nla(old(self)@) == Err::<(), DecodeError>(e)
                    &&& final(self)@.len() == 0
                },
            },
    {
        proof {
            use_type_invariant(&*self);
        }
        let len = self.buffer.len();
        if self.position >= len {
            return None;
        }
        let rest = &self.buffer[self.position..len];
        assert(rest@ =~= self@);
        match NlaBuffer::new_checked(rest) {
            Ok(nla_buffer) => {
                let step = align(nla_buffer.length() as usize);
                if step >= len - self.position {
                    self.position = len;
                    assert(self@ =~= after_first_nla(old(self)@));
                } else {
                    self.position += step;
                    assert(self@ =~= after_first_nla(old(self)@));
                }
                Some(Ok(nla_buffer))
            },
            Err(e) => {
                self.position = len;
                Some(Err(e))
            },
        }
    }
}

} // verus!
