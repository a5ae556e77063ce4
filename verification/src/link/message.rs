//! A whole link message: header and attributes.

use crate::byte_order::overwrite;
use crate::error::{decoded, DecodeError};
use crate::link::attribute::LinkAttribute;
use crate::link::header::{LinkHeader, LinkMessageBuffer, LINK_HEADER_LEN};
use crate::nla::{
    all_fit, checked_nlas_buffer_len, emit_nlas_at, is_nla_row, lemma_nlas_bytes_len,
    lemma_nlas_bytes_of_parse, lemma_parse_nlas_of_bytes, nla_views, nlas_buffer_len, nlas_bytes,
    nlas_fit, parse_nlas, spec_nlas_buffer_len, spec_parse_nlas, NlaView,
};
use vstd::prelude::*;

verus! {

/// A link message: what is known of one network interface.
#[derive(Debug, PartialEq, Eq)]
#[non_exhaustive]
pub struct LinkMessage {
    pub header: LinkHeader,
    pub attributes: Vec<LinkAttribute>,
}

/// A link message as the wire shows it.
pub struct LinkMessageView {
    pub header: LinkHeader,
    pub attributes: Seq<NlaView>,
}

impl View for LinkMessage {
    type V = LinkMessageView;

    open spec fn view(&self) -> LinkMessageView {
        LinkMessageView { header: self.header, attributes: nla_views(self.attributes@) }
    }
}

impl LinkMessageView {
    /// The message with the default header and no attribute.
    pub open spec fn spec_default() -> LinkMessageView {
        LinkMessageView { header: LinkHeader::spec_default(), attributes: Seq::empty() }
    }

    /// Whether the message can be written: the length field of each
    /// attribute can frame its value.
    pub open spec fn fits(self) -> bool {
        all_fit(self.attributes)
    }

    /// The bytes that the message takes.
    pub open spec fn buffer_len(self) -> nat {
        LINK_HEADER_LEN as nat + spec_nlas_buffer_len(self.attributes)
    }

    /// The message on the wire: the header, then the attributes. `unused`
    /// is the byte of the header that holds no field.
    pub open spec fn bytes(self, unused: u8) -> Seq<u8> {
        self.header.bytes(unused) + nlas_bytes(self.attributes)
    }

    /// The message that `bytes` hold, or the reason why they hold none.
    pub open spec fn parse(bytes: Seq<u8>) -> Result<LinkMessageView, DecodeError> {
        if bytes.len() < LINK_HEADER_LEN {
            Err(DecodeError::TruncatedHeader)
        } else {
            match spec_parse_nlas(bytes.skip(LINK_HEADER_LEN as int)) {
                Err(e) => Err(e),
                Ok(attributes) => Ok(
                    LinkMessageView { header: LinkHeader::spec_parse(bytes), attributes },
                ),
            }
        }
    }

    /// Decoding the bytes of a message gives the message again, if each of
    /// its attributes fits its length field and reading back the byte of
    /// its address family gives the family.
    pub proof fn lemma_parse_of_bytes(self, unused: u8)
        requires
            self.fits(),
            self.header.interface_family.is_canonical(),
        ensures
            self.bytes(unused).len() == self.buffer_len(),
            Self::parse(self.bytes(unused)) == Ok::<LinkMessageView, DecodeError>(self),
    {
        let bytes = self.bytes(unused);
        self.header.lemma_parse_of_bytes(unused, nlas_bytes(self.attributes));
        lemma_nlas_bytes_len(self.attributes);
        lemma_parse_nlas_of_bytes(self.attributes);
        assert(bytes.skip(LINK_HEADER_LEN as int) =~= nlas_bytes(self.attributes));
    }

    /// A message that was decoded from sixteen bytes of header and a row
    /// of attributes laid out as [`nlas_bytes`] lays them out is written
    /// back as the same bytes, the unused byte kept.
    pub proof fn lemma_bytes_of_parse(bytes: Seq<u8>)
        requires
            bytes.len() >= LINK_HEADER_LEN,
            is_nla_row(bytes.skip(LINK_HEADER_LEN as int)),
        ensures
            Self::parse(bytes) is Ok,
            Self::parse(bytes)->Ok_0.fits(),
            Self::parse(bytes)->Ok_0.bytes(bytes[1]) == bytes,
    {
        let tail = bytes.skip(LINK_HEADER_LEN as int);
        lemma_nlas_bytes_of_parse(tail);
        LinkHeader::lemma_bytes_of_parse(bytes);
        assert(bytes.take(LINK_HEADER_LEN as int) + tail =~= bytes);
    }
}

impl LinkMessage {
    /// Decodes the message under `buf`.
    pub fn parse(buf: &LinkMessageBuffer<'_>) -> (r: Result<LinkMessage, DecodeError>)
        ensures
            decoded(r) == LinkMessageView::parse(buf@),
    {
        let header = LinkHeader::parse(buf);
        match parse_nlas::<LinkAttribute>(buf.payload()) {
            Err(e) => Err(e),
            Ok(attributes) => Ok(LinkMessage { header, attributes }),
        }
    }

    /// Whether the message can be written: the length field of each
    /// attribute can frame its value.
    pub fn fits(&self) -> (fits: bool)
        ensures
            fits == self@.fits(),
    {
        nlas_fit(self.attributes.as_slice())
    }

    /// The bytes that the message takes, unless they are more than a
    /// `usize` can count.
    pub fn checked_buffer_len(&self) -> (len: Option<usize>)
        ensures
            match len {
                Some(n) => n == self@.buffer_len(),
                None => self@.buffer_len() > usize::MAX,
            },
    {
        match checked_nlas_buffer_len(self.attributes.as_slice()) {
            None => None,
            Some(n) => if n > usize::MAX - self.header.buffer_len() {
                None
            } else {
                Some(self.header.buffer_len() + n)
            },
        }
    }

    /// The bytes that the message takes.
    pub fn buffer_len(&self) -> (len: usize)
        requires
            self@.buffer_len() <= usize::MAX,
        ensures
            len == self@.buffer_len(),
    {
        self.header.buffer_len() + nlas_buffer_len(self.attributes.as_slice())
    }

    /// Writes the message at the start of `buffer`. The second byte, which
    /// holds no field, and what lies behind the message stay as they were.
    pub fn emit(&self, buffer: &mut [u8])
        requires
            self@.fits(),
            self@.buffer_len() <= old(buffer).len(),
        ensures
            final(buffer)@ == overwrite(old(buffer)@, 0, self@.bytes(old(buffer)@[1])),
    {
        proof {
            lemma_nlas_bytes_len(self@.attributes);
            self.header.lemma_bytes_len(old(buffer)@[1]);
        }
        self.header.emit(buffer);
        emit_nlas_at(self.attributes.as_slice(), buffer, self.header.buffer_len());
        assert(buffer@ =~= overwrite(old(buffer)@, 0, self@.bytes(old(buffer)@[1])));
    }

    /// Writes the message at the start of `buffer` and tells how many bytes
    /// it took, where the message can be written and the buffer holds it.
    /// Else the buffer stays as it was.
    pub fn checked_emit(&self, buffer: &mut [u8]) -> (written: Option<usize>)
        ensures
            match written {
                Some(len) => {
                    &&& self@.fits()
                    &&& len == self@.buffer_len()
                    &&& len <= old(buffer).len()
                    &&& final(buffer)@ == overwrite(old(buffer)@, 0, self@.bytes(old(buffer)@[1]))
                },
                None => {
                    &&& !self@.fits() || self@.buffer_len() > old(buffer).len()
                    &&& final(buffer)@ == old(buffer)@
                },
            },
    {
        if !self.fits() {
            return None;
        }
        match self.checked_buffer_len() {
            None => None,
            Some(len) => {
                if len > buffer.len() {
                    None
                } else {
                    self.emit(buffer);
                    Some(len)
                }
            },
        }
    }
}

impl Clone for LinkMessage {
    fn clone(&self) -> (copy: LinkMessage)
        ensures
            copy@ == self@,
    {
        let mut attributes: Vec<LinkAttribute> = Vec::new();
        let mut i: usize = 0;
        while i < self.attributes.len()
            invariant
                i <= self.attributes.len(),
                attributes@.len() == i,
                forall|j: int| 0 <= j < i ==> (#[trigger] attributes@[j])@ == self.attributes@[j]@,
            decreases self.attributes.len() - i,
        {
            attributes.push(self.attributes[i].clone());
            i += 1;
        }
        let copy = LinkMessage { header: self.header, attributes };
        assert(copy@.attributes =~= self@.attributes);
        copy
    }
}

impl Default for LinkMessage {
    fn default() -> (message: LinkMessage)
        ensures
            message@ == LinkMessageView::spec_default(),
    {
        let message = LinkMessage { header: LinkHeader::default(), attributes: Vec::new() };
        assert(message@.attributes =~= Seq::<NlaView>::empty());
        message
    }
}

} // verus!
