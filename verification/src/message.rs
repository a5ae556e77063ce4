//! The messages of the route protocol, told apart by their type code.
//!
//! A message is the type code that the netlink header carries and a payload.
//! The type code chooses the kind of object and the operation; the payload
//! holds the object.

use crate::address::{
    AddressHeader, AddressMessage, AddressMessageBuffer, AddressMessageView, ADDRESS_HEADER_LEN,
};
use crate::address_family_linux::AddressFamily;
use crate::byte_order::overwrite;
use crate::error::{decoded, DecodeError};
use crate::link::{LinkHeader, LinkMessage, LinkMessageBuffer, LinkMessageView, LINK_HEADER_LEN};
use crate::nla::is_nla_row;
use vstd::prelude::*;

verus! {

pub const RTM_NEWLINK: u16 = 16;
pub const RTM_DELLINK: u16 = 17;
pub const RTM_GETLINK: u16 = 18;
pub const RTM_SETLINK: u16 = 19;
pub const RTM_NEWADDR: u16 = 20;
pub const RTM_DELADDR: u16 = 21;
pub const RTM_GETADDR: u16 = 22;
pub const RTM_NEWROUTE: u16 = 24;
pub const RTM_DELROUTE: u16 = 25;
pub const RTM_GETROUTE: u16 = 26;
pub const RTM_NEWNEIGH: u16 = 28;
pub const RTM_DELNEIGH: u16 = 29;
pub const RTM_GETNEIGH: u16 = 30;
pub const RTM_NEWRULE: u16 = 32;
pub const RTM_DELRULE: u16 = 33;
pub const RTM_GETRULE: u16 = 34;
pub const RTM_NEWQDISC: u16 = 36;
pub const RTM_DELQDISC: u16 = 37;
pub const RTM_GETQDISC: u16 = 38;
pub const RTM_NEWTCLASS: u16 = 40;
pub const RTM_DELTCLASS: u16 = 41;
pub const RTM_GETTCLASS: u16 = 42;
pub const RTM_NEWTFILTER: u16 = 44;
pub const RTM_DELTFILTER: u16 = 45;
pub const RTM_GETTFILTER: u16 = 46;
pub const RTM_NEWPREFIX: u16 = 52;
pub const RTM_NEWNEIGHTBL: u16 = 64;
pub const RTM_GETNEIGHTBL: u16 = 66;
pub const RTM_SETNEIGHTBL: u16 = 67;
pub const RTM_NEWNSID: u16 = 88;
pub const RTM_DELNSID: u16 = 89;
pub const RTM_GETNSID: u16 = 90;
pub const RTM_NEWCHAIN: u16 = 100;
pub const RTM_DELCHAIN: u16 = 101;
pub const RTM_GETCHAIN: u16 = 102;
pub const RTM_NEWLINKPROP: u16 = 108;
pub const RTM_DELLINKPROP: u16 = 109;

/// A view of the payload of a route message. It sets no field apart: the
/// type code decides what the bytes hold.
pub struct RouteNetlinkMessageBuffer<'a> {
    buffer: &'a [u8],
}

impl<'a> View for RouteNetlinkMessageBuffer<'a> {
    type V = Seq<u8>;

    closed spec fn view(&self) -> Seq<u8> {
        self.buffer@
    }
}

impl<'a> RouteNetlinkMessageBuffer<'a> {
    /// Looks at `buffer` as the payload of a route message.
    pub fn new(buffer: &'a [u8]) -> (buf: RouteNetlinkMessageBuffer<'a>)
        ensures
            buf@ == buffer@,
    {
        RouteNetlinkMessageBuffer { buffer }
    }

    /// The bytes under the view.
    pub fn into_inner(self) -> (buffer: &'a [u8])
        ensures
            buffer@ == self@,
    {
        self.buffer
    }

    /// The bytes under the view.
    pub fn inner(&self) -> (buffer: &'a [u8])
        ensures
            buffer@ == self@,
    {
        self.buffer
    }
}

/// A message of the route protocol: an operation on a link or on an
/// address. More variants may come.
#[derive(Debug, PartialEq, Eq)]
#[non_exhaustive]
pub enum RouteNetlinkMessage {
    NewLink(LinkMessage),
    DelLink(LinkMessage),
    GetLink(LinkMessage),
    SetLink(LinkMessage),
    NewLinkProp(LinkMessage),
    DelLinkProp(LinkMessage),
    NewAddress(AddressMessage),
    DelAddress(AddressMessage),
    GetAddress(AddressMessage),
}

/// A message of the route protocol as the wire shows it.
pub enum RouteNetlinkMessageView {
    NewLink(LinkMessageView),
    DelLink(LinkMessageView),
    GetLink(LinkMessageView),
    SetLink(LinkMessageView),
    NewLinkProp(LinkMessageView),
    DelLinkProp(LinkMessageView),
    NewAddress(AddressMessageView),
    DelAddress(AddressMessageView),
    GetAddress(AddressMessageView),
}

impl Clone for RouteNetlinkMessage {
    fn clone(&self) -> (copy: RouteNetlinkMessage)
        ensures
            copy@ == self@,
    {
        match self {
            RouteNetlinkMessage::NewLink(msg) => RouteNetlinkMessage::NewLink(msg.clone()),
            RouteNetlinkMessage::DelLink(msg) => RouteNetlinkMessage::DelLink(msg.clone()),
            RouteNetlinkMessage::GetLink(msg) => RouteNetlinkMessage::GetLink(msg.clone()),
            RouteNetlinkMessage::SetLink(msg) => RouteNetlinkMessage::SetLink(msg.clone()),
            RouteNetlinkMessage::NewLinkProp(msg) => RouteNetlinkMessage::NewLinkProp(msg.clone()),
            RouteNetlinkMessage::DelLinkProp(msg) => RouteNetlinkMessage::DelLinkProp(msg.clone()),
            RouteNetlinkMessage::NewAddress(msg) => RouteNetlinkMessage::NewAddress(msg.clone()),
            RouteNetlinkMessage::DelAddress(msg) => RouteNetlinkMessage::DelAddress(msg.clone()),
            RouteNetlinkMessage::GetAddress(msg) => RouteNetlinkMessage::GetAddress(msg.clone()),
        }
    }
}

impl View for RouteNetlinkMessage {
    type V = RouteNetlinkMessageView;

    open spec fn view(&self) -> RouteNetlinkMessageView {
        match self {
            RouteNetlinkMessage::NewLink(msg) => RouteNetlinkMessageView::NewLink(msg@),
            RouteNetlinkMessage::DelLink(msg) => RouteNetlinkMessageView::DelLink(msg@),
            RouteNetlinkMessage::GetLink(msg) => RouteNetlinkMessageView::GetLink(msg@),
            RouteNetlinkMessage::SetLink(msg) => RouteNetlinkMessageView::SetLink(msg@),
            RouteNetlinkMessage::NewLinkProp(msg) => RouteNetlinkMessageView::NewLinkProp(msg@),
            RouteNetlinkMessage::DelLinkProp(msg) => RouteNetlinkMessageView::DelLinkProp(msg@),
            RouteNetlinkMessage::NewAddress(msg) => RouteNetlinkMessageView::NewAddress(msg@),
            RouteNetlinkMessage::DelAddress(msg) => RouteNetlinkMessageView::DelAddress(msg@),
            RouteNetlinkMessage::GetAddress(msg) => RouteNetlinkMessageView::GetAddress(msg@),
        }
    }
}

/// Whether a type code stands for an operation on a link or on the
/// properties of a link.
pub open spec fn is_link_type(message_type: u16) -> bool {
    16 <= message_type <= 19 || message_type == 108 || message_type == 109
}

/// Whether a type code stands for an operation on an address.
pub open spec fn is_address_type(message_type: u16) -> bool {
    20 <= message_type <= 22
}

/// The bytes that the header takes in a message of the given type.
pub open spec fn header_len(message_type: u16) -> nat
    recommends
        is_link_type(message_type) || is_address_type(message_type),
{
    if is_link_type(message_type) {
        LINK_HEADER_LEN as nat
    } else {
        ADDRESS_HEADER_LEN as nat
    }
}

/// The link message that a request for links holds when it is cut down to
/// the address family and three bytes of padding, as a widely used tool
/// sends it.
pub open spec fn short_link_request(family: u8) -> LinkMessageView {
    LinkMessageView {
        header: LinkHeader {
            interface_family: AddressFamily::of_code(family),
            index: 0,
            link_layer_type: 0,
            flags: 0,
            change_mask: 0,
        },
        attributes: Seq::empty(),
    }
}

/// The address message that a request for addresses holds when it is cut
/// down to the address family and three bytes of padding.
pub open spec fn short_address_request(family: u8) -> AddressMessageView {
    AddressMessageView {
        header: AddressHeader {
            family: AddressFamily::of_code(family),
            prefix_len: 0,
            flags: 0,
            scope: 0,
            index: 0,
        },
        attributes: Seq::empty(),
    }
}

/// The link message in the payload of a message of the given type. Four
/// bytes are taken for a short request where the type asks for links, and
/// for nothing else.
pub open spec fn parse_link_payload(message_type: u16, payload: Seq<u8>) -> Result<
    LinkMessageView,
    DecodeError,
> {
    if payload.len() == 4 && message_type == 18 {
        Ok(short_link_request(payload[0]))
    } else {
        LinkMessageView::parse(payload)
    }
}

/// The address message in the payload of a message of the given type. Four
/// bytes are taken for a short request where the type asks for addresses,
/// and for nothing else.
pub open spec fn parse_address_payload(message_type: u16, payload: Seq<u8>) -> Result<
    AddressMessageView,
    DecodeError,
> {
    if payload.len() == 4 && message_type == 22 {
        Ok(short_address_request(payload[0]))
    } else {
        AddressMessageView::parse(payload)
    }
}

impl RouteNetlinkMessageView {
    /// The type code of the message.
    pub open spec fn message_type(self) -> u16 {
        match self {
            RouteNetlinkMessageView::NewLink(_) => 16,
            RouteNetlinkMessageView::DelLink(_) => 17,
            RouteNetlinkMessageView::GetLink(_) => 18,
            RouteNetlinkMessageView::SetLink(_) => 19,
            RouteNetlinkMessageView::NewLinkProp(_) => 108,
            RouteNetlinkMessageView::DelLinkProp(_) => 109,
            RouteNetlinkMessageView::NewAddress(_) => 20,
            RouteNetlinkMessageView::DelAddress(_) => 21,
            RouteNetlinkMessageView::GetAddress(_) => 22,
        }
    }

    /// The message of the given type around a link message.
    pub open spec fn of_link(message_type: u16, msg: LinkMessageView) -> RouteNetlinkMessageView
        recommends
            is_link_type(message_type),
    {
        if message_type == 16 {
            RouteNetlinkMessageView::NewLink(msg)
        } else if message_type == 17 {
            RouteNetlinkMessageView::DelLink(msg)
        } else if message_type == 18 {
            RouteNetlinkMessageView::GetLink(msg)
        } else if message_type == 19 {
            RouteNetlinkMessageView::SetLink(msg)
        } else if message_type == 108 {
            RouteNetlinkMessageView::NewLinkProp(msg)
        } else {
            RouteNetlinkMessageView::DelLinkProp(msg)
        }
    }

    /// The message of the given type around an address message.
    pub open spec fn of_address(
        message_type: u16,
        msg: AddressMessageView,
    ) -> RouteNetlinkMessageView
        recommends
            is_address_type(message_type),
    {
        if message_type == 20 {
            RouteNetlinkMessageView::NewAddress(msg)
        } else if message_type == 21 {
            RouteNetlinkMessageView::DelAddress(msg)
        } else {
            RouteNetlinkMessageView::GetAddress(msg)
        }
    }

    /// The message that a type code and a payload stand for, or the reason
    /// why they stand for none: `InvalidInput` for a type code that is
    /// neither of a link nor of an address, and else what the payload
    /// lacks.
    pub open spec fn parse(message_type: u16, payload: Seq<u8>) -> Result<
        RouteNetlinkMessageView,
        DecodeError,
    > {
        if is_link_type(message_type) {
            match parse_link_payload(message_type, payload) {
                Ok(msg) => Ok(Self::of_link(message_type, msg)),
                Err(e) => Err(e),
            }
        } else if is_address_type(message_type) {
            match parse_address_payload(message_type, payload) {
                Ok(msg) => Ok(Self::of_address(message_type, msg)),
                Err(e) => Err(e),
            }
        } else {
            Err(DecodeError::InvalidInput)
        }
    }

    /// Whether the message can be written: the length field of each
    /// attribute can frame its value.
    pub open spec fn fits(self) -> bool {
        match self {
            RouteNetlinkMessageView::NewLink(msg)
            | RouteNetlinkMessageView::DelLink(msg)
            | RouteNetlinkMessageView::GetLink(msg)
            | RouteNetlinkMessageView::SetLink(msg)
            | RouteNetlinkMessageView::NewLinkProp(msg)
            | RouteNetlinkMessageView::DelLinkProp(msg) => msg.fits(),
            RouteNetlinkMessageView::NewAddress(msg)
            | RouteNetlinkMessageView::DelAddress(msg)
            | RouteNetlinkMessageView::GetAddress(msg) => msg.fits(),
        }
    }

    /// The bytes that the payload of the message takes.
    pub open spec fn buffer_len(self) -> nat {
        match self {
            RouteNetlinkMessageView::NewLink(msg)
            | RouteNetlinkMessageView::DelLink(msg)
            | RouteNetlinkMessageView::GetLink(msg)
            | RouteNetlinkMessageView::SetLink(msg)
            | RouteNetlinkMessageView::NewLinkProp(msg)
            | RouteNetlinkMessageView::DelLinkProp(msg) => msg.buffer_len(),
            RouteNetlinkMessageView::NewAddress(msg)
            | RouteNetlinkMessageView::DelAddress(msg)
            | RouteNetlinkMessageView::GetAddress(msg) => msg.buffer_len(),
        }
    }

    /// The payload of the message. `unused` is the byte of the header of a
    /// link that holds no field.
    pub open spec fn bytes(self, unused: u8) -> Seq<u8> {
        match self {
            RouteNetlinkMessageView::NewLink(msg)
            | RouteNetlinkMessageView::DelLink(msg)
            | RouteNetlinkMessageView::GetLink(msg)
            | RouteNetlinkMessageView::SetLink(msg)
            | RouteNetlinkMessageView::NewLinkProp(msg)
            | RouteNetlinkMessageView::DelLinkProp(msg) => msg.bytes(unused),
            RouteNetlinkMessageView::NewAddress(msg)
            | RouteNetlinkMessageView::DelAddress(msg)
            | RouteNetlinkMessageView::GetAddress(msg) => msg.bytes(),
        }
    }

    /// The address family in the header of the message.
    pub open spec fn family(self) -> AddressFamily {
        match self {
            RouteNetlinkMessageView::NewLink(msg)
            | RouteNetlinkMessageView::DelLink(msg)
            | RouteNetlinkMessageView::GetLink(msg)
            | RouteNetlinkMessageView::SetLink(msg)
            | RouteNetlinkMessageView::NewLinkProp(msg)
            | RouteNetlinkMessageView::DelLinkProp(msg) => msg.header.interface_family,
            RouteNetlinkMessageView::NewAddress(msg)
            | RouteNetlinkMessageView::DelAddress(msg)
            | RouteNetlinkMessageView::GetAddress(msg) => msg.header.family,
        }
    }

    /// A message that was decoded has the type code that it was decoded
    /// under.
    pub proof fn lemma_decoded_type(message_type: u16, payload: Seq<u8>)
        ensures
            Self::parse(message_type, payload) matches Ok(msg) ==> msg.message_type()
                == message_type,
    {
    }

    /// Decoding the payload of a message under the type code of the message
    /// gives the message again, if each attribute fits its length field and
    /// reading back the byte of its address family gives the family.
    pub proof fn lemma_parse_of_bytes(self, unused: u8)
        requires
            self.fits(),
            self.family().is_canonical(),
        ensures
            self.bytes(unused).len() == self.buffer_len(),
            Self::parse(self.message_type(), self.bytes(unused)) == Ok::<
                RouteNetlinkMessageView,
                DecodeError,
            >(self),
    {
        match self {
            RouteNetlinkMessageView::NewLink(msg)
            | RouteNetlinkMessageView::DelLink(msg)
            | RouteNetlinkMessageView::GetLink(msg)
            | RouteNetlinkMessageView::SetLink(msg)
            | RouteNetlinkMessageView::NewLinkProp(msg)
            | RouteNetlinkMessageView::DelLinkProp(msg) => {
                msg.lemma_parse_of_bytes(unused);
            },
            RouteNetlinkMessageView::NewAddress(msg)
            | RouteNetlinkMessageView::DelAddress(msg)
            | RouteNetlinkMessageView::GetAddress(msg) => {
                msg.lemma_parse_of_bytes();
            },
        }
    }

    /// A message that was decoded from a header and a row of attributes
    /// laid out as [`crate::nla::nlas_bytes`] lays them out is written back as the same
    /// bytes, whatever the kinds of the attributes.
    pub proof fn lemma_bytes_of_parse(message_type: u16, payload: Seq<u8>)
        requires
            is_link_type(message_type) || is_address_type(message_type),
            payload.len() >= header_len(message_type),
            is_nla_row(payload.skip(header_len(message_type) as int)),
        ensures
            Self::parse(message_type, payload) is Ok,
            Self::parse(message_type, payload)->Ok_0.fits(),
            Self::parse(message_type, payload)->Ok_0.bytes(payload[1]) == payload,
    {
        if is_link_type(message_type) {
            LinkMessageView::lemma_bytes_of_parse(payload);
        } else {
            AddressMessageView::lemma_bytes_of_parse(payload);
        }
    }

    /// A request for links that is cut down to four bytes is decoded as a
    /// link message that holds nothing but the address family of the first
    /// byte. Under the other type codes of links four bytes are too short.
    pub proof fn lemma_short_link_request(message_type: u16, payload: Seq<u8>)
        requires
            is_link_type(message_type),
            payload.len() == 4,
        ensures
            message_type == 18 ==> Self::parse(message_type, payload) == Ok::<
                RouteNetlinkMessageView,
                DecodeError,
            >(RouteNetlinkMessageView::GetLink(short_link_request(payload[0]))),
            message_type != 18 ==> Self::parse(message_type, payload) == Err::<
                RouteNetlinkMessageView,
                DecodeError,
            >(DecodeError::TruncatedHeader),
    {
    }

    /// A request for addresses that is cut down to four bytes is decoded as
    /// an address message that holds nothing but the address family of the
    /// first byte. Under the other type codes of addresses four bytes are
    /// too short.
    pub proof fn lemma_short_address_request(message_type: u16, payload: Seq<u8>)
        requires
            is_address_type(message_type),
            payload.len() == 4,
        ensures
            message_type == 22 ==> Self::parse(message_type, payload) == Ok::<
                RouteNetlinkMessageView,
                DecodeError,
            >(RouteNetlinkMessageView::GetAddress(short_address_request(payload[0]))),
            message_type != 22 ==> Self::parse(message_type, payload) == Err::<
                RouteNetlinkMessageView,
                DecodeError,
            >(DecodeError::TruncatedHeader),
    {
    }

    /// A type code that is neither of a link nor of an address is refused
    /// as invalid input, whatever the payload holds.
    pub proof fn lemma_unknown_type(message_type: u16, payload: Seq<u8>)
        requires
            !is_link_type(message_type),
            !is_address_type(message_type),
        ensures
            Self::parse(message_type, payload) == Err::<RouteNetlinkMessageView, DecodeError>(
                DecodeError::InvalidInput,
            ),
    {
    }
}

impl RouteNetlinkMessage {
    /// Decodes the payload under `buf` as a message of the given type.
    pub fn parse_with_param(buf: &RouteNetlinkMessageBuffer<'_>, message_type: u16) -> (r: Result<
        RouteNetlinkMessage,
        DecodeError,
    >)
        ensures
            decoded(r) == RouteNetlinkMessageView::parse(message_type, buf@),
            r matches Ok(message) ==> message@.message_type() == message_type,
    {
        let message = if message_type == RTM_NEWLINK || message_type == RTM_GETLINK || message_type
            == RTM_DELLINK || message_type == RTM_SETLINK || message_type == RTM_NEWLINKPROP
            || message_type == RTM_DELLINKPROP {
            let msg = match LinkMessageBuffer::new_checked(buf.inner()) {
                Ok(buf) => match LinkMessage::parse(&buf) {
                    Ok(msg) => msg,
                    Err(e) => {
                        return Err(e);
                    },
                },
                // Some tools ask for the links with a header that is cut
                // down to the address family and three bytes of padding.
                Err(e) => {
                    if buf.inner().len() == 4 && message_type == RTM_GETLINK {
                        let mut msg = LinkMessage::default();
                        msg.header.interface_family = AddressFamily::from(buf.inner()[0]);
                        msg
                    } else {
                        return Err(e);
                    }
                },
            };
            if message_type == RTM_NEWLINK {
                RouteNetlinkMessage::NewLink(msg)
            } else if message_type == RTM_GETLINK {
                RouteNetlinkMessage::GetLink(msg)
            } else if message_type == RTM_DELLINK {
                RouteNetlinkMessage::DelLink(msg)
            } else if message_type == RTM_SETLINK {
                RouteNetlinkMessage::SetLink(msg)
            } else if message_type == RTM_NEWLINKPROP {
                RouteNetlinkMessage::NewLinkProp(msg)
            } else {
                RouteNetlinkMessage::DelLinkProp(msg)
            }
        } else if message_type == RTM_NEWADDR || message_type == RTM_GETADDR || message_type
            == RTM_DELADDR {
            let msg = match AddressMessageBuffer::new_checked(buf.inner()) {
                Ok(buf) => match AddressMessage::parse(&buf) {
                    Ok(msg) => msg,
                    Err(e) => {
                        return Err(e);
                    },
                },
                // The same tools ask for the addresses in the same way.
                Err(e) => {
                    if buf.inner().len() == 4 && message_type == RTM_GETADDR {
                        let mut msg = AddressMessage::default();
                        msg.header.family = AddressFamily::from(buf.inner()[0]);
                        msg
                    } else {
                        return Err(e);
                    }
                },
            };
            if message_type == RTM_NEWADDR {
                RouteNetlinkMessage::NewAddress(msg)
            } else if message_type == RTM_GETADDR {
                RouteNetlinkMessage::GetAddress(msg)
            } else {
                RouteNetlinkMessage::DelAddress(msg)
            }
        } else {
            return Err(DecodeError::InvalidInput);
        };
        Ok(message)
    }

    /// Decodes a payload as a message of the type that its netlink header
    /// gives.
    pub fn deserialize(message_type: u16, payload: &[u8]) -> (r: Result<
        RouteNetlinkMessage,
        DecodeError,
    >)
        ensures
            decoded(r) == RouteNetlinkMessageView::parse(message_type, payload@),
            r matches Ok(message) ==> message@.message_type() == message_type,
    {
        let buf = RouteNetlinkMessageBuffer::new(payload);
        match RouteNetlinkMessage::parse_with_param(&buf, message_type) {
            Err(e) => Err(e),
            Ok(message) => Ok(message),
        }
    }

    /// Whether the message announces or creates a link.
    pub fn is_new_link(&self) -> (is: bool)
        ensures
            is == (self@ is NewLink),
    {
        matches!(self, RouteNetlinkMessage::NewLink(_))
    }

    /// Whether the message removes a link.
    pub fn is_del_link(&self) -> (is: bool)
        ensures
            is == (self@ is DelLink),
    {
        matches!(self, RouteNetlinkMessage::DelLink(_))
    }

    /// Whether the message asks for links.
    pub fn is_get_link(&self) -> (is: bool)
        ensures
            is == (self@ is GetLink),
    {
        matches!(self, RouteNetlinkMessage::GetLink(_))
    }

    /// Whether the message changes a link.
    pub fn is_set_link(&self) -> (is: bool)
        ensures
            is == (self@ is SetLink),
    {
        matches!(self, RouteNetlinkMessage::SetLink(_))
    }

    /// Whether the message adds properties to a link.
    pub fn is_new_link_prop(&self) -> (is: bool)
        ensures
            is == (self@ is NewLinkProp),
    {
        matches!(self, RouteNetlinkMessage::NewLinkProp(_))
    }

    /// Whether the message removes properties from a link.
    pub fn is_del_link_prop(&self) -> (is: bool)
        ensures
            is == (self@ is DelLinkProp),
    {
        matches!(self, RouteNetlinkMessage::DelLinkProp(_))
    }

    /// Whether the message announces or adds an address.
    pub fn is_new_address(&self) -> (is: bool)
        ensures
            is == (self@ is NewAddress),
    {
        matches!(self, RouteNetlinkMessage::NewAddress(_))
    }

    /// Whether the message removes an address.
    pub fn is_del_address(&self) -> (is: bool)
        ensures
            is == (self@ is DelAddress),
    {
        matches!(self, RouteNetlinkMessage::DelAddress(_))
    }

    /// Whether the message asks for addresses.
    pub fn is_get_address(&self) -> (is: bool)
        ensures
            is == (self@ is GetAddress),
    {
        matches!(self, RouteNetlinkMessage::GetAddress(_))
    }

    /// The type code of the message.
    pub fn message_type(&self) -> (message_type: u16)
        ensures
            message_type == self@.message_type(),
    {
        match self {
            RouteNetlinkMessage::NewLink(_) => RTM_NEWLINK,
            RouteNetlinkMessage::DelLink(_) => RTM_DELLINK,
            RouteNetlinkMessage::GetLink(_) => RTM_GETLINK,
            RouteNetlinkMessage::SetLink(_) => RTM_SETLINK,
            RouteNetlinkMessage::NewLinkProp(_) => RTM_NEWLINKPROP,
            RouteNetlinkMessage::DelLinkProp(_) => RTM_DELLINKPROP,
            RouteNetlinkMessage::NewAddress(_) => RTM_NEWADDR,
            RouteNetlinkMessage::DelAddress(_) => RTM_DELADDR,
            RouteNetlinkMessage::GetAddress(_) => RTM_GETADDR,
        }
    }

    /// Whether the message can be written: the length field of each
    /// attribute can frame its value.
    pub fn fits(&self) -> (fits: bool)
        ensures
            fits == self@.fits(),
    {
        match self {
            RouteNetlinkMessage::NewLink(msg)
            | RouteNetlinkMessage::DelLink(msg)
            | RouteNetlinkMessage::GetLink(msg)
            | RouteNetlinkMessage::SetLink(msg)
            | RouteNetlinkMessage::NewLinkProp(msg)
            | RouteNetlinkMessage::DelLinkProp(msg) => msg.fits(),
            RouteNetlinkMessage::NewAddress(msg)
            | RouteNetlinkMessage::DelAddress(msg)
            | RouteNetlinkMessage::GetAddress(msg) => msg.fits(),
        }
    }

    /// The bytes that the payload of the message takes, unless they are
    /// more than a `usize` can count.
    pub fn checked_buffer_len(&self) -> (len: Option<usize>)
        ensures
            match len {
                Some(n) => n == self@.buffer_len(),
                None => self@.buffer_len() > usize::MAX,
            },
    {
        match self {
            RouteNetlinkMessage::NewLink(msg)
            | RouteNetlinkMessage::DelLink(msg)
            | RouteNetlinkMessage::GetLink(msg)
            | RouteNetlinkMessage::SetLink(msg)
            | RouteNetlinkMessage::NewLinkProp(msg)
            | RouteNetlinkMessage::DelLinkProp(msg) => msg.checked_buffer_len(),
            RouteNetlinkMessage::NewAddress(msg)
            | RouteNetlinkMessage::DelAddress(msg)
            | RouteNetlinkMessage::GetAddress(msg) => msg.checked_buffer_len(),
        }
    }

    /// The bytes that the payload of the message takes.
    pub fn buffer_len(&self) -> (len: usize)
        requires
            self@.buffer_len() <= usize::MAX,
        ensures
            len == self@.buffer_len(),
    {
        match self {
            RouteNetlinkMessage::NewLink(msg)
            | RouteNetlinkMessage::DelLink(msg)
            | RouteNetlinkMessage::GetLink(msg)
            | RouteNetlinkMessage::SetLink(msg)
            | RouteNetlinkMessage::NewLinkProp(msg)
            | RouteNetlinkMessage::DelLinkProp(msg) => msg.buffer_len(),
            RouteNetlinkMessage::NewAddress(msg)
            | RouteNetlinkMessage::DelAddress(msg)
            | RouteNetlinkMessage::GetAddress(msg) => msg.buffer_len(),
        }
    }

    /// Writes the payload of the message at the start of `buffer`. What
    /// lies behind the payload stays as it was, and so does the second byte
    /// under a link message, which holds no field.
    pub fn emit(&self, buffer: &mut [u8])
        requires
            self@.fits(),
            self@.buffer_len() <= old(buffer).len(),
        ensures
            final(buffer)@ == overwrite(old(buffer)@, 0, self@.bytes(old(buffer)@[1])),
    {
        match self {
            RouteNetlinkMessage::NewLink(msg)
            | RouteNetlinkMessage::DelLink(msg)
            | RouteNetlinkMessage::GetLink(msg)
            | RouteNetlinkMessage::SetLink(msg)
            | RouteNetlinkMessage::NewLinkProp(msg)
            | RouteNetlinkMessage::DelLinkProp(msg) => msg.emit(buffer),
            RouteNetlinkMessage::NewAddress(msg)
            | RouteNetlinkMessage::DelAddress(msg)
            | RouteNetlinkMessage::GetAddress(msg) => msg.emit(buffer),
        }
    }

    /// Writes the payload of the message at the start of `buffer` and tells
    /// how many bytes it took, where the message can be written and the
    /// buffer holds it. Else the buffer stays as it was.
    pub fn checked_emit(&self, buffer: &mut [u8]) -> (written: Option<usize>)
        ensures
            match written {
                Some(len) => {
                    &&& self@.fits()
                    &&& len == self@.buffer_len()
                    &&& len <= old(buffer).len()
                    &&& final(buffer)@ == overwrite(
                        old(buffer)@,
                        0,
                        self@.bytes(old(buffer)@[1]),
                    )
                },
                None => {
                    &&& !self@.fits() || self@.buffer_len() > old(buffer).len()
                    &&& final(buffer)@ == old(buffer)@
                },
            },
    {
        match self {
            RouteNetlinkMessage::NewLink(msg)
            | RouteNetlinkMessage::DelLink(msg)
            | RouteNetlinkMessage::GetLink(msg)
            | RouteNetlinkMessage::SetLink(msg)
            | RouteNetlinkMessage::NewLinkProp(msg)
            | RouteNetlinkMessage::DelLinkProp(msg) => msg.checked_emit(buffer),
            RouteNetlinkMessage::NewAddress(msg)
            | RouteNetlinkMessage::DelAddress(msg)
            | RouteNetlinkMessage::GetAddress(msg) => msg.checked_emit(buffer),
        }
    }
}

} // verus!
