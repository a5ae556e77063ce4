use netlink_packet_route::address::{
    AddressAttribute, AddressHeader, AddressMessage, AddressMessageBuffer, ADDRESS_HEADER_LEN,
};
use netlink_packet_route::nla::{Nla, NlaBuffer};
use netlink_packet_route::{AddressFamily, DecodeError};
use netlink_packet_utils::nla::DefaultNla;

fn address_header_bytes(family: u8, prefix_len: u8, flags: u8, scope: u8, index: u32) -> Vec<u8> {
    let mut bytes = vec![family, prefix_len, flags, scope];
    bytes.extend_from_slice(&index.to_ne_bytes());
    bytes
}

fn address_nla_bytes(kind: u16, value: &[u8]) -> Vec<u8> {
    let mut bytes = Vec::new();
    bytes.extend_from_slice(&((value.len() + 4) as u16).to_ne_bytes());
    bytes.extend_from_slice(&kind.to_ne_bytes());
    bytes.extend_from_slice(value);
    while bytes.len() % 4 != 0 {
        bytes.push(0);
    }
    bytes
}

fn sample_address() -> AddressMessage {
    let mut message = AddressMessage::default();
    message.header.family = AddressFamily::Inet;
    message.header.prefix_len = 8;
    message.header.flags = 0x80;
    message.header.scope = 254;
    message.header.index = 1;
    message.attributes.push(AddressAttribute::Other(DefaultNla::new(1, vec![127, 0, 0, 1])));
    message.attributes.push(AddressAttribute::Other(DefaultNla::new(3, vec![b'l', b'o', 0])));
    message
}

fn sample_address_bytes() -> Vec<u8> {
    let mut bytes = address_header_bytes(2, 8, 0x80, 254, 1);
    bytes.extend_from_slice(&address_nla_bytes(1, &[127, 0, 0, 1]));
    bytes.extend_from_slice(&address_nla_bytes(3, &[b'l', b'o', 0]));
    bytes
}

#[test]
fn address_buffer_needs_eight_bytes() {
    assert_eq!(ADDRESS_HEADER_LEN, 8);
    for len in 0..8usize {
        let bytes = vec![0u8; len];
        assert_eq!(
            AddressMessageBuffer::new_checked(&bytes).err(),
            Some(DecodeError::TruncatedHeader)
        );
    }
    assert!(AddressMessageBuffer::new_checked(&[0u8; 8]).is_ok());
}

#[test]
fn address_buffer_gives_the_fields() {
    let bytes = sample_address_bytes();
    let buf = AddressMessageBuffer::new_checked(&bytes).unwrap();
    assert_eq!(buf.family(), 2);
    assert_eq!(buf.prefix_len(), 8);
    assert_eq!(buf.flags(), 0x80);
    assert_eq!(buf.scope(), 254);
    assert_eq!(buf.index(), 1);
    assert_eq!(buf.payload(), &bytes[8..]);
    assert_eq!(buf.inner(), &bytes[..]);
    assert_eq!(buf.into_inner(), &bytes[..]);
}

#[test]
fn address_header_is_read() {
    let bytes = address_header_bytes(10, 64, 1, 2, 0x0a0b0c0d);
    let buf = AddressMessageBuffer::new_checked(&bytes).unwrap();
    let header = AddressHeader::parse(&buf);
    assert_eq!(
        header,
        AddressHeader {
            family: AddressFamily::Inet6,
            prefix_len: 64,
            flags: 1,
            scope: 2,
            index: 0x0a0b0c0d
        }
    );
}

#[test]
fn address_header_is_written() {
    let header = sample_address().header;
    assert_eq!(header.buffer_len(), 8);
    let mut buffer = vec![0xc3u8; 9];
    header.emit(&mut buffer);
    let mut expected = address_header_bytes(2, 8, 0x80, 254, 1);
    expected.push(0xc3);
    assert_eq!(buffer, expected);
    if u16::from_ne_bytes([1, 0]) == 1 {
        assert_eq!(buffer, vec![2, 8, 0x80, 254, 1, 0, 0, 0, 0xc3]);
    }
}

#[test]
fn default_address_is_empty() {
    let message = AddressMessage::default();
    assert_eq!(message.header, AddressHeader::default());
    assert_eq!(
        message.header,
        AddressHeader { family: AddressFamily::Unspec, prefix_len: 0, flags: 0, scope: 0, index: 0 }
    );
    assert!(message.attributes.is_empty());
    assert_eq!(message.buffer_len(), 8);
}

#[test]
fn address_message_is_decoded() {
    let bytes = sample_address_bytes();
    let buf = AddressMessageBuffer::new_checked(&bytes).unwrap();
    assert_eq!(AddressMessage::parse(&buf), Ok(sample_address()));
}

#[test]
fn address_message_is_written() {
    let message = sample_address();
    assert!(message.fits());
    assert_eq!(message.buffer_len(), 8 + 8 + 8);
    assert_eq!(message.checked_buffer_len(), Some(24));
    let mut buffer = vec![0x99u8; 26];
    message.emit(&mut buffer);
    let mut expected = sample_address_bytes();
    expected.extend_from_slice(&[0x99, 0x99]);
    assert_eq!(buffer, expected);
}

#[test]
fn address_message_round_trip() {
    let message = sample_address();
    let mut buffer = vec![0xffu8; message.buffer_len()];
    message.emit(&mut buffer);
    let buf = AddressMessageBuffer::new_checked(&buffer).unwrap();
    assert_eq!(AddressMessage::parse(&buf), Ok(message));
}

#[test]
fn address_message_with_a_bad_attribute_is_refused() {
    let mut bytes = sample_address_bytes();
    bytes.extend_from_slice(&[40, 0, 1, 0, 1, 2, 3, 4]);
    let buf = AddressMessageBuffer::new_checked(&bytes).unwrap();
    let expected = if u16::from_ne_bytes([40, 0]) as usize > 8 {
        DecodeError::TruncatedAttribute
    } else {
        DecodeError::InvalidAttributeLength
    };
    assert_eq!(AddressMessage::parse(&buf), Err(expected));
    let mut bytes = sample_address_bytes();
    bytes.extend_from_slice(&[1, 2]);
    let buf = AddressMessageBuffer::new_checked(&bytes).unwrap();
    assert_eq!(AddressMessage::parse(&buf), Err(DecodeError::TruncatedAttributeHeader));
}

#[test]
fn address_attribute_is_an_attribute() {
    let nla = AddressAttribute::Other(DefaultNla::new(0x4008, vec![1, 2, 3]));
    assert_eq!(nla.kind(), 0x4008);
    assert_eq!(nla.value_len(), 3);
    assert_eq!(nla.buffer_len(), 8);
    assert!(nla.is_network_byteorder());
    let mut buffer = vec![0xffu8; 8];
    nla.emit(&mut buffer);
    assert_eq!(buffer, address_nla_bytes(0x4008, &[1, 2, 3]));
    let buf = NlaBuffer::new_checked(&buffer).unwrap();
    assert_eq!(AddressAttribute::parse(&buf), Ok(nla.clone()));
}

#[test]
fn address_checked_emit() {
    let message = sample_address();
    let mut buffer = vec![0x99u8; 24];
    assert_eq!(message.checked_emit(&mut buffer), Some(24));
    assert_eq!(buffer, sample_address_bytes());
    let mut short = vec![0x99u8; 23];
    assert_eq!(message.checked_emit(&mut short), None);
    assert_eq!(short, vec![0x99u8; 23]);
}
