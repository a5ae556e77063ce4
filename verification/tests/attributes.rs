use netlink_packet_route::byte_order::{read_u16, read_u32, write_u16, write_u32};
use netlink_packet_route::link::{InfoGtp, LinkAttribute};
use netlink_packet_route::nla::{
    align, checked_nlas_buffer_len, emit_nlas, emit_nlas_at, nlas_buffer_len, nlas_fit,
    parse_default_nla, parse_nlas, write_zeros, Nla, NlaBuffer, NlasIterator, NLA_F_NESTED,
    NLA_F_NET_BYTEORDER, NLA_HEADER_SIZE, NLA_MAX_VALUE_LEN, NLA_TYPE_MASK,
};
use netlink_packet_route::DecodeError;
use netlink_packet_utils::nla::DefaultNla;

fn nla_bytes(kind: u16, value: &[u8]) -> Vec<u8> {
    let mut bytes = Vec::new();
    bytes.extend_from_slice(&((value.len() + 4) as u16).to_ne_bytes());
    bytes.extend_from_slice(&kind.to_ne_bytes());
    bytes.extend_from_slice(value);
    while bytes.len() % 4 != 0 {
        bytes.push(0);
    }
    bytes
}

fn other(kind: u16, value: &[u8]) -> LinkAttribute {
    LinkAttribute::Other(DefaultNla::new(kind, value.to_vec()))
}

#[test]
fn fields_are_read_in_host_order() {
    let mut bytes = vec![0xaau8; 8];
    bytes[1..3].copy_from_slice(&0x1234u16.to_ne_bytes());
    bytes[4..8].copy_from_slice(&0xdeadbeefu32.to_ne_bytes());
    assert_eq!(read_u16(&bytes, 1), 0x1234);
    assert_eq!(read_u32(&bytes, 4), 0xdeadbeef);
    if u16::from_ne_bytes([1, 0]) == 1 {
        assert_eq!(read_u16(&[0x34, 0x12], 0), 0x1234);
        assert_eq!(read_u32(&[0, 0xef, 0xbe, 0xad, 0xde], 1), 0xdeadbeef);
    } else {
        assert_eq!(read_u16(&[0x12, 0x34], 0), 0x1234);
        assert_eq!(read_u32(&[0, 0xde, 0xad, 0xbe, 0xef], 1), 0xdeadbeef);
    }
}

#[test]
fn fields_are_written_in_host_order_and_nothing_else_changes() {
    let mut bytes = vec![0xaau8; 8];
    write_u16(&mut bytes, 3, 0x1234);
    let mut expected = vec![0xaau8; 8];
    expected[3..5].copy_from_slice(&0x1234u16.to_ne_bytes());
    assert_eq!(bytes, expected);

    let mut bytes = vec![0x55u8; 7];
    write_u32(&mut bytes, 2, 0x01020304);
    let mut expected = vec![0x55u8; 7];
    expected[2..6].copy_from_slice(&0x01020304u32.to_ne_bytes());
    assert_eq!(bytes, expected);
    if u16::from_ne_bytes([1, 0]) == 1 {
        assert_eq!(bytes, vec![0x55, 0x55, 4, 3, 2, 1, 0x55]);
    }
}

#[test]
fn written_fields_read_back() {
    let mut bytes = vec![0u8; 6];
    for v in [0u16, 1, 255, 256, 0x8000, 0xffff] {
        write_u16(&mut bytes, 0, v);
        assert_eq!(read_u16(&bytes, 0), v);
    }
    for v in [0u32, 1, 0xff, 0x100, 0x10000, 0x1000000, 0x80000000, 0xffffffff] {
        write_u32(&mut bytes, 2, v);
        assert_eq!(read_u32(&bytes, 2), v);
    }
}

#[test]
fn align_rounds_up_to_four() {
    assert_eq!(align(0), 0);
    assert_eq!(align(1), 4);
    assert_eq!(align(4), 4);
    assert_eq!(align(13), 16);
    assert_eq!(align(16), 16);
    assert_eq!(align(usize::MAX - 3), usize::MAX - 3);
}

#[test]
fn attribute_constants() {
    assert_eq!(NLA_F_NESTED, 0x8000);
    assert_eq!(NLA_F_NET_BYTEORDER, 0x4000);
    assert_eq!(NLA_TYPE_MASK, 0x3fff);
    assert_eq!(NLA_HEADER_SIZE, 4);
    assert_eq!(NLA_MAX_VALUE_LEN, 65531);
}

#[test]
fn buffer_shorter_than_a_header_is_refused() {
    for len in 0..4usize {
        let bytes = vec![0xffu8; len];
        assert_eq!(
            NlaBuffer::new_checked(&bytes).err(),
            Some(DecodeError::TruncatedAttributeHeader)
        );
    }
}

#[test]
fn declared_length_beyond_the_buffer_is_refused() {
    let mut bytes = nla_bytes(1, &[1, 2, 3, 4]);
    bytes[0..2].copy_from_slice(&9u16.to_ne_bytes());
    assert_eq!(NlaBuffer::new_checked(&bytes).err(), Some(DecodeError::TruncatedAttribute));
    let all_ones = [0xffu8; 12];
    assert_eq!(NlaBuffer::new_checked(&all_ones).err(), Some(DecodeError::TruncatedAttribute));
}

#[test]
fn declared_length_below_the_header_is_refused() {
    for declared in 0..4u16 {
        let mut bytes = nla_bytes(1, &[1, 2, 3, 4]);
        bytes[0..2].copy_from_slice(&declared.to_ne_bytes());
        assert_eq!(NlaBuffer::new_checked(&bytes).err(), Some(DecodeError::InvalidAttributeLength));
    }
}

#[test]
fn view_gives_the_fields_of_the_first_attribute() {
    let mut bytes = nla_bytes(0x1d, &[1, 0, 0]);
    bytes.extend_from_slice(&[9, 9, 9, 9, 9]);
    let buf = NlaBuffer::new_checked(&bytes).unwrap();
    assert_eq!(buf.length(), 7);
    assert_eq!(buf.value_length(), 3);
    assert_eq!(buf.kind(), 0x1d);
    assert!(!buf.nested_flag());
    assert!(!buf.network_byte_order_flag());
    assert_eq!(buf.value(), &[1, 0, 0]);
    assert_eq!(buf.inner(), &bytes[..]);
    assert_eq!(buf.into_inner(), &bytes[..]);
}

#[test]
fn view_splits_the_flags_from_the_kind() {
    let bytes = nla_bytes(0x8000 | 0x4000 | 6, &[0, 0, 0x0e, 0x10]);
    let buf = NlaBuffer::new_checked(&bytes).unwrap();
    assert_eq!(buf.kind(), 6);
    assert!(buf.nested_flag());
    assert!(buf.network_byte_order_flag());
    let bytes = nla_bytes(0x4006, &[0, 0, 0x0e, 0x10]);
    let buf = NlaBuffer::new_checked(&bytes).unwrap();
    assert_eq!(buf.kind(), 6);
    assert!(!buf.nested_flag());
    assert!(buf.network_byte_order_flag());
}

#[test]
fn empty_value_is_an_attribute() {
    let bytes = nla_bytes(3, &[]);
    assert_eq!(bytes.len(), 4);
    let buf = NlaBuffer::new_checked(&bytes).unwrap();
    assert_eq!(buf.value_length(), 0);
    assert_eq!(buf.value(), &[] as &[u8]);
    assert_eq!(parse_default_nla(&buf), DefaultNla::new(3, vec![]));
}

#[test]
fn unknown_kind_is_kept_whole() {
    let bytes = nla_bytes(0xc123, &[7, 8, 9]);
    let buf = NlaBuffer::new_checked(&bytes).unwrap();
    assert_eq!(parse_default_nla(&buf), DefaultNla::new(0xc123, vec![7, 8, 9]));
    assert_eq!(LinkAttribute::parse(&buf), Ok(other(0xc123, &[7, 8, 9])));
    assert_eq!(InfoGtp::parse(&buf), Ok(InfoGtp::Other(DefaultNla::new(0xc123, vec![7, 8, 9]))));
}

#[test]
fn attribute_reports_kind_length_and_value() {
    let nla = other(0x8005, &[1, 2, 3, 4, 5]);
    assert_eq!(nla.kind(), 0x8005);
    assert_eq!(nla.value_len(), 5);
    assert_eq!(nla.buffer_len(), 12);
    assert!(nla.is_nested());
    assert!(!nla.is_network_byteorder());
    assert!(nla.fits());
    let mut value = [0u8; 5];
    nla.emit_value(&mut value);
    assert_eq!(value, [1, 2, 3, 4, 5]);
    let gtp = InfoGtp::Other(DefaultNla::new(0x4002, vec![9]));
    assert_eq!(gtp.kind(), 0x4002);
    assert_eq!(gtp.value_len(), 1);
    assert_eq!(gtp.buffer_len(), 8);
    assert!(gtp.is_network_byteorder());
    assert!(!gtp.is_nested());
    let mut value = [0u8; 1];
    gtp.emit_value(&mut value);
    assert_eq!(value, [9]);
}

#[test]
fn attribute_is_written_with_header_and_zero_padding() {
    let nla = other(0x8005, &[1, 2, 3, 4, 5]);
    let mut buffer = vec![0xeeu8; 14];
    nla.emit(&mut buffer);
    let mut expected = nla_bytes(0x8005, &[1, 2, 3, 4, 5]);
    assert_eq!(expected.len(), 12);
    assert_eq!(&expected[9..], &[0, 0, 0]);
    expected.extend_from_slice(&[0xee, 0xee]);
    assert_eq!(buffer, expected);
    if u16::from_ne_bytes([1, 0]) == 1 {
        assert_eq!(buffer, vec![9, 0, 5, 0x80, 1, 2, 3, 4, 5, 0, 0, 0, 0xee, 0xee]);
    }
}

#[test]
fn attribute_is_written_at_an_offset() {
    let nla = InfoGtp::Other(DefaultNla::new(2, vec![0xab, 0xcd]));
    let mut buffer = vec![0x11u8; 12];
    nla.emit_at(&mut buffer, 3);
    let mut expected = vec![0x11u8; 3];
    expected.extend_from_slice(&nla_bytes(2, &[0xab, 0xcd]));
    expected.push(0x11);
    assert_eq!(buffer, expected);
}

#[test]
fn written_attribute_reads_back() {
    let nla = other(0x4abc, &[1, 2, 3, 4, 5, 6]);
    let mut buffer = vec![0xffu8; nla.buffer_len()];
    nla.emit(&mut buffer);
    let buf = NlaBuffer::new_checked(&buffer).unwrap();
    assert_eq!(LinkAttribute::parse(&buf), Ok(nla));
}

#[test]
fn read_attribute_writes_back_the_same_bytes() {
    for value_len in 0..9usize {
        let value: Vec<u8> =
            (0..value_len as u8).map(|b| b.wrapping_mul(37).wrapping_add(1)).collect();
        let bytes = nla_bytes(0xfff0, &value);
        let buf = NlaBuffer::new_checked(&bytes).unwrap();
        let nla = InfoGtp::parse(&buf).unwrap();
        let mut again = vec![0x77u8; nla.buffer_len()];
        nla.emit(&mut again);
        assert_eq!(again, bytes);
    }
}

#[test]
fn nonzero_padding_is_not_written_back() {
    let mut bytes = nla_bytes(1, &[0xaa]);
    bytes[5] = 0xff;
    let buf = NlaBuffer::new_checked(&bytes).unwrap();
    let nla = LinkAttribute::parse(&buf).unwrap();
    assert_eq!(nla, other(1, &[0xaa]));
    let mut again = vec![0u8; nla.buffer_len()];
    nla.emit(&mut again);
    assert_eq!(again, nla_bytes(1, &[0xaa]));
    assert_ne!(again, bytes);
}

#[test]
fn clone_keeps_kind_and_value() {
    let nla = other(0x1234, &[5, 6, 7]);
    assert_eq!(nla.clone(), nla);
    let gtp = InfoGtp::Other(DefaultNla::new(1, vec![2]));
    assert_eq!(gtp.clone(), gtp);
}

#[test]
fn largest_value_that_fits() {
    let fits = other(1, &vec![0u8; 65531]);
    assert!(fits.fits());
    assert_eq!(fits.buffer_len(), 65536);
    let mut buffer = vec![0xffu8; 65536];
    fits.emit(&mut buffer);
    let buf = NlaBuffer::new_checked(&buffer).unwrap();
    assert_eq!(buf.length(), 65535);
    assert_eq!(LinkAttribute::parse(&buf), Ok(fits));
    assert_eq!(buffer[65535], 0);
    let too_long = other(1, &vec![0u8; 65532]);
    assert!(!too_long.fits());
    assert!(!nlas_fit(&[other(1, &[]), too_long]));
    assert!(nlas_fit(&[other(1, &[]), other(2, &[1])]));
    assert!(nlas_fit::<LinkAttribute>(&[]));
}

#[test]
fn iterator_walks_over_padded_attributes() {
    let mut bytes = nla_bytes(1, &[1]);
    bytes.extend_from_slice(&nla_bytes(2, &[1, 2, 3, 4]));
    bytes.extend_from_slice(&nla_bytes(3, &[]));
    let mut iter = NlasIterator::new(&bytes);
    let first = iter.next().unwrap().unwrap();
    assert_eq!((first.kind(), first.value()), (1, &[1u8][..]));
    assert_eq!(first.inner(), &bytes[..]);
    let second = iter.next().unwrap().unwrap();
    assert_eq!((second.kind(), second.value()), (2, &[1u8, 2, 3, 4][..]));
    assert_eq!(second.inner(), &bytes[8..]);
    let third = iter.next().unwrap().unwrap();
    assert_eq!((third.kind(), third.value()), (3, &[][..]));
    assert!(iter.next().is_none());
    assert!(iter.next().is_none());
}

#[test]
fn iterator_stops_after_an_error() {
    let mut bytes = nla_bytes(1, &[1]);
    bytes.extend_from_slice(&[1, 2, 3]);
    let mut iter = NlasIterator::new(&bytes);
    assert!(iter.next().unwrap().is_ok());
    assert_eq!(iter.next().unwrap().err(), Some(DecodeError::TruncatedAttributeHeader));
    assert!(iter.next().is_none());
}

#[test]
fn last_attribute_may_lack_its_padding() {
    let mut bytes = nla_bytes(1, &[1, 2, 3, 4]);
    bytes.extend_from_slice(&nla_bytes(2, &[9])[..5]);
    assert_eq!(
        parse_nlas::<LinkAttribute>(&bytes),
        Ok(vec![other(1, &[1, 2, 3, 4]), other(2, &[9])])
    );
}

#[test]
fn row_of_attributes_is_decoded_in_order() {
    let mut bytes = nla_bytes(3, &[b'l', b'o', 0]);
    bytes.extend_from_slice(&nla_bytes(0x8012, &[]));
    bytes.extend_from_slice(&nla_bytes(4, &[0xdc, 5, 0, 0]));
    let nlas = parse_nlas::<LinkAttribute>(&bytes).unwrap();
    assert_eq!(
        nlas,
        vec![other(3, &[b'l', b'o', 0]), other(0x8012, &[]), other(4, &[0xdc, 5, 0, 0])]
    );
    assert_eq!(parse_nlas::<LinkAttribute>(&[]), Ok(vec![]));
}

#[test]
fn row_with_a_truncated_attribute_is_refused() {
    let mut bytes = nla_bytes(1, &[1, 2]);
    let mut bad = nla_bytes(2, &[1, 2, 3, 4]);
    bad[0..2].copy_from_slice(&12u16.to_ne_bytes());
    bytes.extend_from_slice(&bad);
    assert_eq!(parse_nlas::<LinkAttribute>(&bytes), Err(DecodeError::TruncatedAttribute));
    let mut bytes = nla_bytes(1, &[1, 2]);
    bytes.extend_from_slice(&[0, 0]);
    assert_eq!(parse_nlas::<InfoGtp>(&bytes), Err(DecodeError::TruncatedAttributeHeader));
    let mut bytes = nla_bytes(1, &[1, 2]);
    bytes.extend_from_slice(&[0, 0, 1, 0]);
    assert_eq!(parse_nlas::<InfoGtp>(&bytes), Err(DecodeError::InvalidAttributeLength));
}

#[test]
fn row_of_attributes_is_written_in_order() {
    let nlas = vec![other(1, &[1]), other(2, &[]), other(3, &[1, 2, 3, 4, 5])];
    assert_eq!(nlas_buffer_len(&nlas), 8 + 4 + 12);
    assert_eq!(checked_nlas_buffer_len(&nlas), Some(24));
    assert_eq!(nlas_buffer_len::<LinkAttribute>(&[]), 0);
    let mut expected = nla_bytes(1, &[1]);
    expected.extend_from_slice(&nla_bytes(2, &[]));
    expected.extend_from_slice(&nla_bytes(3, &[1, 2, 3, 4, 5]));
    let mut buffer = vec![0xeeu8; 24];
    emit_nlas(&nlas, &mut buffer);
    assert_eq!(buffer, expected);
    let mut buffer = vec![0xeeu8; 30];
    emit_nlas_at(&nlas, &mut buffer, 5);
    assert_eq!(&buffer[..5], &[0xee; 5]);
    assert_eq!(&buffer[5..29], &expected[..]);
    assert_eq!(buffer[29], 0xee);
    assert_eq!(parse_nlas::<LinkAttribute>(&expected), Ok(nlas));
}

#[test]
fn structural_errors_are_told_from_invalid_input() {
    assert!(!DecodeError::InvalidInput.is_structural());
    assert!(DecodeError::TruncatedHeader.is_structural());
    assert!(DecodeError::TruncatedAttributeHeader.is_structural());
    assert!(DecodeError::TruncatedAttribute.is_structural());
    assert!(DecodeError::InvalidAttributeLength.is_structural());
}

#[test]
fn zeros_are_written_where_asked() {
    let mut buffer = vec![0xffu8; 6];
    write_zeros(&mut buffer, 2, 3);
    assert_eq!(buffer, vec![0xff, 0xff, 0, 0, 0, 0xff]);
    write_zeros(&mut buffer, 6, 0);
    assert_eq!(buffer, vec![0xff, 0xff, 0, 0, 0, 0xff]);
}
