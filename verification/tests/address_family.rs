use netlink_packet_route::{AddressFamily, OpenCoded};

#[test]
fn every_byte_reads_and_writes_back() {
    for b in 0..=255u8 {
        let family = AddressFamily::from(b);
        assert_eq!(u8::from(family), b);
        assert_eq!(AddressFamily::from_code(b).to_code(), b);
    }
}

#[test]
fn named_families_have_their_codes() {
    let table = [
        (AddressFamily::Unspec, 0u8),
        (AddressFamily::Local, 1),
        (AddressFamily::Inet, 2),
        (AddressFamily::Ax25, 3),
        (AddressFamily::Ipx, 4),
        (AddressFamily::Appletalk, 5),
        (AddressFamily::Netrom, 6),
        (AddressFamily::Bridge, 7),
        (AddressFamily::Atmpvc, 8),
        (AddressFamily::X25, 9),
        (AddressFamily::Inet6, 10),
        (AddressFamily::Rose, 11),
        (AddressFamily::Decnet, 12),
        (AddressFamily::Netbeui, 13),
        (AddressFamily::Security, 14),
        (AddressFamily::Key, 15),
        (AddressFamily::Route, 16),
        (AddressFamily::Packet, 17),
        (AddressFamily::Ash, 18),
        (AddressFamily::Econet, 19),
        (AddressFamily::Atmsvc, 20),
        (AddressFamily::Rds, 21),
        (AddressFamily::Sna, 22),
        (AddressFamily::Irda, 23),
        (AddressFamily::Pppox, 24),
        (AddressFamily::Wanpipe, 25),
        (AddressFamily::Llc, 26),
        (AddressFamily::Ib, 27),
        (AddressFamily::Mpls, 28),
        (AddressFamily::Can, 29),
        (AddressFamily::Tipc, 30),
        (AddressFamily::Bluetooth, 31),
        (AddressFamily::Iucv, 32),
        (AddressFamily::Rxrpc, 33),
        (AddressFamily::Isdn, 34),
        (AddressFamily::Phonet, 35),
        (AddressFamily::Ieee802154, 36),
        (AddressFamily::Caif, 37),
        (AddressFamily::Alg, 38),
        (AddressFamily::Nfc, 39),
        (AddressFamily::Vsock, 40),
        (AddressFamily::Kcm, 41),
        (AddressFamily::Qipcrtr, 42),
        (AddressFamily::Smc, 43),
        (AddressFamily::Xdp, 44),
        (AddressFamily::Mctp, 45),
    ];
    for (family, code) in table {
        assert_eq!(AddressFamily::from(code), family);
        assert_eq!(u8::from(family), code);
    }
}

#[test]
fn bytes_without_a_name_are_kept() {
    assert_eq!(AddressFamily::from(46), AddressFamily::Other(46));
    assert_eq!(AddressFamily::from(200), AddressFamily::Other(200));
    assert_eq!(AddressFamily::from(255), AddressFamily::Other(255));
    assert_eq!(u8::from(AddressFamily::Other(46)), 46);
    assert_eq!(u8::from(AddressFamily::Other(255)), 255);
    for b in 46..=255u8 {
        assert_eq!(AddressFamily::from(b), AddressFamily::Other(b));
    }
}

#[test]
fn shared_codes_read_as_the_first_name() {
    assert_eq!(u8::from(AddressFamily::Unix), 1);
    assert_eq!(u8::from(AddressFamily::Local), 1);
    assert_eq!(AddressFamily::from(1), AddressFamily::Local);
    assert_eq!(u8::from(AddressFamily::Netlink), 16);
    assert_eq!(u8::from(AddressFamily::Route), 16);
    assert_eq!(AddressFamily::from(16), AddressFamily::Route);
}

#[test]
fn other_with_a_named_code_writes_that_code() {
    assert_eq!(u8::from(AddressFamily::Other(2)), 2);
    assert_eq!(AddressFamily::from(u8::from(AddressFamily::Other(2))), AddressFamily::Inet);
}

#[test]
fn default_family_is_unspec() {
    assert_eq!(AddressFamily::default(), AddressFamily::Unspec);
    assert_eq!(u8::from(AddressFamily::default()), 0);
}

#[test]
fn into_goes_both_ways() {
    let family: AddressFamily = 10u8.into();
    assert_eq!(family, AddressFamily::Inet6);
    let code: u8 = AddressFamily::Bridge.into();
    assert_eq!(code, 7);
}
