//! Socket address families, and the shape shared by every small vocabulary
//! of the protocol that has named values and room for values not yet named.

use vstd::prelude::*;
use vstd::std_specs::convert::FromSpecImpl;

verus! {

/// A vocabulary carried in one byte on the wire: some byte values have a
/// name, and every other byte is kept as it was read.
///
/// Reading a byte never fails, and writing back what was read gives the
/// same byte, whether the byte has a name or not.
pub trait OpenCoded: Sized {
    /// The value that a byte stands for.
    spec fn spec_from_code(code: u8) -> Self;

    /// The byte that a value is written as.
    spec fn spec_to_code(self) -> u8;

    /// Writing back a value that was read from `code` gives `code`.
    proof fn lemma_code_is_preserved(code: u8)
        ensures
            Self::spec_from_code(code).spec_to_code() == code,
    ;

    fn from_code(code: u8) -> (value: Self)
        ensures
            value == Self::spec_from_code(code),
    ;

    fn to_code(self) -> (code: u8)
        ensures
            code == self.spec_to_code(),
    ;
}

const AF_UNSPEC: u8 = 0;
const AF_LOCAL: u8 = 1;
const AF_UNIX: u8 = 1;
const AF_INET: u8 = 2;
const AF_AX25: u8 = 3;
const AF_IPX: u8 = 4;
const AF_APPLETALK: u8 = 5;
const AF_NETROM: u8 = 6;
const AF_BRIDGE: u8 = 7;
const AF_ATMPVC: u8 = 8;
const AF_X25: u8 = 9;
const AF_INET6: u8 = 10;
const AF_ROSE: u8 = 11;
const AF_DECNET: u8 = 12;
const AF_NETBEUI: u8 = 13;
const AF_SECURITY: u8 = 14;
const AF_KEY: u8 = 15;
const AF_NETLINK: u8 = 16;
const AF_ROUTE: u8 = 16;
const AF_PACKET: u8 = 17;
const AF_ASH: u8 = 18;
const AF_ECONET: u8 = 19;
const AF_ATMSVC: u8 = 20;
const AF_RDS: u8 = 21;
const AF_SNA: u8 = 22;
const AF_IRDA: u8 = 23;
const AF_PPPOX: u8 = 24;
const AF_WANPIPE: u8 = 25;
const AF_LLC: u8 = 26;
const AF_IB: u8 = 27;
const AF_MPLS: u8 = 28;
const AF_CAN: u8 = 29;
const AF_TIPC: u8 = 30;
const AF_BLUETOOTH: u8 = 31;
const AF_IUCV: u8 = 32;
const AF_RXRPC: u8 = 33;
const AF_ISDN: u8 = 34;
const AF_PHONET: u8 = 35;
const AF_IEEE802154: u8 = 36;
const AF_CAIF: u8 = 37;
const AF_ALG: u8 = 38;
const AF_NFC: u8 = 39;
const AF_VSOCK: u8 = 40;
const AF_KCM: u8 = 41;
const AF_QIPCRTR: u8 = 42;
const AF_SMC: u8 = 43;
const AF_XDP: u8 = 44;
const AF_MCTP: u8 = 45;

/// The address family of a socket, link or address.
///
/// `Local` and `Unix` share one byte, and so do `Route` and `Netlink`: the
/// byte reads as `Local` and as `Route`.
#[derive(Debug, PartialEq, Eq, Clone, Copy, Structural)]
#[non_exhaustive]
pub enum AddressFamily {
    Unspec,
    Local,
    Unix,
    Inet,
    Ax25,
    Ipx,
    Appletalk,
    Netrom,
    Bridge,
    Atmpvc,
    X25,
    Inet6,
    Rose,
    Decnet,
    Netbeui,
    Security,
    Key,
    Route,
    Netlink,
    Packet,
    Ash,
    Econet,
    Atmsvc,
    Rds,
    Sna,
    Irda,
    Pppox,
    Wanpipe,
    Llc,
    Ib,
    Mpls,
    Can,
    Tipc,
    Bluetooth,
    Iucv,
    Rxrpc,
    Isdn,
    Phonet,
    Ieee802154,
    Caif,
    Alg,
    Nfc,
    Vsock,
    Kcm,
    Qipcrtr,
    Smc,
    Xdp,
    Mctp,
    Other(u8),
}

impl AddressFamily {
    /// The family that a byte reads as: the table of the named families,
    /// and `Other` for every byte above it.
    pub open spec fn of_code(code: u8) -> AddressFamily {
        match code {
            0 => AddressFamily::Unspec,
            1 => AddressFamily::Local,
            2 => AddressFamily::Inet,
            3 => AddressFamily::Ax25,
            4 => AddressFamily::Ipx,
            5 => AddressFamily::Appletalk,
            6 => AddressFamily::Netrom,
            7 => AddressFamily::Bridge,
            8 => AddressFamily::Atmpvc,
            9 => AddressFamily::X25,
            10 => AddressFamily::Inet6,
            11 => AddressFamily::Rose,
            12 => AddressFamily::Decnet,
            13 => AddressFamily::Netbeui,
            14 => AddressFamily::Security,
            15 => AddressFamily::Key,
            16 => AddressFamily::Route,
            17 => AddressFamily::Packet,
            18 => AddressFamily::Ash,
            19 => AddressFamily::Econet,
            20 => AddressFamily::Atmsvc,
            21 => AddressFamily::Rds,
            22 => AddressFamily::Sna,
            23 => AddressFamily::Irda,
            24 => AddressFamily::Pppox,
            25 => AddressFamily::Wanpipe,
            26 => AddressFamily::Llc,
            27 => AddressFamily::Ib,
            28 => AddressFamily::Mpls,
            29 => AddressFamily::Can,
            30 => AddressFamily::Tipc,
            31 => AddressFamily::Bluetooth,
            32 => AddressFamily::Iucv,
            33 => AddressFamily::Rxrpc,
            34 => AddressFamily::Isdn,
            35 => AddressFamily::Phonet,
            36 => AddressFamily::Ieee802154,
            37 => AddressFamily::Caif,
            38 => AddressFamily::Alg,
            39 => AddressFamily::Nfc,
            40 => AddressFamily::Vsock,
            41 => AddressFamily::Kcm,
            42 => AddressFamily::Qipcrtr,
            43 => AddressFamily::Smc,
            44 => AddressFamily::Xdp,
            45 => AddressFamily::Mctp,
            _ => AddressFamily::Other(code),
        }
    }

    /// The byte that a family is written as.
    pub open spec fn code(self) -> u8 {
        match self {
            AddressFamily::Unspec => 0,
            AddressFamily::Local => 1,
            AddressFamily::Unix => 1,
            AddressFamily::Inet => 2,
            AddressFamily::Ax25 => 3,
            AddressFamily::Ipx => 4,
            AddressFamily::Appletalk => 5,
            AddressFamily::Netrom => 6,
            AddressFamily::Bridge => 7,
            AddressFamily::Atmpvc => 8,
            AddressFamily::X25 => 9,
            AddressFamily::Inet6 => 10,
            AddressFamily::Rose => 11,
            AddressFamily::Decnet => 12,
            AddressFamily::Netbeui => 13,
            AddressFamily::Security => 14,
            AddressFamily::Key => 15,
            AddressFamily::Route => 16,
            AddressFamily::Netlink => 16,
            AddressFamily::Packet => 17,
            AddressFamily::Ash => 18,
            AddressFamily::Econet => 19,
            AddressFamily::Atmsvc => 20,
            AddressFamily::Rds => 21,
            AddressFamily::Sna => 22,
            AddressFamily::Irda => 23,
            AddressFamily::Pppox => 24,
            AddressFamily::Wanpipe => 25,
            AddressFamily::Llc => 26,
            AddressFamily::Ib => 27,
            AddressFamily::Mpls => 28,
            AddressFamily::Can => 29,
            AddressFamily::Tipc => 30,
            AddressFamily::Bluetooth => 31,
            AddressFamily::Iucv => 32,
            AddressFamily::Rxrpc => 33,
            AddressFamily::Isdn => 34,
            AddressFamily::Phonet => 35,
            AddressFamily::Ieee802154 => 36,
            AddressFamily::Caif => 37,
            AddressFamily::Alg => 38,
            AddressFamily::Nfc => 39,
            AddressFamily::Vsock => 40,
            AddressFamily::Kcm => 41,
            AddressFamily::Qipcrtr => 42,
            AddressFamily::Smc => 43,
            AddressFamily::Xdp => 44,
            AddressFamily::Mctp => 45,
            AddressFamily::Other(d) => d,
        }
    }

    /// Whether reading back the byte of this family gives this family
    /// again. It fails for `Unix`, for `Netlink`, and for an `Other` that
    /// holds the byte of a named family.
    pub open spec fn is_canonical(self) -> bool {
        Self::of_code(self.code()) == self
    }

    /// Every family that was read from a byte is canonical.
    pub proof fn lemma_of_code_is_canonical(code: u8)
        ensures
            Self::of_code(code).is_canonical(),
            Self::of_code(code) is Other <==> code > 45,
    {
    }
}

impl OpenCoded for AddressFamily {
    open spec fn spec_from_code(code: u8) -> AddressFamily {
        Self::of_code(code)
    }

    open spec fn spec_to_code(self) -> u8 {
        self.code()
    }

    proof fn lemma_code_is_preserved(code: u8) {
    }

    fn from_code(d: u8) -> (value: AddressFamily) {
        if d == AF_UNSPEC {
            AddressFamily::Unspec
        } else if d == AF_LOCAL {
            AddressFamily::Local
        } else if d == AF_UNIX {
            AddressFamily::Unix
        } else if d == AF_INET {
            AddressFamily::Inet
        } else if d == AF_AX25 {
            AddressFamily::Ax25
        } else if d == AF_IPX {
            AddressFamily::Ipx
        } else if d == AF_APPLETALK {
            AddressFamily::Appletalk
        } else if d == AF_NETROM {
            AddressFamily::Netrom
        } else if d == AF_BRIDGE {
            AddressFamily::Bridge
        } else if d == AF_ATMPVC {
            AddressFamily::Atmpvc
        } else if d == AF_X25 {
            AddressFamily::X25
        } else if d == AF_INET6 {
            AddressFamily::Inet6
        } else if d == AF_ROSE {
            AddressFamily::Rose
        } else if d == AF_DECNET {
            AddressFamily::Decnet
        } else if d == AF_NETBEUI {
            AddressFamily::Netbeui
        } else if d == AF_SECURITY {
            AddressFamily::Security
        } else if d == AF_KEY {
            AddressFamily::Key
        } else if d == AF_ROUTE {
            AddressFamily::Route
        } else if d == AF_NETLINK {
            AddressFamily::Netlink
        } else if d == AF_PACKET {
            AddressFamily::Packet
        } else if d == AF_ASH {
            AddressFamily::Ash
        } else if d == AF_ECONET {
            AddressFamily::Econet
        } else if d == AF_ATMSVC {
            AddressFamily::Atmsvc
        } else if d == AF_RDS {
            AddressFamily::Rds
        } else if d == AF_SNA {
            AddressFamily::Sna
        } else if d == AF_IRDA {
            AddressFamily::Irda
        } else if d == AF_PPPOX {
            AddressFamily::Pppox
        } else if d == AF_WANPIPE {
            AddressFamily::Wanpipe
        } else if d == AF_LLC {
            AddressFamily::Llc
        } else if d == AF_IB {
            AddressFamily::Ib
        } else if d == AF_MPLS {
            AddressFamily::Mpls
        } else if d == AF_CAN {
            AddressFamily::Can
        } else if d == AF_TIPC {
            AddressFamily::Tipc
        } else if d == AF_BLUETOOTH {
            AddressFamily::Bluetooth
        } else if d == AF_IUCV {
            AddressFamily::Iucv
        } else if d == AF_RXRPC {
            AddressFamily::Rxrpc
        } else if d == AF_ISDN {
            AddressFamily::Isdn
        } else if d == AF_PHONET {
            AddressFamily::Phonet
        } else if d == AF_IEEE802154 {
            AddressFamily::Ieee802154
        } else if d == AF_CAIF {
            AddressFamily::Caif
        } else if d == AF_ALG {
            AddressFamily::Alg
        } else if d == AF_NFC {
            AddressFamily::Nfc
        } else if d == AF_VSOCK {
            AddressFamily::Vsock
        } else if d == AF_KCM {
            AddressFamily::Kcm
        } else if d == AF_QIPCRTR {
            AddressFamily::Qipcrtr
        } else if d == AF_SMC {
            AddressFamily::Smc
        } else if d == AF_XDP {
            AddressFamily::Xdp
        } else if d == AF_MCTP {
            AddressFamily::Mctp
        } else {
            AddressFamily::Other(d)
        }
    }

    fn to_code(self) -> (code: u8) {
        match self {
            AddressFamily::Unspec => AF_UNSPEC,
            AddressFamily::Local => AF_LOCAL,
            AddressFamily::Unix => AF_UNIX,
            AddressFamily::Inet => AF_INET,
            AddressFamily::Ax25 => AF_AX25,
            AddressFamily::Ipx => AF_IPX,
            AddressFamily::Appletalk => AF_APPLETALK,
            AddressFamily::Netrom => AF_NETROM,
            AddressFamily::Bridge => AF_BRIDGE,
            AddressFamily::Atmpvc => AF_ATMPVC,
            AddressFamily::X25 => AF_X25,
            AddressFamily::Inet6 => AF_INET6,
            AddressFamily::Rose => AF_ROSE,
            AddressFamily::Decnet => AF_DECNET,
            AddressFamily::Netbeui => AF_NETBEUI,
            AddressFamily::Security => AF_SECURITY,
            AddressFamily::Key => AF_KEY,
            AddressFamily::Route => AF_ROUTE,
            AddressFamily::Netlink => AF_NETLINK,
            AddressFamily::Packet => AF_PACKET,
            AddressFamily::Ash => AF_ASH,
            AddressFamily::Econet => AF_ECONET,
            AddressFamily::Atmsvc => AF_ATMSVC,
            AddressFamily::Rds => AF_RDS,
            AddressFamily::Sna => AF_SNA,
            AddressFamily::Irda => AF_IRDA,
            AddressFamily::Pppox => AF_PPPOX,
            AddressFamily::Wanpipe => AF_WANPIPE,
            AddressFamily::Llc => AF_LLC,
            AddressFamily::Ib => AF_IB,
            AddressFamily::Mpls => AF_MPLS,
            AddressFamily::Can => AF_CAN,
            AddressFamily::Tipc => AF_TIPC,
            AddressFamily::Bluetooth => AF_BLUETOOTH,
            AddressFamily::Iucv => AF_IUCV,
            AddressFamily::Rxrpc => AF_RXRPC,
            AddressFamily::Isdn => AF_ISDN,
            AddressFamily::Phonet => AF_PHONET,
            AddressFamily::Ieee802154 => AF_IEEE802154,
            AddressFamily::Caif => AF_CAIF,
            AddressFamily::Alg => AF_ALG,
            AddressFamily::Nfc => AF_NFC,
            AddressFamily::Vsock => AF_VSOCK,
            AddressFamily::Kcm => AF_KCM,
            AddressFamily::Qipcrtr => AF_QIPCRTR,
            AddressFamily::Smc => AF_SMC,
            AddressFamily::Xdp => AF_XDP,
            AddressFamily::Mctp => AF_MCTP,
            AddressFamily::Other(d) => d,
        }
    }
}

impl Default for AddressFamily {
    fn default() -> (family: AddressFamily)
        ensures
            family == AddressFamily::Unspec,
    {
        AddressFamily::Unspec
    }
}

impl From<u8> for AddressFamily {
    fn from(d: u8) -> (family: AddressFamily)
        ensures
            family == AddressFamily::of_code(d),
    {
        AddressFamily::from_code(d)
    }
}

impl FromSpecImpl<u8> for AddressFamily {
    open spec fn obeys_from_spec() -> bool {
        true
    }

    open spec fn from_spec(d: u8) -> AddressFamily {
        AddressFamily::of_code(d)
    }
}

impl From<AddressFamily> for u8 {
    fn from(v: AddressFamily) -> (code: u8)
        ensures
            code == v.code(),
    {
        v.to_code()
    }
}

impl FromSpecImpl<AddressFamily> for u8 {
    open spec fn obeys_from_spec() -> bool {
        true
    }

    open spec fn from_spec(v: AddressFamily) -> u8 {
        v.code()
    }
}

} // verus!
