//! The attribute that keeps any kind whole: `DefaultNla` of
//! `netlink_packet_utils`, seen through its kind and its value.

use crate::nla::{declared_kind, first_nla, NlaBuffer, NlaView, NLA_F_NESTED, NLA_F_NET_BYTEORDER};
use netlink_packet_utils::nla::DefaultNla;
use vstd::prelude::*;
use vstd::slice::slice_to_vec;

verus! {

/// `DefaultNla` of `netlink_packet_utils`: an attribute of any kind, kept as
/// its kind and the bytes of its value. Nothing of its inside is read here
/// but through the functions below.
#[verifier::external_type_specification]
#[verifier::external_body]
pub struct ExDefaultNla(DefaultNla);

/// The kind, flags included, that a `DefaultNla` of `netlink_packet_utils`
/// holds: what its `kind` returns.
pub uninterp spec fn default_nla_kind(nla: DefaultNla) -> u16;

/// The bytes that a `DefaultNla` of `netlink_packet_utils` holds: what its
/// `emit_value` writes.
pub uninterp spec fn default_nla_value(nla: DefaultNla) -> Seq<u8>;

/// A `DefaultNla` as the wire shows it.
pub open spec fn default_nla_view(nla: DefaultNla) -> NlaView {
    NlaView { kind: default_nla_kind(nla), value: default_nla_value(nla) }
}

/// `DefaultNla::new`: it stores the kind and the value as they are given.
#[verifier::external_body]
pub(crate) fn default_nla_new(kind: u16, value: Vec<u8>) -> (nla: DefaultNla)
    ensures
        default_nla_kind(nla) == kind,
        default_nla_value(nla) == value@,
{
    DefaultNla::new(kind, value)
}

/// `Clone::clone` of a `DefaultNla`, which the crate derives: the copy holds
/// the same kind and the same bytes.
pub assume_specification[ <DefaultNla as Clone>::clone ](nla: &DefaultNla) -> (copy: DefaultNla)
    ensures
        default_nla_kind(copy) == default_nla_kind(*nla),
        default_nla_value(copy) == default_nla_value(*nla),
;

/// `Nla::kind` of a `DefaultNla`: the kind that it stores.
#[verifier::external_body]
pub(crate) fn default_nla_get_kind(nla: &DefaultNla) -> (kind: u16)
    ensures
        kind == default_nla_kind(*nla),
{
    netlink_packet_utils::nla::Nla::kind(nla)
}

/// `Nla::value_len` of a `DefaultNla`: the number of bytes that it stores.
#[verifier::external_body]
pub(crate) fn default_nla_value_len(nla: &DefaultNla) -> (len: usize)
    ensures
        len == default_nla_value(*nla).len(),
{
    netlink_packet_utils::nla::Nla::value_len(nla)
}

/// `Nla::emit_value` of a `DefaultNla`: it copies the stored bytes over the
/// buffer, and panics unless the buffer has exactly their length.
#[verifier::external_body]
pub(crate) fn default_nla_emit_value(nla: &DefaultNla, buffer: &mut [u8])
    requires
        old(buffer).len() == default_nla_value(*nla).len(),
    ensures
        final(buffer)@ == default_nla_value(*nla),
{
    netlink_packet_utils::nla::Nla::emit_value(nla, buffer)
}

/// Keeps the attribute under `buf` whole, whatever its kind: the kind with
/// both flags, and a copy of the value.
pub fn parse_default_nla(buf: &NlaBuffer<'_>) -> (nla: DefaultNla)
    ensures
        default_nla_view(nla) == first_nla(buf@),
{
    let mut kind = buf.kind();
    if buf.network_byte_order_flag() {
        kind |= NLA_F_NET_BYTEORDER;
    }
    if buf.nested_flag() {
        kind |= NLA_F_NESTED;
    }
    proof {
        let raw = declared_kind(buf@);
        assert((raw & 0x3fff) | (raw & 0x4000) | (raw & 0x8000) == raw) by (bit_vector);
        assert(raw & 0x4000 == 0 || raw & 0x4000 == 0x4000) by (bit_vector);
        assert(raw & 0x8000 == 0 || raw & 0x8000 == 0x8000) by (bit_vector);
        assert((raw & 0x3fff) | 0 == raw & 0x3fff) by (bit_vector);
        assert(((raw & 0x3fff) | (raw & 0x4000)) | 0 == (raw & 0x3fff) | (raw & 0x4000))
            by (bit_vector);
    }
    default_nla_new(kind, slice_to_vec(buf.value()))
}

} // verus!
