//! The attributes of an address message.

use crate::error::DecodeError;
use crate::nla::default_nla::{
    default_nla_emit_value, default_nla_get_kind, default_nla_value_len,
};
use crate::nla::{default_nla_view, parse_default_nla, Nla, NlaBuffer, NlaView};
use netlink_packet_utils::nla::DefaultNla;
use vstd::prelude::*;

verus! {

/// An attribute of an address. The kinds that have no variant of their own are
/// kept whole in `Other`, and more variants may come.
#[derive(Debug, PartialEq, Eq)]
#[non_exhaustive]
pub enum AddressAttribute {
    Other(DefaultNla),
}

impl Clone for AddressAttribute {
    fn clone(&self) -> (copy: AddressAttribute)
        ensures
            copy@ == self@,
    {
        match self {
            AddressAttribute::Other(nla) => AddressAttribute::Other(nla.clone()),
        }
    }
}

impl View for AddressAttribute {
    type V = NlaView;

    open spec fn view(&self) -> NlaView {
        match self {
            AddressAttribute::Other(nla) => default_nla_view(*nla),
        }
    }
}

impl Nla for AddressAttribute {
    fn value_len(&self) -> (len: usize) {
        match self {
            AddressAttribute::Other(nla) => default_nla_value_len(nla),
        }
    }

    fn kind(&self) -> (kind: u16) {
        match self {
            AddressAttribute::Other(nla) => default_nla_get_kind(nla),
        }
    }

    fn emit_value(&self, buffer: &mut [u8]) {
        match self {
            AddressAttribute::Other(nla) => default_nla_emit_value(nla, buffer),
        }
    }

    fn parse(buf: &NlaBuffer<'_>) -> (r: Result<AddressAttribute, DecodeError>) {
        Ok(AddressAttribute::Other(parse_default_nla(buf)))
    }
}

} // verus!
