//! The attributes of a GTP tunnel device.

use crate::error::DecodeError;
use crate::nla::default_nla::{
    default_nla_emit_value, default_nla_get_kind, default_nla_value_len,
};
use crate::nla::{default_nla_view, parse_default_nla, Nla, NlaBuffer, NlaView};
use netlink_packet_utils::nla::DefaultNla;
use vstd::prelude::*;

verus! {

/// An attribute of a GTP tunnel device. No kind has a variant of its own
/// yet: each is kept whole in `Other`, and more variants may come.
#[derive(Debug, PartialEq, Eq)]
#[non_exhaustive]
pub enum InfoGtp {
    Other(DefaultNla),
}

impl Clone for InfoGtp {
    fn clone(&self) -> (copy: InfoGtp)
        ensures
            copy@ == self@,
    {
        match self {
            InfoGtp::Other(nla) => InfoGtp::Other(nla.clone()),
        }
    }
}

impl View for InfoGtp {
    type V = NlaView;

    open spec fn view(&self) -> NlaView {
        match self {
            InfoGtp::Other(nla) => default_nla_view(*nla),
        }
    }
}

impl Nla for InfoGtp {
    fn value_len(&self) -> (len: usize) {
        match self {
            Self::Other(nla) => default_nla_value_len(nla),
        }
    }

    fn emit_value(&self, buffer: &mut [u8]) {
        match self {
            Self::Other(nla) => default_nla_emit_value(nla, buffer),
        }
    }

    fn kind(&self) -> (kind: u16) {
        match self {
            Self::Other(nla) => default_nla_get_kind(nla),
        }
    }

    fn parse(buf: &NlaBuffer<'_>) -> (r: Result<InfoGtp, DecodeError>) {
        Ok(
            match buf.kind() {
                _ => Self::Other(parse_default_nla(buf)),
            },
        )
    }
}

} // verus!
