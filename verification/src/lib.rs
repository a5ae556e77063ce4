//! Encoding and decoding of the route-configuration messages that travel
//! over a kernel netlink transport: links and addresses, their fixed headers
//! and their extensible attributes.
//!
//! Every function here is verified against a contract stated over byte
//! sequences, so the wire format is part of the public interface.

pub mod address;
pub mod address_family_linux;
pub mod byte_order;
pub mod error;
pub mod link;
pub mod message;
pub mod nla;

pub use crate::address_family_linux::{AddressFamily, OpenCoded};
pub use crate::error::DecodeError;
pub use crate::message::{RouteNetlinkMessage, RouteNetlinkMessageBuffer, RouteNetlinkMessageView};
