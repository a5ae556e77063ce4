//! Link messages: the fixed header of a network interface and the
//! attributes that follow it.

pub mod attribute;
pub mod header;
pub mod link_info;
pub mod message;

pub use self::attribute::LinkAttribute;
pub use self::header::{LinkHeader, LinkMessageBuffer, LINK_HEADER_LEN};
pub use self::link_info::InfoGtp;
pub use self::message::{LinkMessage, LinkMessageView};
