//! Address messages: the fixed header of an address on an interface and the
//! attributes that follow it.

pub mod attribute;
pub mod header;
pub mod message;

pub use self::attribute::AddressAttribute;
pub use self::header::{AddressHeader, AddressMessageBuffer, ADDRESS_HEADER_LEN};
pub use self::message::{AddressMessage, AddressMessageView};
