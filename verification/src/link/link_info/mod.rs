//! What a link says about its own kind of device.

pub mod gtp;

pub use self::gtp::InfoGtp;
