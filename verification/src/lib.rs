//! Cross-platform volume management.
//!
//! The crate describes how a volume is mounted and unmounted on Linux and
//! Android, FreeBSD, macOS and iOS, and Windows. A caller fills a builder,
//! and the builder yields the one native request that the attempt consists
//! of, with every argument in place. Issuing the request is left to the
//! program that embeds the crate; the outcome of a POSIX call is turned into
//! this crate's [`Error`] by [`error::into_result`].
//!
//! - [`mount`]: the builders and the platform backends
//! - [`os`]: platform-specific extensions of the builders
//! - [`device`]: what is known about one device
//! - [`watch`]: events about device changes
//! - [`common`]: text conversions shared by the backends
pub mod common;
pub mod device;
pub mod error;
pub mod mount;
pub mod os;
pub mod watch;

pub use error::{Error, Result};
