//! The backends of the POSIX families.
pub mod apple;
pub mod freebsd;
pub mod linux;
