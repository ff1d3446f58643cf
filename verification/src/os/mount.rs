//! Extensions of the mount builders, one module for each platform that has
//! any.
pub mod apple;
pub mod freebsd;
pub mod linux;
