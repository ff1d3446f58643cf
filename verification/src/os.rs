//! Platform-specific extensions.
//!
//! What a platform offers beyond the common builders: its flags, its file
//! system types, its data. The meaning of each is the platform's; see its
//! manual pages.
pub mod mount;
