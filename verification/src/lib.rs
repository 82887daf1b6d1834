//! Key provisioning and command dispatch for the Obirt peer tunnel.
//!
//! The library decides; the host program performs. Nothing here touches the
//! file system or the network: the host reads what is on disk into a
//! [`record::KeyRecord`], lets [`keypair`] provision it, and writes the
//! result back. In the same way [`command::dispatch`] only selects what is
//! to be done; connecting, serving and printing are left to the host.

pub mod artifact;
pub mod command;
pub mod keys;
pub mod provision;
pub mod record;

pub use provision::keypair;
