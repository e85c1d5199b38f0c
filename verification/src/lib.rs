//! Core of a dynamic DNS client for Cloudflare: it keeps configured DNS
//! records pointed at the machine's current public addresses.
//!
//! Nothing in this crate touches the network or the file system. A host
//! program looks the public address up, calls the provider and keeps the
//! cache file; it hands every outcome to the decision functions defined
//! here and does what they answer. Every function is verified against its
//! contract, and the laws that hold between them are proved beside them.
//!
//! - [`updater`] reconciles: one pass per address family, one task per
//!   record, over a shared cache of provider identifiers.
//! - [`cloudflare`] describes the provider's records and the calls made to it.
//! - [`config`] turns the configuration file's content into the records to
//!   keep up to date.
//! - [`service`] says what installing the client as a background service
//!   consists of.
//! - [`cli`] and [`addr`] hold the command line and the addresses as plain
//!   values.

pub mod addr;
pub mod cli;
pub mod cloudflare;
pub mod config;
pub mod service;
pub mod updater;
