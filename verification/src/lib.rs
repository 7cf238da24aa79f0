//! Installing workshop items without the workshop's own client.
//!
//! The library holds what an installation decides and computes, and leaves
//! every outside step (the network, the disk, the terminal) to its caller:
//!
//! - [`item_id`] reads an item identifier from a number or a workshop URL;
//! - [`remote`] describes the requests to the metadata service and to the
//!   download providers, reads their answers, and keeps the order in which
//!   the providers are tried;
//! - [`archive`] unpacks an archive held in memory and lays out what is
//!   written where, without the directory that wraps a whole archive;
//! - [`layout`] names the places on disk and words the manifest;
//! - [`install`] and [`remove`] say which outside step is due next, and
//!   what follows from how it went.

pub mod archive;
pub mod install;
pub mod item_id;
pub mod layout;
pub mod pattern;
pub mod remote;
pub mod remove;
pub mod text;
