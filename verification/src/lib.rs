//! Synchronises a local directory tree with the library artifacts of a
//! published release, accepting a local file only when its size and SHA-1
//! digest match what the release declares.
//!
//! The library decides and computes; it reads no file and sends no request.
//! [`machine::Synchronizer`] says, one action at a time, what is to be done
//! to the directory tree and asked of the remote source, and is told what
//! came of it. [`digest::Sha1Stream`] computes the digest of content that is
//! fed to it in chunks. [`world`] describes a directory tree and a remote
//! source, and [`guarantees`] proves what a synchronisation achieves in
//! them.

pub mod digest;
pub mod guarantees;
pub mod machine;
pub mod model;
pub mod protocol;
pub mod world;
