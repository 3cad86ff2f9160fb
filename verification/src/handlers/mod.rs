//! The operations of the library, one per endpoint.
//!
//! Each operation resolves the caller from the authorization header, asks
//! the access policy, and answers from a snapshot of the store. An operation
//! that changes the library changes nothing itself: it hands back the unit
//! of work and the blob steps that make the change.

pub mod audio;
pub mod playlist;
pub mod user;
