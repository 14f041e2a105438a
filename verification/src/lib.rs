//! A codec between typed values and the tagged-union value tree of a
//! document datastore's wire API.
//!
//! [`datastore`] holds the value tree and its scalar wrappers, [`serde_ds`]
//! the two directions of the codec and the error type they share.

pub mod datastore;
pub mod serde_ds;
