//! Client-side driver core: request correlation over one transaction stream,
//! the transaction lifecycle, address translation and cluster failover.

pub mod address;
pub mod concept;
pub mod concept_manager;
pub mod correlator;
pub mod error;
pub mod failover;
pub mod request;
pub mod status;
pub mod text;
pub mod transaction;
pub mod user;

pub use address::Address;
pub use error::{ConnectionError, Error, InternalError, ServerError};

use vstd::prelude::*;

verus! {

/// Identifier that tags a request and its matching response on one stream.
pub type RequestID = u64;

} // verus!
