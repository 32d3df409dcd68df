//! Custody and transaction-signing bridge: account derivation from a remotely
//! held key, transaction construction, contract call encoding, and the
//! decision logic that drives oracle and chain requests one step at a time.

pub mod address;
pub mod codec;
pub mod digest;
pub mod encoding_laws;
pub mod endpoints;
pub mod errors;
pub mod keys;
pub mod laws;
pub mod pipeline;
pub mod primitives;
pub mod session;
pub mod transaction;
pub mod transport;
pub mod utils;

pub use address::AccountInfo;
pub use pipeline::step;
pub use transport::transform;
