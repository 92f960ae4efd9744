//! A stateless signing service's core: how a payload selects one 32-byte
//! secret out of a sharded, file-backed store, and how a request for an
//! HMAC-SHA256 digest over that payload is answered.
//!
//! The library holds the decisions and the arithmetic. Reading files and
//! talking HTTP is left to the program around it, which hands plain values
//! in and gets plain values back.

pub mod config;
pub mod errors;
pub mod handler;
pub mod keyid;
pub mod layout;
pub mod mode;
pub mod model;
pub mod signing;
pub mod store;

pub use config::{get_addr, get_mode, get_secret_dir, DEFAULT_BIND};
pub use errors::{Error, SecretReadError, SigningError};
pub use handler::{step, Action, Event, Response, State};
pub use keyid::derive_key_id;
pub use layout::{locate_secret, shard_file_name, SecretFile, SecretLocation};
pub use mode::Mode;
pub use signing::{compute_hmac, select_secret, sign, Digest, Secret, MAX_PAYLOAD_LEN};
pub use store::{validate, Progress, SecretStore, Validation};
