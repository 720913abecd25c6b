//! Data types of JSON-RPC 2.0 messages and the rules that map them to and
//! from a JSON value tree.
//!
//! The library never touches the network or the filesystem: it builds
//! messages, encodes them to [`Json`] and decodes them back, with every rule
//! stated as a contract and proved.

pub mod error_code;
pub mod format_error;
pub mod id;
pub mod json;
pub mod laws;
pub mod members;
pub mod message;
pub mod version;

pub use error_code::ErrorCode;
pub use format_error::{Field, FormatError};
pub use id::Id;
pub use json::{Json, Number};
pub use version::V2_0;
pub use message::{Error, ErrorObject, Request, Result};
