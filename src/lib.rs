//! A unified error type for the operations of a service client.
//!
//! Every failure that a remote call can meet (transport, credential
//! resolution, response decoding, or the remote service itself) is carried by
//! one enum, [`RusotoError`], so that callers can match on the kind of failure
//! without knowing each lower layer's own error type.

pub mod credential;
pub mod describe;
pub mod error;
pub mod laws;
pub mod parse;
pub mod request;

pub use credential::CredentialsError;
pub use describe::DescribeError;
pub use error::{ErrorSource, RusotoError, RusotoResult};
pub use parse::XmlParseError;
pub use request::{BufferedHttpResponse, HttpDispatchError};
