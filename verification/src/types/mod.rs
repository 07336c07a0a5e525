//! The data exchanged with the validator source, and the error type.

pub mod hypermon_error;
pub mod query;
pub mod validator;

pub use hypermon_error::{HypermonError, RpcFailure};
pub use query::Query;
pub use validator::Validator;
