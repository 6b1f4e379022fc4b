//! Structured error taxonomy: a schema model for tagged-union error types,
//! a validator, a generator that emits a classification routine as source
//! text, and the runtime `ErrorInfo` descriptor the routine constructs.

pub mod descriptor;
pub mod fingerprint;
pub mod generate;
pub mod schema;
pub mod status;

pub use descriptor::ErrorInfo;
pub use descriptor::ToErrorInfo;
pub use status::StatusParse;
