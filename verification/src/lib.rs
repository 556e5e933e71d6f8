//! Building blocks for the workload HTTP surface: the JSON error envelope
//! that every failing endpoint returns, and the conversion capability that
//! turns handler outcomes into concrete HTTP responses.

pub mod envelope;
pub mod response;

pub use envelope::ErrorResponse;
pub use response::IntoResponse;
