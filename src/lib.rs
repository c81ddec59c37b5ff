//! Correlation-ID propagation: validated identifiers, their generation, the
//! configuration policy and the per-request resolution decisions of the
//! middleware that threads one identifier through a request.

pub mod correlation_id;
pub mod generator;
pub mod config;
pub mod middleware;
pub mod header;
pub mod scope;

pub use config::{Correlation, PolicyView};
pub use correlation_id::{CorrelationId, CorrelationIdError, is_visible_ascii};
pub use generator::{CorrelationIdGenerator, UuidCorrelationIdGenerator};
pub use header::CorrelationIdHeader;
pub use scope::{CorrelationIdExtract, RequestScope};
pub use middleware::{
    Rejection, Status, response_header, try_generate_correlation_id,
    try_header_value_to_correlation_id, try_obtain_correlation_id,
};
