//! Byte-relay engine of a TCP reverse proxy: the token codec that routes
//! readiness events, the per-endpoint buffers with backpressure, and the
//! per-tick relay state machine of a connection.

pub mod connection;
pub mod endpoint;
pub mod token;

pub use connection::{Connection, DrainPlan, EndPointList, EndPointType};
pub use endpoint::{EndPoint, IoFailure, Readiness, BUFFER_SIZE};
pub use token::{IncomingToken, ListenerToken, OutgoingToken, TokenType};
