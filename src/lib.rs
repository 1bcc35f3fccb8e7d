//! Hardware temperature monitoring core: the connection cache, sensor
//! selection, the polling state machine and the request bridge that answers
//! display queries from the latest published readings.

pub mod metric;
pub mod message;
pub mod resolver;
pub mod actor;
pub mod bridge;
pub mod connection;
