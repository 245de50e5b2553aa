//! Snowflake-style 64-bit identifiers: a millisecond timestamp, a node
//! identifier and a per-node counter packed into one `i64`.
pub mod clock;
pub mod codec;
pub mod generator;
pub mod identifier;

pub use clock::{fsdkuid_get_current_unix_timestamp_milliseconds, ClockError};
pub use generator::FsdkUidGenerator;
pub use identifier::FsdkUid;
