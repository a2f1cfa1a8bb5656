//! A single-process generator of 64-bit, time-ordered unique identifiers in
//! the Snowflake scheme: a millisecond timestamp offset against a configurable
//! epoch, a datacenter id, a worker id, and a per-millisecond sequence
//! counter, packed into one integer.

pub mod epoch;
pub mod layout;
pub mod snowflake;

pub use epoch::EpochRegister;
pub use epoch::ParseError;
pub use snowflake::Snowflake;
pub use snowflake::SnowflakeError;
