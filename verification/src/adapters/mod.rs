//! The computing parts of the infrastructure adapters: their configurations,
//! how HTTP requests are described, how SQL statements are formed and how
//! replies are read.

pub mod http;
pub mod postgres;
pub mod redis;

pub use self::http::HttpClientConfig;
pub use self::postgres::PostgresConfig;
pub use self::redis::RedisConfig;
