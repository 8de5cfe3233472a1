//! A bulk outbound delivery engine: the job model, the per-target rate
//! limiter and block list, the query rewrite applied to each target, the
//! decisions of a connection actor, and the plan of the connection pool.
pub mod conn;
pub mod limiter;
pub mod query;
pub mod request;
pub mod topology;
