//! Timing traces of a query-serving system: a typed trace tree read from
//! JSON, the time spent in sub-queries, and an indented text report; and the
//! log query that finds a slow query to trace.

pub mod json;
pub mod laws;
pub mod loki;
pub mod render;
pub mod timing;
pub mod trace;
pub mod endpoint;
