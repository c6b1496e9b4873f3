//! The backends.

pub mod hdfs;
pub mod oss;
