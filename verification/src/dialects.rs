//! The dialects that are made of another dialect's rules.

pub mod clickhouse;
pub mod sparksql;
pub mod sqlite;
