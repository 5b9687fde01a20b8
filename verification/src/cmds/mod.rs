//! The commands of the client, each with the metastore calls it makes.

pub mod catalogs;
pub mod databases;
pub mod partitions;
pub mod tables;
