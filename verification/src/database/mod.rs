//! The records of the database that the library reads.

pub mod users;
