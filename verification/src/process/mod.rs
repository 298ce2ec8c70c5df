//! Supervision of the child processes of a connection.

pub mod supervisor;
