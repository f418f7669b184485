//! Access to the embedded controller: the transfers, their encoding for each
//! way of access, and the reader, the writer and the manager that decide
//! which transfers are made.

pub mod ec_manager;
pub mod ec_rw;
pub mod fan;
pub mod raw_port;
pub mod read;
pub mod write;
