//! Account logic of the aSim desktop backend: the stored shape of
//! authentication and profile records, password hashing, the decisions taken
//! on each database reply, and the polling and deletion state machines whose
//! I/O is driven by the surrounding application.

pub mod hex;
pub mod crypto;
pub mod date;
pub mod item;
pub mod models;
pub mod accounts;
pub mod tables;
pub mod deletion;
