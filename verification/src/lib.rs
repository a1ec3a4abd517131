//! Connection settings, SQL parameters, migration steps and command
//! decisions of a tool that manages a Postgres database of collab updates.

pub mod port;
pub mod text;
pub mod hex;
pub mod entities;
pub mod postgres;
