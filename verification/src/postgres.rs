//! The database tool: settings, SQL parameters, migrations and commands.

pub mod entities;
pub mod sql_ops;
pub mod migration;
pub mod cli;
