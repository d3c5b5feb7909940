//! Schema elicitation and migration-file synthesis for a web project
//! scaffolder: a catalog of column types per SQL dialect, the DDL emitted for
//! each of them, an interactive column-definition state machine, and the
//! bookkeeping of timestamped migration directories.

pub mod text;
pub mod catalog;
pub mod ddl;
pub mod elicit;
pub mod migrations;
pub mod database;
pub mod executor;
