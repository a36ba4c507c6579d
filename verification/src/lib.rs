//! Declarative sync of SQL function definitions and row-level-security
//! policies against a database: validate source statements against schema
//! allow-lists, plan the drops of existing catalog objects, and order the
//! whole run so that it can be applied atomically in one transaction.

pub mod catalog;
pub mod collect;
pub mod errors;
pub mod order;
pub mod report;
pub mod run;
pub mod statement;
pub mod strutil;
