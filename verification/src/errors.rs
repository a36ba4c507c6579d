//! The fatal error taxonomy of a sync run. Every variant aborts the run; the
//! transaction is then rolled back, so the database is left unchanged.

use crate::statement::Error;
use vstd::prelude::*;

verus! {

/// Why a sync run was aborted. Each variant carries enough context to render
/// a diagnostic naming the file and statement at fault.
#[derive(Debug, PartialEq, Eq)]
pub enum SyncError {
    /// A statement in a function-category file failed validation.
    FunctionStatement { cause: Error, path: String, statement: String, schemas: Vec<String> },
    /// A statement in an RLS-category file failed validation.
    RlsStatement { cause: Error, path: String, statement: String, schemas: Vec<String> },
    /// The database rejected an apply statement; carries the offending file
    /// path, the raw statement text, and the database's own message.
    Execution { message: String, path: String, statement: String },
    /// The database rejected an introspection query, a drop statement, or
    /// the commit itself; carries the database's own message.
    Db { message: String },
}

} // verus!
