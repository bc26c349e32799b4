use vstd::prelude::*;

use crate::db::gluesql;
use crate::db::sqlite;

verus! {

/// The adapter-level error: every internal error kind normalized into one
/// type carrying the underlying cause.
#[derive(Debug)]
pub enum LogicTestError {
    Sqlite(sqlite::Error),
    GlueSQL(gluesql::Error),
}

} // verus!
