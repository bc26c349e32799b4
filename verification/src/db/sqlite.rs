use vstd::prelude::*;

use crate::db::Output;
use crate::db::Row;
use crate::db::Type;
use crate::db::rows_well_formed;
use crate::db::spec_from_sql_type;
use crate::error::LogicTestError;
use crate::text::eq_either;
use crate::text::i128_string;
use crate::text::int_text;
use crate::text::matches_either;
use rusqlite::types::ValueRef;

verus! {

/// This adapter's error kinds.
#[derive(Debug, PartialEq, Eq, Clone)]
pub enum Error {
    /// The underlying engine rejected or failed a statement: its message,
    /// surfaced verbatim and never retried.
    Sqlite(String),
    /// The statement holds no token at all.
    EmptyQuery,
    /// A fetched cell did not match its column's resolved type.
    CellType { column: usize },
}

/// Whether a statement reads rows or performs an effect.
#[derive(Debug, PartialEq, Eq, Clone, Copy, Structural)]
pub enum Query {
    /// A select-style statement: expects rows.
    Query,
    /// Anything else: expects a modification count.
    Execute,
}

/// ASCII whitespace, as used to find the statement's first token.
pub open spec fn is_space(c: char) -> bool {
    c == ' ' || c == '\t' || c == '\n' || c == '\r'
}

/// Whether the text's first token is the read keyword: its six
/// characters, each accepted in upper or lower case, followed by
/// whitespace or the end of the text.
pub open spec fn select_prefix(s: Seq<char>) -> bool {
    &&& s.len() >= 6
    &&& eq_either(s.subrange(0, 6), "SELECT"@, "select"@)
    &&& (s.len() == 6 || is_space(s[6]))
}

/// Lexical statement classification: the first whitespace-delimited token,
/// case-folded, decides — the read keyword makes a read, any other token an
/// effect, and a statement with no token at all is nothing.
pub open spec fn spec_classify(s: Seq<char>) -> Option<Query>
    decreases s.len(),
{
    if s.len() == 0 {
        None
    } else if is_space(s[0]) {
        spec_classify(s.skip(1))
    } else if select_prefix(s) {
        Some(Query::Query)
    } else {
        Some(Query::Execute)
    }
}

/// A statement classifies as nothing exactly when it holds no token at
/// all: every character is whitespace.
pub proof fn lemma_classify_none_iff_blank(s: Seq<char>)
    ensures
        spec_classify(s) is None <==> (forall|i: int|
            0 <= i < s.len() ==> is_space(#[trigger] s[i])),
    decreases s.len(),
{
    if s.len() == 0 {
    } else if is_space(s[0]) {
        lemma_classify_none_iff_blank(s.skip(1));
        assert(forall|i: int| 0 <= i < s.skip(1).len() ==> #[trigger] s.skip(1)[i] == s[i + 1]);
        if spec_classify(s) is None {
            assert forall|i: int| 0 <= i < s.len() implies is_space(#[trigger] s[i]) by {
                if i > 0 {
                    assert(s.skip(1)[i - 1] == s[i]);
                    assert(is_space(s.skip(1)[i - 1]));
                }
            }
        } else {
            if forall|i: int| 0 <= i < s.len() ==> is_space(#[trigger] s[i]) {
                assert forall|i: int|
                    0 <= i < s.skip(1).len() implies is_space(#[trigger] s.skip(1)[i]) by {
                    assert(s.skip(1)[i] == s[i + 1]);
                }
            }
        }
    } else {
        assert(!is_space(s[0]));
    }
}

fn is_space_char(c: char) -> (r: bool)
    ensures
        r == is_space(c),
{
    c == ' ' || c == '\t' || c == '\n' || c == '\r'
}

impl Query {
    /// Classifies one statement lexically.
    pub fn classify(sql: &str) -> (r: Option<Query>)
        ensures
            r == spec_classify(sql@),
    {
        let n: usize = sql.unicode_len();
        let mut i: usize = 0;
        proof {
            assert(sql@.skip(0) =~= sql@);
        }
        while i < n && is_space_char(sql.get_char(i))
            invariant
                i <= n,
                n == sql@.len(),
                spec_classify(sql@) == spec_classify(sql@.skip(i as int)),
            decreases n - i,
        {
            proof {
                assert(sql@.skip(i as int).skip(1) =~= sql@.skip(i as int + 1));
            }
            i = i + 1;
        }
        if i >= n {
            proof {
                assert(sql@.skip(i as int).len() == 0);
            }
            return None;
        }
        let ghost rest = sql@.skip(i as int);
        proof {
            assert(rest[0] == sql@[i as int]);
        }
        if n - i >= 6 {
            let prefix = sql.substring_char(i, i + 6);
            proof {
                reveal_strlit("SELECT");
                reveal_strlit("select");
                assert(prefix@ =~= rest.subrange(0, 6));
            }
            if matches_either(prefix, "SELECT", "select") {
                if i + 6 == n {
                    Some(Query::Query)
                } else {
                    proof {
                        assert(rest[6] == sql@[i + 6]);
                    }
                    if is_space_char(sql.get_char(i + 6)) {
                        Some(Query::Query)
                    } else {
                        Some(Query::Execute)
                    }
                }
            } else {
                Some(Query::Execute)
            }
        } else {
            proof {
                assert(rest.len() < 6);
            }
            Some(Query::Execute)
        }
    }
}

/// Relies on `rusqlite::Connection::open_in_memory`: opens a fresh,
/// empty in-memory database, or gives the engine's error message.
#[verifier::external_body]
fn open_in_memory() -> (r: Result<rusqlite::Connection, String>) {
    rusqlite::Connection::open_in_memory().map_err(|e| e.to_string())
}

/// Relies on `rusqlite::Connection::prepare`: compiles one SQL statement
/// against this connection, or gives the engine's error message.
#[verifier::external_body]
fn prepare<'conn>(conn: &'conn rusqlite::Connection, sql: &str) -> (r: Result<
    rusqlite::Statement<'conn>,
    String,
>) {
    conn.prepare(sql).map_err(|e| e.to_string())
}

/// Relies on `rusqlite::Statement::columns` and `Column::decl_type`: the
/// declared type text of each result column, in order, `None` for an
/// expression column.
#[verifier::external_body]
fn decl_types<'conn>(stmt: &rusqlite::Statement<'conn>) -> (r: Vec<Option<String>>) {
    stmt.columns().iter().map(|c| c.decl_type().map(|s| s.to_owned())).collect()
}

/// Relies on `rusqlite::Statement::execute` with no parameters: runs a
/// statement that modifies the database, or gives the engine's error
/// message.
#[verifier::external_body]
fn execute_stmt<'conn>(stmt: &mut rusqlite::Statement<'conn>) -> (r: Result<usize, String>) {
    stmt.execute([]).map_err(|e| e.to_string())
}

/// One fetched cell, as plain data: its storage kind, with a
/// floating-point value carried as its display text.
#[derive(Debug, PartialEq, Eq, Clone)]
pub enum CellValue {
    Null,
    Integer(i64),
    Real(String),
    Text(String),
    Blob(Vec<u8>),
}

/// Relies on the variants of `rusqlite::types::ValueRef`: one fetched
/// value, converted variant by variant to a plain cell (text decoded as
/// UTF-8, lossily; a floating-point value as its display text).
#[verifier::external_body]
fn cell_of(v: ValueRef<'_>) -> (r: CellValue) {
    match v {
        ValueRef::Null => CellValue::Null,
        ValueRef::Integer(n) => CellValue::Integer(n),
        ValueRef::Real(x) => CellValue::Real(x.to_string()),
        ValueRef::Text(t) => CellValue::Text(String::from_utf8_lossy(t).into_owned()),
        ValueRef::Blob(b) => CellValue::Blob(b.to_vec()),
    }
}

/// Relies on `rusqlite::Statement::query` (no parameters),
/// `rusqlite::Rows::next` and `rusqlite::Row::get_ref`: runs the statement
/// to completion, reading the first `width` columns of every row as plain
/// cells; the engine's error message on any engine error.
#[verifier::external_body]
fn fetch_rows<'conn>(stmt: &mut rusqlite::Statement<'conn>, width: usize) -> (r: Result<
    Vec<Vec<CellValue>>,
    String,
>)
    ensures
        r matches Ok(raw) ==> forall|i: int| 0 <= i < raw@.len() ==> #[trigger] raw@[i]@.len()
            == width,
{
    let mut rows = stmt.query([]).map_err(|e| e.to_string())?;
    let mut out = Vec::new();
    while let Some(row) = rows.next().map_err(|e| e.to_string())? {
        out.push(
            (0..width).map(|i| row.get_ref(i).map(cell_of).map_err(|e| e.to_string())).collect::<
                Result<Vec<CellValue>, String>,
            >()?,
        );
    }
    Ok(out)
}

/// The type a declared column resolves to: the fixed lookup over the
/// declared type text, with the sentinel `Any` for a missing or
/// unrecognized name.
pub open spec fn resolved_type(d: Option<String>) -> Type {
    match d {
        Some(s) => match spec_from_sql_type(s@) {
            Some(t) => t,
            None => Type::Any,
        },
        None => Type::Any,
    }
}

/// The declared type names that the fixed lookup does not recognize, in
/// order.
pub open spec fn unrecognized_names(decls: Seq<Option<String>>) -> Seq<String>
    decreases decls.len(),
{
    if decls.len() == 0 {
        Seq::empty()
    } else {
        match decls[0] {
            Some(s) => if spec_from_sql_type(s@) is None {
                seq![s] + unrecognized_names(decls.skip(1))
            } else {
                unrecognized_names(decls.skip(1))
            },
            None => unrecognized_names(decls.skip(1)),
        }
    }
}

/// Schema-introspection type resolution: maps each declared column type to
/// a column type, unrecognized or absent declarations to `Any`. Beside the
/// types it gives the unrecognized names: a warning-level diagnostic for
/// the caller to report, never a failure.
pub fn resolve_decl_types(decls: &Vec<Option<String>>) -> (r: (Vec<Type>, Vec<String>))
    ensures
        r.0@.len() == decls@.len(),
        forall|i: int| 0 <= i < decls@.len() ==> r.0@[i] == resolved_type(decls@[i]),
        r.1@ == unrecognized_names(decls@),
{
    let mut result: Vec<Type> = Vec::new();
    let mut warn: Vec<String> = Vec::new();
    let mut i: usize = 0;
    proof {
        assert(decls@.skip(0) =~= decls@);
    }
    while i < decls.len()
        invariant
            i <= decls@.len(),
            result@.len() == i,
            forall|k: int| 0 <= k < i ==> result@[k] == resolved_type(decls@[k]),
            unrecognized_names(decls@) == warn@ + unrecognized_names(decls@.skip(i as int)),
        decreases decls@.len() - i,
    {
        let ghost pre = warn@;
        let ghost rest = decls@.skip(i as int);
        proof {
            assert(rest[0] == decls@[i as int]);
            assert(rest.skip(1) =~= decls@.skip(i as int + 1));
        }
        let t = match &decls[i] {
            Some(s) => match Type::from_sql_type(s.as_str()) {
                Some(t) => t,
                None => {
                    warn.push(s.clone());
                    proof {
                        assert(unrecognized_names(rest) == seq![*s] + unrecognized_names(
                            rest.skip(1),
                        ));
                        assert(pre + (seq![*s] + unrecognized_names(decls@.skip(i as int + 1)))
                            =~= (pre + seq![*s]) + unrecognized_names(decls@.skip(i as int + 1)));
                        assert(warn@ =~= pre + seq![*s]);
                    }
                    Type::Any
                },
            },
            None => Type::Any,
        };
        proof {
            assert(unrecognized_names(decls@) == warn@ + unrecognized_names(
                decls@.skip(i as int + 1),
            ));
        }
        result.push(t);
        i = i + 1;
    }
    proof {
        assert(unrecognized_names(decls@.skip(decls@.len() as int)) =~= Seq::<String>::empty());
        assert(warn@ + Seq::<String>::empty() =~= warn@);
    }
    (result, warn)
}

/// Whether a fetched cell can be read at the column's resolved type.
pub open spec fn cell_matches(t: Type, c: CellValue) -> bool {
    match t {
        Type::Text => c is Text,
        Type::Any => c is Text,
        Type::Integer => c is Integer,
        Type::FloatingPoint => c is Real || c is Integer,
    }
}

/// The display string of a matching cell: text and floating-point display
/// text verbatim, an integer as its decimal text.
pub open spec fn spec_cell_text(c: CellValue) -> Seq<char> {
    match c {
        CellValue::Text(s) => s@,
        CellValue::Real(s) => s@,
        CellValue::Integer(n) => int_text(n as int),
        _ => Seq::<char>::empty(),
    }
}

/// Renders one cell at the column's resolved type, or reports the mismatch.
pub fn render_cell(t: Type, c: &CellValue, column: usize) -> (r: Result<String, Error>)
    ensures
        cell_matches(t, *c) ==> (r matches Ok(s) && s@ == spec_cell_text(*c)),
        !cell_matches(t, *c) ==> (r matches Err(e) && e == (Error::CellType { column })),
{
    match t {
        Type::Text => match c {
            CellValue::Text(s) => Ok(s.clone()),
            _ => Err(Error::CellType { column }),
        },
        Type::Any => match c {
            CellValue::Text(s) => Ok(s.clone()),
            _ => Err(Error::CellType { column }),
        },
        Type::Integer => match c {
            CellValue::Integer(n) => Ok(i128_string(*n as i128)),
            _ => Err(Error::CellType { column }),
        },
        Type::FloatingPoint => match c {
            CellValue::Real(s) => Ok(s.clone()),
            CellValue::Integer(n) => Ok(i128_string(*n as i128)),
            _ => Err(Error::CellType { column }),
        },
    }
}

/// The reference engine adapter: a synchronous in-process database behind
/// the same canonical outcome contract.
pub struct Sqlite {
    connection: rusqlite::Connection,
    unrecognized: Vec<String>,
}

impl Sqlite {
    /// The declared type names of the most recent read statement that the
    /// fixed lookup did not recognize.
    pub closed spec fn spec_unrecognized(self) -> Seq<String> {
        self.unrecognized@
    }

    /// An adapter over a fresh in-memory database, or the engine's error
    /// when one cannot be opened.
    pub fn new_memory() -> (r: Result<Sqlite, Error>)
        ensures
            r matches Ok(db) ==> db.spec_unrecognized() == Seq::<String>::empty(),
            r matches Err(e) ==> e is Sqlite,
    {
        match open_in_memory() {
            Ok(connection) => Ok(Sqlite { connection, unrecognized: Vec::new() }),
            Err(e) => Err(Error::Sqlite(e)),
        }
    }

    /// The declared type names of the most recent read statement that the
    /// fixed lookup did not recognize: the warning-level diagnostic,
    /// surfaced as data for the caller to report — resolution went on with
    /// the sentinel type, never a failure.
    pub fn unrecognized_decl_names(&self) -> (r: &Vec<String>)
        ensures
            r@ == self.spec_unrecognized(),
    {
        &self.unrecognized
    }

    /// Executes one statement: classifies it lexically, runs it, and for a
    /// read resolves each column's type from the declared schema before
    /// materializing the rows. The empty-statement error comes exactly when
    /// the statement holds no token at all; an effect completes with the
    /// changed-row count the engine reports.
    pub fn execute_inner(&mut self, sql: &str) -> (r: Result<Output, LogicTestError>)
        ensures
            spec_classify(sql@) is None <==> (r matches Err(e) && e == LogicTestError::Sqlite(
                Error::EmptyQuery,
            )),
            spec_classify(sql@) == Some(Query::Execute) && r is Ok ==> (r matches Ok(out)
                && out is StatementComplete),
            spec_classify(sql@) == Some(Query::Query) && r is Ok ==> (r matches Ok(out)
                && out is Rows && rows_well_formed(out)),
            !(spec_classify(sql@) == Some(Query::Query)) ==> final(self).spec_unrecognized()
                == old(self).spec_unrecognized(),
    {
        let query = match Query::classify(sql) {
            Some(q) => q,
            None => {
                return Err(LogicTestError::Sqlite(Error::EmptyQuery));
            },
        };
        let mut stmt = match prepare(&self.connection, sql) {
            Ok(s) => s,
            Err(e) => {
                return Err(LogicTestError::Sqlite(Error::Sqlite(e)));
            },
        };
        match query {
            Query::Query => {
                let decls = decl_types(&stmt);
                let (types, unrecognized) = resolve_decl_types(&decls);
                let r = parse_query(stmt, types);
                self.unrecognized = unrecognized;
                r
            },
            Query::Execute => {
                match execute_stmt(&mut stmt) {
                    Ok(count) => Ok(Output::StatementComplete(count as u64)),
                    Err(e) => Err(LogicTestError::Sqlite(Error::Sqlite(e))),
                }
            },
        }
    }
}

/// Whether every cell of the fetched rows matches its column's resolved
/// type.
pub open spec fn all_cells_match(types: Seq<Type>, raw: Seq<Vec<CellValue>>) -> bool {
    forall|i: int, j: int|
        0 <= i < raw.len() && 0 <= j < types.len() ==> cell_matches(types[j], #[trigger] raw[i]@[j])
}

/// Materializes fetched rows at their resolved column types: every cell
/// becomes its display string, and the first cell that cannot be read at
/// its column's type is an error.
pub fn assemble_rows(types: Vec<Type>, raw: &Vec<Vec<CellValue>>) -> (r: Result<Output, Error>)
    requires
        forall|i: int| 0 <= i < raw@.len() ==> #[trigger] raw@[i]@.len() == types@.len(),
    ensures
        all_cells_match(types@, raw@) ==> (r matches Ok(out) && out matches Output::Rows {
            types: t,
            rows,
        } && t == types && rows@.len() == raw@.len() && (forall|i: int, j: int|
            0 <= i < raw@.len() && 0 <= j < types@.len() ==> #[trigger] rows@[i].0@[j]@
                == spec_cell_text(raw@[i]@[j]))),
        !all_cells_match(types@, raw@) ==> (r matches Err(e) && e is CellType),
        r matches Ok(out) ==> out is Rows && rows_well_formed(out),
{
    let mut result: Vec<Row> = Vec::new();
    let mut i: usize = 0;
    while i < raw.len()
        invariant
            i <= raw@.len(),
            forall|k: int| 0 <= k < raw@.len() ==> #[trigger] raw@[k]@.len() == types@.len(),
            result@.len() == i,
            forall|k: int, j: int|
                0 <= k < i && 0 <= j < types@.len() ==> cell_matches(
                    types@[j],
                    #[trigger] raw@[k]@[j],
                ),
            forall|k: int| 0 <= k < i ==> #[trigger] result@[k].0@.len() == types@.len(),
            forall|k: int, j: int|
                0 <= k < i && 0 <= j < types@.len() ==> #[trigger] result@[k].0@[j]@
                    == spec_cell_text(raw@[k]@[j]),
        decreases raw@.len() - i,
    {
        let row = &raw[i];
        let mut cells: Vec<String> = Vec::new();
        let mut idx: usize = 0;
        while idx < types.len()
            invariant
                idx <= types@.len(),
                0 <= i < raw@.len(),
                row == raw@[i as int],
                row@.len() == types@.len(),
                cells@.len() == idx,
                forall|j: int| 0 <= j < idx ==> cell_matches(types@[j], #[trigger] row@[j]),
                forall|j: int| 0 <= j < idx ==> #[trigger] cells@[j]@ == spec_cell_text(row@[j]),
            decreases types@.len() - idx,
        {
            let text = match render_cell(types[idx], &row[idx], idx) {
                Ok(t) => t,
                Err(e) => {
                    proof {
                        assert(!cell_matches(types@[idx as int], raw@[i as int]@[idx as int]));
                        assert(!all_cells_match(types@, raw@));
                    }
                    return Err(e);
                },
            };
            cells.push(text);
            idx = idx + 1;
        }
        result.push(Row(cells));
        i = i + 1;
    }
    Ok(Output::Rows { types, rows: result })
}

/// Runs a read statement to completion at the given resolved column types:
/// fetches every row and materializes each cell at its column's type.
fn parse_query<'conn>(stmt: rusqlite::Statement<'conn>, types: Vec<Type>) -> (r: Result<
    Output,
    LogicTestError,
>)
    ensures
        r matches Ok(out) ==> out is Rows && rows_well_formed(out),
        r matches Err(e) ==> (e matches LogicTestError::Sqlite(se) && !(se is EmptyQuery)),
{
    let mut stmt = stmt;
    let raw = match fetch_rows(&mut stmt, types.len()) {
        Ok(raw) => raw,
        Err(e) => {
            return Err(LogicTestError::Sqlite(Error::Sqlite(e)));
        },
    };
    match assemble_rows(types, &raw) {
        Ok(out) => Ok(out),
        Err(e) => Err(LogicTestError::Sqlite(e)),
    }
}

} // verus!
