use vstd::prelude::*;

use crate::db::Output;
use crate::db::Row;
use crate::db::Type;
use crate::text::int_text;
use crate::text::nat_text;
use crate::text::i128_string;
use crate::text::u128_string;

verus! {

/// One engine value, materialized with the plain data the adapter reads: its
/// kind, and — for kinds that cannot be held directly here — the display
/// text the engine gives the value.
#[derive(Debug, PartialEq, Eq, Clone)]
pub enum Value {
    I8(i8),
    I16(i16),
    I32(i32),
    I64(i64),
    I128(i128),
    U8(u8),
    U16(u16),
    U32(u32),
    U64(u64),
    U128(u128),
    Bool(bool),
    /// A floating-point value, carried as its display text.
    Float(String),
    Str(String),
    Null,
    /// Any other engine value, carried as its display text.
    Other(String),
}

impl Value {
    /// A copy equal to this value.
    pub fn duplicate(&self) -> (r: Value)
        ensures
            r == *self,
    {
        match self {
            Value::I8(n) => Value::I8(*n),
            Value::I16(n) => Value::I16(*n),
            Value::I32(n) => Value::I32(*n),
            Value::I64(n) => Value::I64(*n),
            Value::I128(n) => Value::I128(*n),
            Value::U8(n) => Value::U8(*n),
            Value::U16(n) => Value::U16(*n),
            Value::U32(n) => Value::U32(*n),
            Value::U64(n) => Value::U64(*n),
            Value::U128(n) => Value::U128(*n),
            Value::Bool(b) => Value::Bool(*b),
            Value::Float(s) => Value::Float(s.clone()),
            Value::Str(s) => Value::Str(s.clone()),
            Value::Null => Value::Null,
            Value::Other(s) => Value::Other(s.clone()),
        }
    }
}

/// The column type that one non-null value announces: integer-like and
/// boolean values resolve to `Integer`, floating values to `FloatingPoint`,
/// text to `Text`, anything else to the sentinel `Any`.
pub open spec fn inferred_of(v: Value) -> Type {
    match v {
        Value::I8(_) => Type::Integer,
        Value::I16(_) => Type::Integer,
        Value::I32(_) => Type::Integer,
        Value::I64(_) => Type::Integer,
        Value::I128(_) => Type::Integer,
        Value::U8(_) => Type::Integer,
        Value::U16(_) => Type::Integer,
        Value::U32(_) => Type::Integer,
        Value::U64(_) => Type::Integer,
        Value::U128(_) => Type::Integer,
        Value::Bool(_) => Type::Integer,
        Value::Float(_) => Type::FloatingPoint,
        Value::Str(_) => Type::Text,
        Value::Null => Type::Any,
        Value::Other(_) => Type::Any,
    }
}

/// The type of column `col`, scanning rows from index `i` on: the first
/// present, non-null cell decides; a column with no such cell is `Any`.
pub open spec fn column_type_from(rows: Seq<Seq<Value>>, col: int, i: int) -> Type
    decreases rows.len() - i,
{
    if i < 0 || i >= rows.len() {
        Type::Any
    } else if col < rows[i].len() && !(rows[i][col] is Null) {
        inferred_of(rows[i][col])
    } else {
        column_type_from(rows, col, i + 1)
    }
}

/// The inferred type of column `col`: decided by the first non-null value,
/// scanning rows in order and skipping nulls and missing cells.
pub open spec fn column_type(rows: Seq<Seq<Value>>, col: int) -> Type {
    column_type_from(rows, col, 0)
}

/// The cell sequences of a list of rows.
pub open spec fn rows_view(rows: Seq<Vec<Value>>) -> Seq<Seq<Value>> {
    rows.map_values(|r: Vec<Value>| r@)
}

fn infer_column(rows: &Vec<Vec<Value>>, col: usize) -> (r: Type)
    ensures
        r == column_type(rows_view(rows@), col as int),
{
    let ghost vrows = rows_view(rows@);
    let mut i: usize = 0;
    while i < rows.len()
        invariant
            i <= rows@.len(),
            vrows == rows_view(rows@),
            vrows.len() == rows@.len(),
            forall|k: int| 0 <= k < rows@.len() ==> vrows[k] == rows@[k]@,
            column_type(vrows, col as int) == column_type_from(vrows, col as int, i as int),
        decreases rows@.len() - i,
    {
        let row = &rows[i];
        if col < row.len() {
            match &row[col] {
                Value::Null => {},
                v => {
                    return infer_value_kind(v);
                },
            }
        }
        i = i + 1;
    }
    Type::Any
}

fn infer_value_kind(v: &Value) -> (r: Type)
    ensures
        r == inferred_of(*v),
{
    match v {
        Value::Float(_) => Type::FloatingPoint,
        Value::Str(_) => Type::Text,
        Value::Null => Type::Any,
        Value::Other(_) => Type::Any,
        _ => Type::Integer,
    }
}

/// Derives a display type for each labelled column by scanning the emitted
/// values: the first non-null value of a column decides its type; a column
/// whose values are all null, or with no rows at all, resolves to `Any`.
pub fn infer_result_types(labels: &Vec<String>, rows: &Vec<Vec<Value>>) -> (r: Vec<Type>)
    ensures
        r@.len() == labels@.len(),
        forall|c: int| 0 <= c < labels@.len() ==> r@[c] == column_type(rows_view(rows@), c),
{
    let mut result: Vec<Type> = Vec::new();
    let mut c: usize = 0;
    while c < labels.len()
        invariant
            c <= labels@.len(),
            result@.len() == c,
            forall|k: int| 0 <= k < c ==> result@[k] == column_type(rows_view(rows@), k),
        decreases labels@.len() - c,
    {
        let t = infer_column(rows, c);
        result.push(t);
        c = c + 1;
    }
    result
}

proof fn lemma_all_null_from(rows: Seq<Seq<Value>>, col: int, i: int)
    requires
        forall|k: int| 0 <= k < rows.len() ==> col < #[trigger] rows[k].len() ==> rows[k][col] is Null,
    ensures
        column_type_from(rows, col, i) == Type::Any,
    decreases rows.len() - i,
{
    if 0 <= i && i < rows.len() {
        lemma_all_null_from(rows, col, i + 1);
    }
}

/// Resolving the type of an all-null column yields `Any`, over any number of
/// rows — including none at all.
pub proof fn lemma_all_null_column_is_any(rows: Seq<Seq<Value>>, col: int)
    requires
        forall|k: int| 0 <= k < rows.len() ==> col < #[trigger] rows[k].len() ==> rows[k][col] is Null,
    ensures
        column_type(rows, col) == Type::Any,
{
    lemma_all_null_from(rows, col, 0);
}

/// The display string of one engine value: integers and booleans as their
/// canonical text, text verbatim, null as the engine's placeholder.
pub open spec fn spec_value_text(v: Value) -> Seq<char> {
    match v {
        Value::I8(n) => int_text(n as int),
        Value::I16(n) => int_text(n as int),
        Value::I32(n) => int_text(n as int),
        Value::I64(n) => int_text(n as int),
        Value::I128(n) => int_text(n as int),
        Value::U8(n) => nat_text(n as nat),
        Value::U16(n) => nat_text(n as nat),
        Value::U32(n) => nat_text(n as nat),
        Value::U64(n) => nat_text(n as nat),
        Value::U128(n) => nat_text(n as nat),
        Value::Bool(b) => if b {
            "TRUE"@
        } else {
            "FALSE"@
        },
        Value::Float(s) => s@,
        Value::Str(s) => s@,
        Value::Null => "NULL"@,
        Value::Other(s) => s@,
    }
}

/// Materializes one engine value as its display string.
pub fn value_text(v: &Value) -> (r: String)
    ensures
        r@ == spec_value_text(*v),
{
    match v {
        Value::I8(n) => i128_string(*n as i128),
        Value::I16(n) => i128_string(*n as i128),
        Value::I32(n) => i128_string(*n as i128),
        Value::I64(n) => i128_string(*n as i128),
        Value::I128(n) => i128_string(*n),
        Value::U8(n) => u128_string(*n as u128),
        Value::U16(n) => u128_string(*n as u128),
        Value::U32(n) => u128_string(*n as u128),
        Value::U64(n) => u128_string(*n as u128),
        Value::U128(n) => u128_string(*n),
        Value::Bool(b) => if *b {
            "TRUE".to_owned()
        } else {
            "FALSE".to_owned()
        },
        Value::Float(s) => s.clone(),
        Value::Str(s) => s.clone(),
        Value::Null => "NULL".to_owned(),
        Value::Other(s) => s.clone(),
    }
}

/// One engine result payload: the uniform variant set that covers every
/// statement kind of the engine.
#[derive(Debug, PartialEq, Eq, Clone)]
pub enum Payload {
    Select { labels: Vec<String>, rows: Vec<Vec<Value>> },
    /// Rows given as label/value pairs, in column order within each row.
    SelectMap(Vec<Vec<(String, Value)>>),
    Insert(usize),
    Delete(usize),
    Update(usize),
    Create,
    DropTable(usize),
    AlterTable,
    CreateIndex,
    DropIndex,
    StartTransaction,
    Commit,
    Rollback,
    DropFunction,
    ShowVariable,
    ShowColumns,
}

/// The adapter's error taxonomy.
#[derive(Debug, PartialEq, Eq, Clone)]
pub enum Error {
    /// The engine rejected or failed the statement; its message is carried
    /// verbatim and never retried.
    Engine(String),
    /// The engine returned a result kind this adapter cannot translate.
    UnsupportedPayload,
    /// The engine returned other than exactly one payload for one statement.
    MultiplePayload(usize),
}

/// A payload that completes a statement without producing rows.
pub open spec fn is_statement_payload(p: Payload) -> bool {
    ||| p is Insert
    ||| p is Delete
    ||| p is Update
    ||| p is Create
    ||| p is DropTable
    ||| p is AlterTable
    ||| p is CreateIndex
    ||| p is DropIndex
    ||| p is StartTransaction
    ||| p is Commit
    ||| p is Rollback
    ||| p is DropFunction
}

/// The affected-row count one payload reports: the row-modifying payloads
/// carry one; every other kind — a drop-table's table tally included —
/// reports no row count, so it defaults to 0.
pub open spec fn payload_count(p: Payload) -> u64 {
    match p {
        Payload::Insert(n) => n as u64,
        Payload::Delete(n) => n as u64,
        Payload::Update(n) => n as u64,
        _ => 0u64,
    }
}

/// A payload kind the adapter cannot translate into either canonical
/// outcome.
pub open spec fn is_unsupported_payload(p: Payload) -> bool {
    p is ShowVariable || p is ShowColumns
}

/// The row set that a select payload becomes: one type per label,
/// inferred from the values, and every cell materialized as its display
/// string.
pub open spec fn select_output(labels: Seq<String>, vals: Seq<Seq<Value>>, out: Output) -> bool {
    match out {
        Output::Rows { types, rows } => {
            &&& types@ == Seq::new(labels.len(), |c: int| column_type(vals, c))
            &&& rows@.len() == vals.len()
            &&& forall|i: int| 0 <= i < vals.len() ==> #[trigger] rows@[i].0@.len() == vals[i].len()
            &&& forall|i: int, j: int|
                0 <= i < vals.len() && 0 <= j < vals[i].len() ==> #[trigger] rows@[i].0@[j]@
                    == spec_value_text(vals[i][j])
        },
        Output::StatementComplete(_) => false,
    }
}

/// The labels of a label/value row set: the keys of the first row, none
/// when there are no rows.
pub open spec fn map_labels(pairs: Seq<Vec<(String, Value)>>) -> Seq<String> {
    if pairs.len() == 0 {
        Seq::empty()
    } else {
        Seq::new(pairs[0]@.len(), |j: int| pairs[0]@[j].0)
    }
}

/// The values of a label/value row set, row by row.
pub open spec fn map_vals(pairs: Seq<Vec<(String, Value)>>) -> Seq<Seq<Value>> {
    Seq::new(pairs.len(), |i: int| Seq::new(pairs[i]@.len(), |j: int| pairs[i]@[j].1))
}

/// How one payload translates: selects become row sets, statement payloads
/// become a completion signal carrying the affected-row count they report
/// (0 where they report none), and the unsupported kinds are an error —
/// never a silently empty row set.
pub open spec fn payload_outcome(p: Payload, r: Result<Output, Error>) -> bool {
    match p {
        Payload::Select { labels, rows } => match r {
            Ok(out) => select_output(labels@, rows_view(rows@), out),
            Err(_) => false,
        },
        Payload::SelectMap(pairs) => match r {
            Ok(out) => select_output(map_labels(pairs@), map_vals(pairs@), out),
            Err(_) => false,
        },
        _ => if is_unsupported_payload(p) {
            r == Err::<Output, Error>(Error::UnsupportedPayload)
        } else {
            r == Ok::<Output, Error>(Output::StatementComplete(payload_count(p)))
        },
    }
}

/// A result kind the adapter cannot translate yields the adapter-level
/// error — never a silently empty row set.
pub proof fn lemma_unsupported_payload_is_error(p: Payload, r: Result<Output, Error>)
    requires
        is_unsupported_payload(p),
        payload_outcome(p, r),
    ensures
        r == Err::<Output, Error>(Error::UnsupportedPayload),
{
}

/// Every statement-style payload collapses to the same canonical outcome:
/// complete, carrying the affected-row count the payload reports.
pub proof fn lemma_statement_payload_completes(p: Payload, r: Result<Output, Error>)
    requires
        is_statement_payload(p),
        payload_outcome(p, r),
    ensures
        r == Ok::<Output, Error>(Output::StatementComplete(payload_count(p))),
{
}

fn rows_to_output(labels: &Vec<String>, rows: &Vec<Vec<Value>>) -> (out: Output)
    ensures
        select_output(labels@, rows_view(rows@), out),
{
    let types = infer_result_types(labels, rows);
    let mut out_rows: Vec<Row> = Vec::new();
    let mut i: usize = 0;
    while i < rows.len()
        invariant
            i <= rows@.len(),
            out_rows@.len() == i,
            forall|k: int|
                0 <= k < i ==> #[trigger] out_rows@[k].0@.len() == rows_view(rows@)[k].len(),
            forall|k: int, j: int|
                0 <= k < i && 0 <= j < rows_view(rows@)[k].len() ==> #[trigger] out_rows@[k].0@[j]@
                    == spec_value_text(rows_view(rows@)[k][j]),
        decreases rows@.len() - i,
    {
        let row = &rows[i];
        let mut cells: Vec<String> = Vec::new();
        let mut j: usize = 0;
        while j < row.len()
            invariant
                j <= row@.len(),
                cells@.len() == j,
                forall|l: int| 0 <= l < j ==> #[trigger] cells@[l]@ == spec_value_text(row@[l]),
            decreases row@.len() - j,
        {
            let s = value_text(&row[j]);
            cells.push(s);
            j = j + 1;
        }
        out_rows.push(Row(cells));
        i = i + 1;
    }
    proof {
        assert(types@ =~= Seq::new(labels@.len(), |c: int| column_type(rows_view(rows@), c)));
    }
    Output::Rows { types, rows: out_rows }
}

fn map_rows_to_output(pairs: &Vec<Vec<(String, Value)>>) -> (out: Output)
    ensures
        select_output(map_labels(pairs@), map_vals(pairs@), out),
{
    let mut labels: Vec<String> = Vec::new();
    if pairs.len() > 0 {
        let first = &pairs[0];
        let mut j: usize = 0;
        while j < first.len()
            invariant
                j <= first@.len(),
                labels@.len() == j,
                forall|l: int| 0 <= l < j ==> #[trigger] labels@[l] == first@[l].0,
            decreases first@.len() - j,
        {
            labels.push(first[j].0.clone());
            j = j + 1;
        }
    }
    let mut vals: Vec<Vec<Value>> = Vec::new();
    let mut i: usize = 0;
    while i < pairs.len()
        invariant
            i <= pairs@.len(),
            vals@.len() == i,
            forall|k: int| 0 <= k < i ==> #[trigger] vals@[k]@.len() == pairs@[k]@.len(),
            forall|k: int, j: int|
                0 <= k < i && 0 <= j < pairs@[k]@.len() ==> #[trigger] vals@[k]@[j]
                    == pairs@[k]@[j].1,
        decreases pairs@.len() - i,
    {
        let pair_row = &pairs[i];
        let mut row: Vec<Value> = Vec::new();
        let mut j: usize = 0;
        while j < pair_row.len()
            invariant
                j <= pair_row@.len(),
                row@.len() == j,
                forall|l: int| 0 <= l < j ==> #[trigger] row@[l] == pair_row@[l].1,
            decreases pair_row@.len() - j,
        {
            let v = pair_row[j].1.duplicate();
            row.push(v);
            j = j + 1;
        }
        vals.push(row);
        i = i + 1;
    }
    proof {
        assert(labels@ =~= map_labels(pairs@));
        assert(rows_view(vals@) =~~= map_vals(pairs@));
    }
    rows_to_output(&labels, &vals)
}

/// Translates a single engine payload into the canonical outcome.
pub fn translate_payload(payload: Payload) -> (r: Result<Output, Error>)
    ensures
        payload_outcome(payload, r),
{
    match payload {
        Payload::Select { labels, rows } => Ok(rows_to_output(&labels, &rows)),
        Payload::SelectMap(pairs) => Ok(map_rows_to_output(&pairs)),
        Payload::ShowVariable => Err(Error::UnsupportedPayload),
        Payload::ShowColumns => Err(Error::UnsupportedPayload),
        Payload::Insert(n) => Ok(Output::StatementComplete(n as u64)),
        Payload::Delete(n) => Ok(Output::StatementComplete(n as u64)),
        Payload::Update(n) => Ok(Output::StatementComplete(n as u64)),
        Payload::Create => Ok(Output::StatementComplete(0)),
        Payload::DropTable(_) => Ok(Output::StatementComplete(0)),
        Payload::AlterTable => Ok(Output::StatementComplete(0)),
        Payload::CreateIndex => Ok(Output::StatementComplete(0)),
        Payload::DropIndex => Ok(Output::StatementComplete(0)),
        Payload::StartTransaction => Ok(Output::StatementComplete(0)),
        Payload::Commit => Ok(Output::StatementComplete(0)),
        Payload::Rollback => Ok(Output::StatementComplete(0)),
        Payload::DropFunction => Ok(Output::StatementComplete(0)),
    }
}

/// Translates what the engine produced for one submitted statement. The
/// engine must hand back exactly one payload: anything else is an internal
/// invariant violation, reported as an error.
pub fn translate_payloads(payloads: Vec<Payload>) -> (r: Result<Output, Error>)
    ensures
        payloads@.len() != 1 ==> r == Err::<Output, Error>(
            Error::MultiplePayload(payloads@.len() as usize),
        ),
        payloads@.len() == 1 ==> payload_outcome(payloads@[0], r),
{
    if payloads.len() != 1 {
        return Err(Error::MultiplePayload(payloads.len()));
    }
    let mut payloads = payloads;
    match payloads.pop() {
        Some(p) => translate_payload(p),
        None => vstd::pervasive::unreached(),
    }
}

/// The live engine instance of one session: a moveable, non-duplicable
/// token. Exactly one exists per session; it is owned by the bridge at rest
/// and moved to one execution worker for the duration of a single
/// statement, then moved back.
#[derive(Debug)]
pub struct EngineHandle {}

impl EngineHandle {
    /// A fresh engine instance, with an empty schema.
    pub fn new() -> (r: EngineHandle) {
        EngineHandle {}
    }
}

/// What the execution worker hands back after running one statement: the
/// engine, if it could be reclaimed from the worker, and the payloads the
/// engine produced — or the engine's own error message.
pub struct WorkerReport {
    pub engine: Option<EngineHandle>,
    pub payloads: Result<Vec<Payload>, String>,
}

/// The execution bridge: owns the engine between statements, hands it to
/// one worker per statement, and restores it on every path.
pub struct GlueSQL {
    storage: Option<EngineHandle>,
    recovered: bool,
}

impl GlueSQL {
    /// Whether the bridge holds the engine, ready for the next statement.
    pub closed spec fn spec_has_engine(self) -> bool {
        self.storage is Some
    }

    /// The engine the bridge holds, if any.
    pub closed spec fn spec_engine(self) -> Option<EngineHandle> {
        self.storage
    }

    /// Whether the engine had to be replaced by a fresh, empty-schema
    /// instance at some point in this session.
    pub closed spec fn spec_recovered(self) -> bool {
        self.recovered
    }

    /// A bridge over a fresh in-memory engine instance.
    pub fn new_memory() -> (r: GlueSQL)
        ensures
            r.spec_has_engine(),
            !r.spec_recovered(),
    {
        GlueSQL { storage: Some(EngineHandle::new()), recovered: false }
    }

    pub fn has_engine(&self) -> (r: bool)
        ensures
            r == self.spec_has_engine(),
    {
        match &self.storage {
            Some(_) => true,
            None => false,
        }
    }

    /// Whether a worker failure forced an engine replacement earlier in the
    /// session: a reportable divergence, since every later statement runs
    /// against an empty schema.
    pub fn ownership_recovered(&self) -> (r: bool)
        ensures
            r == self.spec_recovered(),
    {
        self.recovered
    }

    /// Takes exclusive ownership of the engine out of the bridge, to hand
    /// to the execution worker for exactly one statement.
    pub fn begin_statement(&mut self) -> (r: EngineHandle)
        requires
            old(self).spec_has_engine(),
        ensures
            !final(self).spec_has_engine(),
            old(self).spec_engine() == Some(r),
            final(self).spec_recovered() == old(self).spec_recovered(),
    {
        match self.storage.take() {
            Some(h) => h,
            None => vstd::pervasive::unreached(),
        }
    }

    /// Restores engine ownership and translates what the worker produced.
    /// After this call the bridge holds exactly one engine again, on every
    /// path — success or failure, engine ownership is never lost and never
    /// duplicated. When the worker could not hand the engine back, a fresh
    /// instance replaces it and the recovery is recorded.
    pub fn finish_statement(&mut self, report: WorkerReport) -> (r: Result<Output, Error>)
        requires
            !old(self).spec_has_engine(),
        ensures
            final(self).spec_has_engine(),
            report.engine is Some ==> final(self).spec_engine() == report.engine
                && final(self).spec_recovered() == old(self).spec_recovered(),
            report.engine is None ==> final(self).spec_recovered(),
            match report.payloads {
                Ok(ps) => {
                    &&& ps@.len() == 1 ==> payload_outcome(ps@[0], r)
                    &&& ps@.len() != 1 ==> r == Err::<Output, Error>(
                        Error::MultiplePayload(ps@.len() as usize),
                    )
                },
                Err(m) => r == Err::<Output, Error>(Error::Engine(m)),
            },
    {
        match report.engine {
            Some(h) => {
                self.storage = Some(h);
            },
            None => {
                self.storage = Some(EngineHandle::new());
                self.recovered = true;
            },
        }
        match report.payloads {
            Ok(ps) => translate_payloads(ps),
            Err(m) => Err(Error::Engine(m)),
        }
    }
}

} // verus!
