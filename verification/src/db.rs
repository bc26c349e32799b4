use vstd::prelude::*;

use crate::text::eq_either;
use crate::text::matches_either;

pub mod gluesql;
pub mod sqlite;
pub mod sqlite_raw;

verus! {

/// The display type of a result column. `Any` is the explicit
/// unknown/unresolved sentinel.
#[derive(Debug, PartialEq, Eq, Clone, Copy, Structural)]
pub enum Type {
    /// T
    Text,
    /// I
    Integer,
    /// R
    FloatingPoint,
    /// ?
    Any,
}

/// The type that a declared SQL type name resolves to: a fixed lookup,
/// folding upper- and lower-case spellings of each keyword together.
pub open spec fn spec_from_sql_type(s: Seq<char>) -> Option<Type> {
    if eq_either(s, "TEXT"@, "text"@) {
        Some(Type::Text)
    } else if eq_either(s, "INTEGER"@, "integer"@) {
        Some(Type::Integer)
    } else if eq_either(s, "FLOAT"@, "float"@) {
        Some(Type::FloatingPoint)
    } else {
        None
    }
}

/// The single-character code of each column type.
pub open spec fn spec_type_char(t: Type) -> char {
    match t {
        Type::Text => 'T',
        Type::Integer => 'I',
        Type::FloatingPoint => 'R',
        Type::Any => '?',
    }
}

/// The column type named by a single-character code; an unknown code is the
/// sentinel `Any`.
pub open spec fn spec_type_from_char(c: char) -> Option<Type> {
    if c == 'T' {
        Some(Type::Text)
    } else if c == 'I' {
        Some(Type::Integer)
    } else if c == 'R' {
        Some(Type::FloatingPoint)
    } else {
        Some(Type::Any)
    }
}

impl Type {
    /// Maps a declared SQL type name to a column type, accepting each
    /// keyword in upper or lower case, character by character.
    pub fn from_sql_type(value: &str) -> (r: Option<Type>)
        ensures
            r == spec_from_sql_type(value@),
    {
        proof {
            reveal_strlit("TEXT");
            reveal_strlit("text");
            reveal_strlit("INTEGER");
            reveal_strlit("integer");
            reveal_strlit("FLOAT");
            reveal_strlit("float");
        }
        if matches_either(value, "TEXT", "text") {
            Some(Type::Text)
        } else if matches_either(value, "INTEGER", "integer") {
            Some(Type::Integer)
        } else if matches_either(value, "FLOAT", "float") {
            Some(Type::FloatingPoint)
        } else {
            None
        }
    }

    /// The column type for a single-character code.
    pub fn from_char(value: char) -> (r: Option<Type>)
        ensures
            r == spec_type_from_char(value),
    {
        match value {
            'T' => Some(Type::Text),
            'I' => Some(Type::Integer),
            'R' => Some(Type::FloatingPoint),
            _ => Some(Type::Any),
        }
    }

    /// The single-character code of this column type.
    pub fn to_char(&self) -> (r: char)
        ensures
            r == spec_type_char(*self),
    {
        match self {
            Type::Text => 'T',
            Type::Integer => 'I',
            Type::FloatingPoint => 'R',
            Type::Any => '?',
        }
    }
}

/// The two character mappings invert each other: decoding the code of a
/// column type gives that type back.
pub proof fn lemma_type_char_round_trip(t: Type)
    ensures
        spec_type_from_char(spec_type_char(t)) == Some(t),
{
}

/// One result row: the display string of each cell, in column order.
#[derive(Debug, PartialEq, Eq, Clone)]
pub struct Row(pub Vec<String>);

/// The canonical outcome of one statement: a modification signal or a typed
/// row set.
#[derive(Debug, PartialEq, Eq, Clone)]
pub enum Output {
    StatementComplete(u64),
    Rows { types: Vec<Type>, rows: Vec<Row> },
}

/// The cells of a row set, flattened row by row into one sequence.
pub open spec fn flat_cells(rows: Seq<Vec<String>>) -> Seq<String>
    decreases rows.len(),
{
    if rows.len() == 0 {
        Seq::empty()
    } else {
        rows[0]@ + flat_cells(rows.skip(1))
    }
}

/// Flattens a row set value-wise: every cell, in row order then column
/// order — the shape in which a runner compares results written one value
/// per line.
pub fn flattened_cells(rows: &Vec<Vec<String>>) -> (r: Vec<String>)
    ensures
        r@ == flat_cells(rows@),
{
    let mut out: Vec<String> = Vec::new();
    let mut i: usize = 0;
    proof {
        assert(rows@.skip(0) =~= rows@);
    }
    while i < rows.len()
        invariant
            i <= rows@.len(),
            flat_cells(rows@) == out@ + flat_cells(rows@.skip(i as int)),
        decreases rows@.len() - i,
    {
        let ghost pre = out@;
        let ghost rest = rows@.skip(i as int);
        proof {
            assert(rest[0] == rows@[i as int]);
            assert(rest.skip(1) =~= rows@.skip(i as int + 1));
            assert(flat_cells(rest) == rows@[i as int]@ + flat_cells(rows@.skip(i as int + 1)));
        }
        let row = &rows[i];
        let mut j: usize = 0;
        while j < row.len()
            invariant
                j <= row@.len(),
                0 <= i < rows@.len(),
                row@ == rows@[i as int]@,
                out@ == pre + row@.take(j as int),
            decreases row@.len() - j,
        {
            let cell = row[j].clone();
            out.push(cell);
            proof {
                assert(pre + row@.take(j as int) + seq![row@[j as int]] =~= pre + row@.take(
                    j as int + 1,
                ));
            }
            j = j + 1;
        }
        proof {
            assert(row@.take(row@.len() as int) =~= row@);
            assert(pre + (rows@[i as int]@ + flat_cells(rows@.skip(i as int + 1))) =~= (pre
                + rows@[i as int]@) + flat_cells(rows@.skip(i as int + 1)));
        }
        i = i + 1;
    }
    proof {
        assert(flat_cells(rows@.skip(rows@.len() as int)) =~= Seq::<String>::empty());
        assert(out@ + Seq::<String>::empty() =~= out@);
    }
    out
}

/// A well-formed row set: every row is as wide as the type list.
pub open spec fn rows_well_formed(out: Output) -> bool {
    match out {
        Output::StatementComplete(_) => true,
        Output::Rows { types, rows } => forall|i: int|
            0 <= i < rows@.len() ==> #[trigger] rows@[i].0@.len() == types@.len(),
    }
}

} // verus!
