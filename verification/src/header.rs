//! Resolves the columns of a table: their names, and the predicates that row
//! values are stated with.

use vstd::prelude::*;
use vstd::string::StringExecFns;
use crate::escape::{percent_encode, percent_encoded};
use crate::text::{decimal, decimal_string, texts};

verus! {

/// A column of the table, at its place in the file.
#[derive(Debug, Clone, PartialEq, Eq)]
pub struct Column {
    /// Position in the file, from zero.
    pub index: usize,
    /// The header text as it stands, or the position as a decimal numeral.
    pub name: String,
    /// The predicate that links a row to its value in this column.
    pub predicate_iri: String,
}

/// A column, as specifications see it.
pub struct ColumnView {
    pub index: nat,
    pub name: Seq<char>,
    pub predicate_iri: Seq<char>,
}

impl View for Column {
    type V = ColumnView;

    open spec fn view(&self) -> ColumnView {
        ColumnView {
            index: self.index as nat,
            name: self.name@,
            predicate_iri: self.predicate_iri@,
        }
    }
}

/// The columns held by a list.
pub open spec fn column_views(columns: Seq<Column>) -> Seq<ColumnView> {
    columns.map_values(|c: Column| c@)
}

/// Whether the first record names the columns: it does when the table has a
/// header and the header is not to be skipped.
pub open spec fn header_names_columns(has_header: bool, skip_header: bool) -> bool {
    has_header && !skip_header
}

/// The predicate of a column that its header names.
pub open spec fn named_predicate(schema_prefix: Seq<char>, field: Seq<char>) -> Seq<char> {
    schema_prefix + percent_encoded(field)
}

/// The predicate of a column known by its position only.
pub open spec fn positional_predicate(schema_prefix: Seq<char>, index: nat) -> Seq<char> {
    schema_prefix + "column_"@ + decimal(index)
}

/// The column at `index`, whose field in the first record is `field`.
pub open spec fn resolved_column(
    schema_prefix: Seq<char>,
    named: bool,
    index: nat,
    field: Seq<char>,
) -> ColumnView {
    if named {
        ColumnView { index, name: field, predicate_iri: named_predicate(schema_prefix, field) }
    } else {
        ColumnView {
            index,
            name: decimal(index),
            predicate_iri: positional_predicate(schema_prefix, index),
        }
    }
}

/// One column per field of the first record, in file order.
pub open spec fn resolved_columns(
    schema_prefix: Seq<char>,
    named: bool,
    first_record: Seq<Seq<char>>,
) -> Seq<ColumnView> {
    Seq::new(
        first_record.len(),
        |i: int| resolved_column(schema_prefix, named, i as nat, first_record[i]),
    )
}

/// The names of `columns`, in their order.
pub open spec fn column_names(columns: Seq<ColumnView>) -> Seq<Seq<char>> {
    columns.map_values(|c: ColumnView| c.name)
}

/// Resolves the columns of a table from its first record.
///
/// With `named`, each field of the record names a column. Without it the
/// record only tells how many columns there are, and each column is named by
/// its position.
pub fn resolve_columns(schema_prefix: &str, named: bool, first_record: &Vec<String>) -> (columns:
    Vec<Column>)
    ensures
        column_views(columns@) == resolved_columns(schema_prefix@, named, texts(first_record@)),
{
    let mut columns: Vec<Column> = Vec::new();
    let mut i: usize = 0;
    while i < first_record.len()
        invariant
            i <= first_record.len(),
            columns.len() == i,
            forall|k: int|
                0 <= k < i ==> (#[trigger] columns@[k])@ == resolved_column(
                    schema_prefix@,
                    named,
                    k as nat,
                    first_record@[k]@,
                ),
        decreases first_record.len() - i,
    {
        let mut predicate_iri = String::from_str(schema_prefix);
        let column = if named {
            let field = first_record[i].as_str();
            let escaped = percent_encode(field);
            predicate_iri.append(escaped.as_str());
            Column { index: i, name: String::from_str(field), predicate_iri }
        } else {
            let position = decimal_string(i);
            predicate_iri.append("column_");
            predicate_iri.append(position.as_str());
            Column { index: i, name: position, predicate_iri }
        };
        columns.push(column);
        i = i + 1;
    }
    columns
}

/// The names of `columns`, in their order.
pub fn names_of(columns: &Vec<Column>) -> (names: Vec<String>)
    ensures
        texts(names@) == column_names(column_views(columns@)),
{
    let mut names: Vec<String> = Vec::new();
    let mut i: usize = 0;
    while i < columns.len()
        invariant
            i <= columns.len(),
            names.len() == i,
            forall|k: int| 0 <= k < i ==> (#[trigger] names@[k])@ == columns@[k].name@,
        decreases columns.len() - i,
    {
        names.push(columns[i].name.clone());
        i = i + 1;
    }
    names
}

} // verus!
