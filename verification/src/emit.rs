//! The statements about a table, its columns and its rows.

use vstd::prelude::*;
use vstd::string::StringExecFns;
use crate::digest::{content_hash, hash_content};
use crate::escape::{percent_encode, percent_encoded};
use crate::header::{column_views, Column, ColumnView};
use crate::literal::{english_literal, integer_literal, string_literal, Literal};
use crate::schema::{
    column_class,
    csv_class,
    csv_column_index_property,
    csv_column_name_property,
    csv_column_property,
    csv_row_property,
    row_class,
};
use crate::text::{lemma_flat_map_take_next, prefixed, texts};
use crate::triple::{node_triple, push_node, push_value, triple_views, value_triple, Triple, TripleView};
use crate::vocab::{RDFS_LABEL, RDF_TYPE};

verus! {

/// One table to import: its name, the prefixes of the identifiers made for it,
/// and how its first record is to be read.
#[derive(Debug, Clone, PartialEq, Eq)]
pub struct CsvDocument {
    /// The name that the caller gives the table.
    pub name: String,
    /// Prefix of the identifiers of the table, its column objects and its rows.
    pub data_prefix: String,
    /// Prefix of the identifiers of classes and properties.
    pub schema_prefix: String,
    /// Whether the first record is a header.
    pub has_header: bool,
    /// Whether the names in the header are to be passed over.
    pub skip_header: bool,
}

/// A table to import, as specifications see it.
pub struct DocumentView {
    pub name: Seq<char>,
    pub data_prefix: Seq<char>,
    pub schema_prefix: Seq<char>,
    pub has_header: bool,
    pub skip_header: bool,
}

impl View for CsvDocument {
    type V = DocumentView;

    open spec fn view(&self) -> DocumentView {
        DocumentView {
            name: self.name@,
            data_prefix: self.data_prefix@,
            schema_prefix: self.schema_prefix@,
            has_header: self.has_header,
            skip_header: self.skip_header,
        }
    }
}

/// The node that stands for the table called `name`.
pub open spec fn csv_node(data_prefix: Seq<char>, name: Seq<char>) -> Seq<char> {
    data_prefix + "CSV_"@ + percent_encoded(name)
}

/// The node that stands for the column `column_name` of the table `csv_name`.
pub open spec fn column_node(data_prefix: Seq<char>, csv_name: Seq<char>, column_name: Seq<char>) -> Seq<
    char,
> {
    data_prefix + "ColumnObject_"@ + percent_encoded(csv_name) + "_"@ + percent_encoded(column_name)
}

/// The node that stands for a row with the given field values.
pub open spec fn row_node(data_prefix: Seq<char>, fields: Seq<Seq<char>>) -> Seq<char> {
    data_prefix + "CSVRow_"@ + content_hash(fields)
}

/// The table is a CSV and carries its name as a label.
pub open spec fn document_triples(doc: DocumentView) -> Seq<TripleView> {
    let node = csv_node(doc.data_prefix, doc.name);
    seq![
        node_triple(node, RDF_TYPE@, csv_class(doc.schema_prefix)),
        value_triple(node, RDFS_LABEL@, english_literal(doc.name)),
    ]
}

/// The table has the column, and the column object has its position and name.
pub open spec fn column_triples(doc: DocumentView, column: ColumnView) -> Seq<TripleView> {
    let node = column_node(doc.data_prefix, doc.name, column.name);
    seq![
        node_triple(csv_node(doc.data_prefix, doc.name), csv_column_property(doc.schema_prefix), node),
        node_triple(node, RDF_TYPE@, column_class(doc.schema_prefix)),
        value_triple(
            node,
            csv_column_index_property(doc.schema_prefix),
            integer_literal(column.index),
        ),
        value_triple(node, csv_column_name_property(doc.schema_prefix), string_literal(column.name)),
    ]
}

/// The statements about all columns, in file order.
pub open spec fn columns_triples(doc: DocumentView, columns: Seq<ColumnView>) -> Seq<TripleView> {
    columns.map_values(|column: ColumnView| column_triples(doc, column)).flatten()
}

/// One statement per field: the row has the field's text under the predicate of
/// the column at the same position.
pub open spec fn field_triples(row: Seq<char>, columns: Seq<ColumnView>, fields: Seq<Seq<char>>) -> Seq<
    TripleView,
> {
    Seq::new(
        fields.len(),
        |i: int| value_triple(row, columns[i].predicate_iri, string_literal(fields[i])),
    )
}

/// The row belongs to its row class and to the table, and has its fields.
pub open spec fn row_triples(
    doc: DocumentView,
    columns: Seq<ColumnView>,
    column_hash: Seq<char>,
    fields: Seq<Seq<char>>,
) -> Seq<TripleView> {
    let row = row_node(doc.data_prefix, fields);
    seq![
        node_triple(row, RDF_TYPE@, row_class(doc.schema_prefix, column_hash)),
        node_triple(csv_node(doc.data_prefix, doc.name), csv_row_property(doc.schema_prefix), row),
    ] + field_triples(row, columns, fields)
}

/// The percent-encoded name of a table and the node that stands for the table.
pub fn csv_name_iri(csv_name: &str, data_prefix: &str) -> (pair: (String, String))
    ensures
        pair.0@ == percent_encoded(csv_name@),
        pair.1@ == csv_node(data_prefix@, csv_name@),
{
    let escaped = percent_encode(csv_name);
    let mut node = prefixed(data_prefix, "CSV_");
    node.append(escaped.as_str());
    (escaped, node)
}

/// The node that stands for the column `column_name` of the table `csv_name`.
pub fn column_node_iri(data_prefix: &str, csv_name: &str, column_name: &str) -> (node: String)
    ensures
        node@ == column_node(data_prefix@, csv_name@, column_name@),
{
    let mut node = prefixed(data_prefix, "ColumnObject_");
    node.append(percent_encode(csv_name).as_str());
    node.append("_");
    node.append(percent_encode(column_name).as_str());
    node
}

/// The node that stands for a row with the given field values. Rows with the
/// same values in the same order share one node, whatever table they are in.
pub fn row_node_iri(data_prefix: &str, fields: &Vec<String>) -> (node: String)
    ensures
        node@ == row_node(data_prefix@, texts(fields@)),
{
    let mut node = prefixed(data_prefix, "CSVRow_");
    node.append(hash_content(fields).as_str());
    node
}

/// States that the table is a CSV, and its name.
pub fn describe_document(doc: &CsvDocument) -> (out: Vec<Triple>)
    ensures
        triple_views(out@) == document_triples(doc@),
{
    let mut out: Vec<Triple> = Vec::new();
    let (_, node) = csv_name_iri(doc.name.as_str(), doc.data_prefix.as_str());
    let class = prefixed(doc.schema_prefix.as_str(), "CSV");
    push_node(&mut out, node.as_str(), RDF_TYPE, class.as_str());
    push_value(&mut out, node.as_str(), RDFS_LABEL, Literal::english(doc.name.as_str()));
    out
}

fn describe_column(out: &mut Vec<Triple>, doc: &CsvDocument, column: &Column)
    ensures
        triple_views(final(out)@) == triple_views(old(out)@) + column_triples(doc@, column@),
{
    let schema_prefix = doc.schema_prefix.as_str();
    let (_, csv) = csv_name_iri(doc.name.as_str(), doc.data_prefix.as_str());
    let node = column_node_iri(doc.data_prefix.as_str(), doc.name.as_str(), column.name.as_str());
    let has_column = prefixed(schema_prefix, "csv_column");
    let class = prefixed(schema_prefix, "Column");
    let has_index = prefixed(schema_prefix, "csv_column_index");
    let has_name = prefixed(schema_prefix, "csv_column_name");
    push_node(out, csv.as_str(), has_column.as_str(), node.as_str());
    push_node(out, node.as_str(), RDF_TYPE, class.as_str());
    push_value(out, node.as_str(), has_index.as_str(), Literal::integer(column.index));
    push_value(out, node.as_str(), has_name.as_str(), Literal::string(column.name.as_str()));
}

/// States, for each column in file order, that the table has it, and its
/// position and name.
pub fn describe_columns(doc: &CsvDocument, columns: &Vec<Column>) -> (out: Vec<Triple>)
    ensures
        triple_views(out@) == columns_triples(doc@, column_views(columns@)),
{
    let mut out: Vec<Triple> = Vec::new();
    let ghost all = column_views(columns@);
    let ghost describe = |column: ColumnView| column_triples(doc@, column);
    let mut i: usize = 0;
    while i < columns.len()
        invariant
            i <= columns.len(),
            all == column_views(columns@),
            describe == |column: ColumnView| column_triples(doc@, column),
            triple_views(out@) == all.take(i as int).map_values(describe).flatten(),
        decreases columns.len() - i,
    {
        proof {
            lemma_flat_map_take_next(all, describe, i as int);
        }
        describe_column(&mut out, doc, &columns[i]);
        i = i + 1;
    }
    assert(all.take(columns.len() as int) =~= all);
    out
}

/// States a row: its class, that the table has it, and each of its fields under
/// the predicate of the column at the same position.
///
/// Returns `None`, and states nothing, when the row does not have one field
/// per column.
pub fn describe_row(doc: &CsvDocument, columns: &Vec<Column>, column_hash: &str, fields: &Vec<String>) -> (out:
    Option<Vec<Triple>>)
    ensures
        out is Some <==> fields.len() == columns.len(),
        out matches Some(triples) ==> triple_views(triples@) == row_triples(
            doc@,
            column_views(columns@),
            column_hash@,
            texts(fields@),
        ),
{
    if fields.len() != columns.len() {
        return None;
    }
    let schema_prefix = doc.schema_prefix.as_str();
    let mut out: Vec<Triple> = Vec::new();
    let row = row_node_iri(doc.data_prefix.as_str(), fields);
    let (_, csv) = csv_name_iri(doc.name.as_str(), doc.data_prefix.as_str());
    let mut class = prefixed(schema_prefix, "CSVRow_");
    class.append(column_hash);
    let has_row = prefixed(schema_prefix, "csv_row");
    push_node(&mut out, row.as_str(), RDF_TYPE, class.as_str());
    push_node(&mut out, csv.as_str(), has_row.as_str(), row.as_str());

    let ghost head = triple_views(out@);
    let ghost values = field_triples(row@, column_views(columns@), texts(fields@));
    let mut i: usize = 0;
    while i < fields.len()
        invariant
            i <= fields.len(),
            fields.len() == columns.len(),
            values == field_triples(row@, column_views(columns@), texts(fields@)),
            triple_views(out@) == head + values.take(i as int),
        decreases fields.len() - i,
    {
        let value = Literal::string(fields[i].as_str());
        push_value(&mut out, row.as_str(), columns[i].predicate_iri.as_str(), value);
        i = i + 1;
    }
    Some(out)
}

} // verus!
