//! The description of a table's shape: the classes and properties that the
//! statements about a table, its columns and its rows refer to.
//!
//! The row class is named after the hash of the sorted column names, so tables
//! with the same columns share one description.

use vstd::prelude::*;
use vstd::string::StringExecFns;
use crate::escape::{percent_encode, percent_encoded};
use crate::literal::{english_label, english_literal, quoted_list, quoted_list_of, Literal, LiteralView};
use crate::text::{lemma_flat_map_take_next, prefixed, texts};
use crate::triple::{node_triple, push_node, push_value, triple_views, value_triple, Triple, TripleView};
use crate::vocab::{
    OWL_CLASS,
    OWL_DATATYPE_PROPERTY,
    OWL_OBJECT_PROPERTY,
    RDFS_COMMENT,
    RDFS_DOMAIN,
    RDFS_LABEL,
    RDFS_RANGE,
    RDFS_SUB_CLASS_OF,
    RDF_TYPE,
    SYSTEM_DOCUMENT,
    XSD_INTEGER,
    XSD_STRING,
};

verus! {

/// The class of tables.
pub open spec fn csv_class(schema_prefix: Seq<char>) -> Seq<char> {
    schema_prefix + "CSV"@
}

/// The class of column objects.
pub open spec fn column_class(schema_prefix: Seq<char>) -> Seq<char> {
    schema_prefix + "Column"@
}

/// The property that links a table to a column object.
pub open spec fn csv_column_property(schema_prefix: Seq<char>) -> Seq<char> {
    schema_prefix + "csv_column"@
}

/// The property that gives a column object its position.
pub open spec fn csv_column_index_property(schema_prefix: Seq<char>) -> Seq<char> {
    schema_prefix + "csv_column_index"@
}

/// The property that gives a column object its name.
pub open spec fn csv_column_name_property(schema_prefix: Seq<char>) -> Seq<char> {
    schema_prefix + "csv_column_name"@
}

/// The class of all rows, whatever their columns.
pub open spec fn row_superclass(schema_prefix: Seq<char>) -> Seq<char> {
    schema_prefix + "CSVRow"@
}

/// The class of the rows whose sorted column names hash to `column_hash`.
pub open spec fn row_class(schema_prefix: Seq<char>, column_hash: Seq<char>) -> Seq<char> {
    schema_prefix + "CSVRow_"@ + column_hash
}

/// The property that links a table to a row.
pub open spec fn csv_row_property(schema_prefix: Seq<char>) -> Seq<char> {
    schema_prefix + "csv_row"@
}

/// The property declared for the column called `name`.
pub open spec fn column_property(schema_prefix: Seq<char>, name: Seq<char>) -> Seq<char> {
    schema_prefix + "column_"@ + percent_encoded(name)
}

/// The label of a row class.
pub open spec fn row_class_label(column_hash: Seq<char>) -> LiteralView {
    english_label("CSV Row "@ + column_hash)
}

/// The comment of a row class: it lists the column names.
pub open spec fn row_class_comment(sorted_names: Seq<Seq<char>>) -> LiteralView {
    english_literal("CSV Row object for columns "@ + quoted_list(sorted_names))
}

/// A class with its label and comment.
pub open spec fn class_declaration(class: Seq<char>, label: Seq<char>, comment: Seq<char>) -> Seq<
    TripleView,
> {
    seq![
        node_triple(class, RDF_TYPE@, OWL_CLASS@),
        value_triple(class, RDFS_LABEL@, english_label(label)),
        value_triple(class, RDFS_COMMENT@, english_label(comment)),
    ]
}

/// A property of the given kind with its label, comment, domain and range.
pub open spec fn property_declaration(
    property: Seq<char>,
    kind: Seq<char>,
    label: Seq<char>,
    comment: Seq<char>,
    domain: Seq<char>,
    range: Seq<char>,
) -> Seq<TripleView> {
    seq![
        node_triple(property, RDF_TYPE@, kind),
        value_triple(property, RDFS_LABEL@, english_label(label)),
        value_triple(property, RDFS_COMMENT@, english_label(comment)),
        node_triple(property, RDFS_DOMAIN@, domain),
        node_triple(property, RDFS_RANGE@, range),
    ]
}

/// The row class: a subclass of the class of all rows.
pub open spec fn row_class_declaration(
    schema_prefix: Seq<char>,
    column_hash: Seq<char>,
    sorted_names: Seq<Seq<char>>,
) -> Seq<TripleView> {
    let class = row_class(schema_prefix, column_hash);
    seq![
        node_triple(class, RDF_TYPE@, OWL_CLASS@),
        node_triple(class, RDFS_SUB_CLASS_OF@, row_superclass(schema_prefix)),
        value_triple(class, RDFS_LABEL@, row_class_label(column_hash)),
        value_triple(class, RDFS_COMMENT@, row_class_comment(sorted_names)),
    ]
}

/// The string-valued property of rows for the column called `name`.
pub open spec fn column_property_declaration(
    schema_prefix: Seq<char>,
    column_hash: Seq<char>,
    name: Seq<char>,
) -> Seq<TripleView> {
    property_declaration(
        column_property(schema_prefix, name),
        OWL_DATATYPE_PROPERTY@,
        "Column "@ + name,
        "CSV Column for header name "@ + name,
        row_class(schema_prefix, column_hash),
        XSD_STRING@,
    )
}

/// What is declared whatever the columns are: the classes of tables, of column
/// objects and of rows, and the properties that link a table to its columns.
pub open spec fn shared_declarations(schema_prefix: Seq<char>) -> Seq<TripleView> {
    let csv = csv_class(schema_prefix);
    let column = column_class(schema_prefix);
    class_declaration(csv, "CSV"@, "CSV object"@)
        + seq![node_triple(csv, RDFS_SUB_CLASS_OF@, SYSTEM_DOCUMENT@)]
        + class_declaration(column, "Column"@, "Column information object for a CSV"@)
        + property_declaration(
        csv_column_property(schema_prefix),
        OWL_OBJECT_PROPERTY@,
        "csv column"@,
        "Associates a CSV with a column object"@,
        csv,
        column,
    ) + property_declaration(
        csv_column_index_property(schema_prefix),
        OWL_DATATYPE_PROPERTY@,
        "csv column index"@,
        "The ordering index for a column in a csv"@,
        column,
        XSD_INTEGER@,
    ) + property_declaration(
        csv_column_name_property(schema_prefix),
        OWL_DATATYPE_PROPERTY@,
        "csv column index"@,
        "The name of the column as it was verbatim in the CSV"@,
        column,
        XSD_STRING@,
    ) + class_declaration(
        row_superclass(schema_prefix),
        "CSV Row"@,
        "Generic Row of a CSV file"@,
    )
}

/// What is declared for one set of columns: the row class, the property that
/// links a table to its rows, and one property per column name.
pub open spec fn row_declarations(
    schema_prefix: Seq<char>,
    column_hash: Seq<char>,
    sorted_names: Seq<Seq<char>>,
) -> Seq<TripleView> {
    row_class_declaration(schema_prefix, column_hash, sorted_names) + property_declaration(
        csv_row_property(schema_prefix),
        OWL_OBJECT_PROPERTY@,
        "csv row"@,
        "Connects a CSV to its rows"@,
        csv_class(schema_prefix),
        row_class(schema_prefix, column_hash),
    ) + sorted_names.map_values(
        |name: Seq<char>| column_property_declaration(schema_prefix, column_hash, name),
    ).flatten()
}

/// The whole description, in the order in which it is stated.
pub open spec fn schema_triples(
    schema_prefix: Seq<char>,
    column_hash: Seq<char>,
    sorted_names: Seq<Seq<char>>,
) -> Seq<TripleView> {
    shared_declarations(schema_prefix) + row_declarations(schema_prefix, column_hash, sorted_names)
}

fn declare_class(out: &mut Vec<Triple>, class: &str, label: &str, comment: &str)
    ensures
        triple_views(final(out)@) == triple_views(old(out)@) + class_declaration(
            class@,
            label@,
            comment@,
        ),
{
    push_node(out, class, RDF_TYPE, OWL_CLASS);
    push_value(out, class, RDFS_LABEL, Literal::label(label));
    push_value(out, class, RDFS_COMMENT, Literal::label(comment));
}

fn declare_property(
    out: &mut Vec<Triple>,
    property: &str,
    kind: &str,
    label: &str,
    comment: &str,
    domain: &str,
    range: &str,
)
    ensures
        triple_views(final(out)@) == triple_views(old(out)@) + property_declaration(
            property@,
            kind@,
            label@,
            comment@,
            domain@,
            range@,
        ),
{
    push_node(out, property, RDF_TYPE, kind);
    push_value(out, property, RDFS_LABEL, Literal::label(label));
    push_value(out, property, RDFS_COMMENT, Literal::label(comment));
    push_node(out, property, RDFS_DOMAIN, domain);
    push_node(out, property, RDFS_RANGE, range);
}

fn declare_shared(out: &mut Vec<Triple>, schema_prefix: &str)
    ensures
        triple_views(final(out)@) == triple_views(old(out)@) + shared_declarations(schema_prefix@),
{
    let csv = prefixed(schema_prefix, "CSV");
    let column = prefixed(schema_prefix, "Column");
    let csv_column = prefixed(schema_prefix, "csv_column");
    let csv_column_index = prefixed(schema_prefix, "csv_column_index");
    let csv_column_name = prefixed(schema_prefix, "csv_column_name");
    let row_super = prefixed(schema_prefix, "CSVRow");

    declare_class(out, csv.as_str(), "CSV", "CSV object");
    push_node(out, csv.as_str(), RDFS_SUB_CLASS_OF, SYSTEM_DOCUMENT);
    declare_class(
        out,
        column.as_str(),
        "Column",
        "Column information object for a CSV",
    );
    declare_property(
        out,
        csv_column.as_str(),
        OWL_OBJECT_PROPERTY,
        "csv column",
        "Associates a CSV with a column object",
        csv.as_str(),
        column.as_str(),
    );
    declare_property(
        out,
        csv_column_index.as_str(),
        OWL_DATATYPE_PROPERTY,
        "csv column index",
        "The ordering index for a column in a csv",
        column.as_str(),
        XSD_INTEGER,
    );
    declare_property(
        out,
        csv_column_name.as_str(),
        OWL_DATATYPE_PROPERTY,
        "csv column index",
        "The name of the column as it was verbatim in the CSV",
        column.as_str(),
        XSD_STRING,
    );
    declare_class(out, row_super.as_str(), "CSV Row", "Generic Row of a CSV file");
}

fn declare_row_class(
    out: &mut Vec<Triple>,
    schema_prefix: &str,
    column_hash: &str,
    sorted_column_names: &Vec<String>,
)
    ensures
        triple_views(final(out)@) == triple_views(old(out)@) + row_class_declaration(
            schema_prefix@,
            column_hash@,
            texts(sorted_column_names@),
        ),
{
    let mut class = prefixed(schema_prefix, "CSVRow_");
    class.append(column_hash);
    let row_super = prefixed(schema_prefix, "CSVRow");
    let label = prefixed("CSV Row ", column_hash);
    let names = quoted_list_of(sorted_column_names);
    let comment = prefixed("CSV Row object for columns ", names.as_str());

    push_node(out, class.as_str(), RDF_TYPE, OWL_CLASS);
    push_node(out, class.as_str(), RDFS_SUB_CLASS_OF, row_super.as_str());
    push_value(out, class.as_str(), RDFS_LABEL, Literal::label(label.as_str()));
    push_value(out, class.as_str(), RDFS_COMMENT, Literal::english(comment.as_str()));
}

fn declare_column_property(out: &mut Vec<Triple>, schema_prefix: &str, rows: &str, name: &str)
    ensures
        triple_views(final(out)@) == triple_views(old(out)@) + property_declaration(
            column_property(schema_prefix@, name@),
            OWL_DATATYPE_PROPERTY@,
            "Column "@ + name@,
            "CSV Column for header name "@ + name@,
            rows@,
            XSD_STRING@,
        ),
{
    let mut property = prefixed(schema_prefix, "column_");
    property.append(percent_encode(name).as_str());
    let label = prefixed("Column ", name);
    let comment = prefixed("CSV Column for header name ", name);
    declare_property(
        out,
        property.as_str(),
        OWL_DATATYPE_PROPERTY,
        label.as_str(),
        comment.as_str(),
        rows,
        XSD_STRING,
    );
}

/// States the description of a table's shape.
///
/// `column_hash` identifies the set of columns and `sorted_column_names` holds
/// their names in the order in which they were hashed. The statements come in
/// a fixed order: first what all tables share, then the row class of this set
/// of columns, then one property per column name.
pub fn write_schema(schema_prefix: &str, column_hash: &str, sorted_column_names: &Vec<String>) -> (out:
    Vec<Triple>)
    ensures
        triple_views(out@) == schema_triples(
            schema_prefix@,
            column_hash@,
            texts(sorted_column_names@),
        ),
{
    let mut out: Vec<Triple> = Vec::new();
    let ghost names = texts(sorted_column_names@);
    let ghost declare = |name: Seq<char>|
        column_property_declaration(schema_prefix@, column_hash@, name);

    declare_shared(&mut out, schema_prefix);
    declare_row_class(&mut out, schema_prefix, column_hash, sorted_column_names);

    let csv = prefixed(schema_prefix, "CSV");
    let csv_row = prefixed(schema_prefix, "csv_row");
    let mut rows = prefixed(schema_prefix, "CSVRow_");
    rows.append(column_hash);
    declare_property(
        &mut out,
        csv_row.as_str(),
        OWL_OBJECT_PROPERTY,
        "csv row",
        "Connects a CSV to its rows",
        csv.as_str(),
        rows.as_str(),
    );

    let ghost fixed = triple_views(out@);
    let mut i: usize = 0;
    while i < sorted_column_names.len()
        invariant
            i <= sorted_column_names.len(),
            names == texts(sorted_column_names@),
            declare == |name: Seq<char>|
                column_property_declaration(schema_prefix@, column_hash@, name),
            rows@ == row_class(schema_prefix@, column_hash@),
            triple_views(out@) == fixed + names.take(i as int).map_values(declare).flatten(),
        decreases sorted_column_names.len() - i,
    {
        proof {
            lemma_flat_map_take_next(names, declare, i as int);
        }
        declare_column_property(
            &mut out,
            schema_prefix,
            rows.as_str(),
            sorted_column_names[i].as_str(),
        );
        i = i + 1;
    }
    assert(names.take(sorted_column_names.len() as int) =~= names);
    out
}

} // verus!
