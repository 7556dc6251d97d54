//! What holds of every import, proved from the specifications of its parts.

use vstd::prelude::*;
use crate::emit::{
    column_node,
    column_triples,
    columns_triples,
    csv_node,
    document_triples,
    row_node,
    row_triples,
    DocumentView,
};
use crate::escape::{lemma_percent_encoded_chars, percent_encoded};
use crate::header::{column_names, header_names_columns, resolved_column, ColumnView};
use crate::plan::{
    emission_plan,
    import_plan,
    planned_column_hash,
    planned_columns,
    planned_rows,
    planned_schema,
};
use crate::literal::{english_label, string_literal};
use crate::order::lemma_sorted_names_of_permutation;
use crate::schema::{
    column_property,
    column_property_declaration,
    csv_column_name_property,
    csv_column_property,
    row_class,
};
use crate::triple::{
    bound_for,
    node_triple,
    statements_for,
    value_triple,
    EmissionView,
    ObjectView,
    Sink,
    TripleView,
};

verus! {

/// A graph after a sink has taken in `statements`: stating again what the graph
/// holds does not change it.
pub open spec fn graph_with(graph: Set<TripleView>, statements: Seq<TripleView>) -> Set<TripleView> {
    graph.union(statements.to_set())
}

/// Tables whose headers hold the same names, in whatever order, have the same
/// column hash. Under the same schema prefix they have the same row class and
/// the same schema.
pub proof fn lemma_header_order_does_not_change_schema(
    a: DocumentView,
    header_a: Seq<Seq<char>>,
    b: DocumentView,
    header_b: Seq<Seq<char>>,
)
    requires
        header_names_columns(a.has_header, a.skip_header),
        header_names_columns(b.has_header, b.skip_header),
        header_a.to_multiset() == header_b.to_multiset(),
    ensures
        planned_column_hash(a, header_a) == planned_column_hash(b, header_b),
        a.schema_prefix == b.schema_prefix ==> row_class(
            a.schema_prefix,
            planned_column_hash(a, header_a),
        ) == row_class(b.schema_prefix, planned_column_hash(b, header_b)),
        a.schema_prefix == b.schema_prefix ==> planned_schema(a, header_a) == planned_schema(
            b,
            header_b,
        ),
{
    assert(column_names(planned_columns(a, header_a)) =~= header_a);
    assert(column_names(planned_columns(b, header_b)) =~= header_b);
    lemma_sorted_names_of_permutation(header_a, header_b);
}

/// Whether every statement of `statements` is about `node`: has it as its
/// subject, or links another node to it.
pub open spec fn all_about(statements: Seq<TripleView>, node: Seq<char>) -> bool {
    forall|i: int|
        0 <= i < statements.len() ==> (#[trigger] statements[i]).subject == node
            || statements[i].object == ObjectView::Node(node)
}

/// A row's node is made of the data prefix and the row's field values alone:
/// the statements about a row with the same values are about the same node, in
/// whatever table the row stands and under whatever columns.
pub proof fn lemma_rows_are_content_addressed(
    a: DocumentView,
    columns_a: Seq<ColumnView>,
    hash_a: Seq<char>,
    b: DocumentView,
    columns_b: Seq<ColumnView>,
    hash_b: Seq<char>,
    fields: Seq<Seq<char>>,
)
    requires
        a.data_prefix == b.data_prefix,
    ensures
        all_about(row_triples(a, columns_a, hash_a, fields), row_node(a.data_prefix, fields)),
        all_about(row_triples(b, columns_b, hash_b, fields), row_node(a.data_prefix, fields)),
        row_triples(a, columns_a, hash_a, fields)[0].subject == row_triples(
            b,
            columns_b,
            hash_b,
            fields,
        )[0].subject,
{
}

proof fn lemma_statements_of_one_sink(sink: Sink, wanted: Sink, triples: Seq<TripleView>)
    ensures
        statements_for(wanted, bound_for(sink, triples)) == if sink == wanted {
            triples
        } else {
            Seq::empty()
        },
    decreases triples.len(),
{
    reveal(Seq::filter);
    let keep = |e: EmissionView| e.sink == wanted;
    let bound = bound_for(sink, triples);
    if triples.len() > 0 {
        lemma_statements_of_one_sink(sink, wanted, triples.drop_last());
        assert(bound.drop_last() =~= bound_for(sink, triples.drop_last()));
        if sink == wanted {
            assert(triples.drop_last().push(triples.last()) =~= triples);
        }
    }
}

proof fn lemma_statements_of_concat(wanted: Sink, a: Seq<EmissionView>, b: Seq<EmissionView>)
    ensures
        statements_for(wanted, a + b) == statements_for(wanted, a) + statements_for(wanted, b),
{
    let keep = |e: EmissionView| e.sink == wanted;
    Seq::filter_distributes_over_add(a, b, keep);
}

/// Of a planned import the schema sink receives the schema of the table's
/// columns when a schema is asked for, and nothing otherwise.
pub proof fn lemma_schema_sink_receives_schema(
    doc: DocumentView,
    first_record: Seq<Seq<char>>,
    records: Seq<Option<Seq<Seq<char>>>>,
    with_schema: bool,
)
    requires
        first_record.len() > 0,
    ensures
        statements_for(
            Sink::Schema,
            emission_plan(doc, first_record, records, with_schema).emissions,
        ) == if with_schema {
            planned_schema(doc, first_record)
        } else {
            Seq::empty()
        },
{
    let document = bound_for(Sink::Data, document_triples(doc));
    let columns = bound_for(
        Sink::Data,
        columns_triples(doc, planned_columns(doc, first_record)),
    );
    let schema = if with_schema {
        bound_for(Sink::Schema, planned_schema(doc, first_record))
    } else {
        Seq::empty()
    };
    let rows = bound_for(Sink::Data, planned_rows(doc, first_record, records));
    lemma_statements_of_one_sink(Sink::Data, Sink::Schema, document_triples(doc));
    lemma_statements_of_one_sink(
        Sink::Data,
        Sink::Schema,
        columns_triples(doc, planned_columns(doc, first_record)),
    );
    lemma_statements_of_one_sink(Sink::Schema, Sink::Schema, planned_schema(doc, first_record));
    lemma_statements_of_one_sink(Sink::Data, Sink::Schema, planned_rows(doc, first_record, records));
    lemma_statements_of_one_sink(Sink::Schema, Sink::Schema, Seq::empty());
    lemma_statements_of_concat(Sink::Schema, document, columns);
    lemma_statements_of_concat(Sink::Schema, document + columns, schema);
    lemma_statements_of_concat(Sink::Schema, document + columns + schema, rows);
}

/// Importing the same table a second time leaves the schema graph as the first
/// import left it: the second import states the same statements again.
pub proof fn lemma_repeated_import_keeps_schema_graph(
    graph: Set<TripleView>,
    doc: DocumentView,
    content: Seq<u8>,
    with_schema: bool,
)
    ensures
        ({
            let stated = statements_for(
                Sink::Schema,
                import_plan(doc, content, with_schema).emissions,
            );
            graph_with(graph_with(graph, stated), stated) == graph_with(graph, stated)
        }),
{
}

/// A table whose header holds the names of an earlier one, in whatever order,
/// adds nothing to the schema graph that the earlier import left.
pub proof fn lemma_same_columns_keep_schema_graph(
    graph: Set<TripleView>,
    a: DocumentView,
    header_a: Seq<Seq<char>>,
    records_a: Seq<Option<Seq<Seq<char>>>>,
    b: DocumentView,
    header_b: Seq<Seq<char>>,
    records_b: Seq<Option<Seq<Seq<char>>>>,
)
    requires
        a.schema_prefix == b.schema_prefix,
        header_names_columns(a.has_header, a.skip_header),
        header_names_columns(b.has_header, b.skip_header),
        header_a.to_multiset() == header_b.to_multiset(),
    ensures
        ({
            let first = statements_for(
                Sink::Schema,
                emission_plan(a, header_a, records_a, true).emissions,
            );
            let second = statements_for(
                Sink::Schema,
                emission_plan(b, header_b, records_b, true).emissions,
            );
            graph_with(graph_with(graph, first), second) == graph_with(graph, first)
        }),
{
    broadcast use vstd::seq_lib::group_to_multiset_ensures;

    assert(header_b.to_multiset().len() == header_b.len());
    if header_a.len() > 0 {
        lemma_header_order_does_not_change_schema(a, header_a, b, header_b);
        lemma_schema_sink_receives_schema(a, header_a, records_a, true);
        lemma_schema_sink_receives_schema(b, header_b, records_b, true);
    } else {
        reveal(Seq::filter);
    }
}

/// A name enters identifiers percent-encoded and literals as it stands.
///
/// The identifiers made from the name of a table or of a column hold the
/// name's percent-encoding, which has no space and no slash, nor any character
/// but ASCII letters, digits and `-._~%`. The literal that gives a column
/// object its name has the name itself as its text, and so has the label of
/// the column's property in the schema.
pub proof fn lemma_names_are_escaped_in_identifiers(
    doc: DocumentView,
    column_hash: Seq<char>,
    index: nat,
    field: Seq<char>,
)
    ensures
        ({
            let column = resolved_column(doc.schema_prefix, true, index, field);
            let stated = column_triples(doc, column);
            let declared = column_property_declaration(doc.schema_prefix, column_hash, field);
            let escaped_name = percent_encoded(doc.name);
            let escaped_field = percent_encoded(field);
            &&& !escaped_field.contains(' ') && !escaped_field.contains('/')
            &&& !escaped_name.contains(' ') && !escaped_name.contains('/')
            &&& column.predicate_iri == doc.schema_prefix + escaped_field
            &&& csv_node(doc.data_prefix, doc.name) == doc.data_prefix + "CSV_"@ + escaped_name
            &&& column_node(doc.data_prefix, doc.name, field) == doc.data_prefix
                + "ColumnObject_"@ + escaped_name + "_"@ + escaped_field
            &&& column_property(doc.schema_prefix, field) == doc.schema_prefix + "column_"@
                + escaped_field
            &&& stated[0] == node_triple(
                csv_node(doc.data_prefix, doc.name),
                csv_column_property(doc.schema_prefix),
                column_node(doc.data_prefix, doc.name, field),
            )
            &&& stated[3] == value_triple(
                column_node(doc.data_prefix, doc.name, field),
                csv_column_name_property(doc.schema_prefix),
                string_literal(field),
            )
            &&& string_literal(field).text == field
            &&& declared[0].subject == column_property(doc.schema_prefix, field)
            &&& declared[1].object == ObjectView::Literal(english_label("Column "@ + field))
            &&& english_label("Column "@ + field).text == "Column "@ + field
        }),
{
    lemma_percent_encoded_chars(field);
    lemma_percent_encoded_chars(doc.name);
}

} // verus!
