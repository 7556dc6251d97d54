//! The plan of an import: from the bytes of a table to the statements to emit,
//! in order, and the failure that ended the reading, if any.

use vstd::prelude::*;
use crate::digest::{content_hash, hash_content};
use crate::emit::{
    columns_triples,
    describe_columns,
    describe_document,
    describe_row,
    document_triples,
    row_triples,
    CsvDocument,
    DocumentView,
};
use crate::encoding::{check_utf8, guessed_utf8};
use crate::error::{Failure, ImportError};
use crate::header::{
    column_names,
    column_views,
    header_names_columns,
    names_of,
    resolve_columns,
    resolved_columns,
    ColumnView,
};
use crate::order::{sort_names, sorted_names};
use crate::reader::{
    csv_first_record,
    csv_records,
    read_first_record,
    read_records,
    record_views,
};
use crate::schema::{schema_triples, write_schema};
use crate::text::{lemma_flat_map_take_next, texts};
use crate::triple::{bound_for, emission_views, emit_to, Emission, EmissionView, Sink, TripleView};

verus! {

/// What an import comes to: the statements to hand to the sinks, in this
/// order, and the failure that ended it, if any. Statements that precede a
/// failure stand: nothing is taken back.
#[derive(Debug)]
pub struct ImportPlan {
    pub emissions: Vec<Emission>,
    pub failure: Option<ImportError>,
}

/// A plan, as specifications see it.
pub struct PlanView {
    pub emissions: Seq<EmissionView>,
    pub failure: Option<Failure>,
}

impl View for ImportPlan {
    type V = PlanView;

    open spec fn view(&self) -> PlanView {
        PlanView {
            emissions: emission_views(self.emissions@),
            failure: match self.failure {
                Some(error) => Some(error@),
                None => None,
            },
        }
    }
}

/// An import that failed before anything was stated.
pub open spec fn rejected(failure: Failure) -> PlanView {
    PlanView { emissions: Seq::empty(), failure: Some(failure) }
}

/// Whether a record was read and has one field per column.
pub open spec fn well_formed(record: Option<Seq<Seq<char>>>, width: nat) -> bool {
    record matches Some(fields) && fields.len() == width
}

/// The position of the first record, from `from` on, that is not well formed;
/// the number of records if there is none.
pub open spec fn first_bad_record(records: Seq<Option<Seq<Seq<char>>>>, width: nat, from: nat) -> nat
    decreases records.len() - from,
{
    if from >= records.len() || !well_formed(records[from as int], width) {
        from
    } else {
        first_bad_record(records, width, from + 1)
    }
}

/// The statements about the given rows, row after row.
pub open spec fn rows_triples(
    doc: DocumentView,
    columns: Seq<ColumnView>,
    column_hash: Seq<char>,
    rows: Seq<Option<Seq<Seq<char>>>>,
) -> Seq<TripleView> {
    rows.map_values(
        |row: Option<Seq<Seq<char>>>| row_triples(doc, columns, column_hash, row.unwrap()),
    ).flatten()
}

/// The failure that the record at `at` stands for, if there is such a record.
pub open spec fn failure_at(records: Seq<Option<Seq<Seq<char>>>>, width: nat, at: nat) -> Option<
    Failure,
> {
    if at >= records.len() {
        None
    } else {
        match records[at as int] {
            None => Some(Failure::Record { row: at }),
            Some(fields) => Some(
                Failure::UnequalLengths { row: at, expected: width, found: fields.len() },
            ),
        }
    }
}

/// The columns that the first record gives the table.
pub open spec fn planned_columns(doc: DocumentView, first_record: Seq<Seq<char>>) -> Seq<ColumnView> {
    resolved_columns(
        doc.schema_prefix,
        header_names_columns(doc.has_header, doc.skip_header),
        first_record,
    )
}

/// The column names in the order in which they are hashed.
pub open spec fn planned_sorted_names(doc: DocumentView, first_record: Seq<Seq<char>>) -> Seq<
    Seq<char>,
> {
    sorted_names(column_names(planned_columns(doc, first_record)))
}

/// The hash that identifies the table's set of columns.
pub open spec fn planned_column_hash(doc: DocumentView, first_record: Seq<Seq<char>>) -> Seq<char> {
    content_hash(planned_sorted_names(doc, first_record))
}

/// The schema for the table's set of columns.
pub open spec fn planned_schema(doc: DocumentView, first_record: Seq<Seq<char>>) -> Seq<TripleView> {
    schema_triples(
        doc.schema_prefix,
        planned_column_hash(doc, first_record),
        planned_sorted_names(doc, first_record),
    )
}

/// The statements that precede the rows.
pub open spec fn planned_preamble(
    doc: DocumentView,
    first_record: Seq<Seq<char>>,
    with_schema: bool,
) -> Seq<EmissionView> {
    bound_for(Sink::Data, document_triples(doc)) + bound_for(
        Sink::Data,
        columns_triples(doc, planned_columns(doc, first_record)),
    ) + (if with_schema {
        bound_for(Sink::Schema, planned_schema(doc, first_record))
    } else {
        Seq::empty()
    })
}

/// The statements about the rows that are read before the first failure.
pub open spec fn planned_rows(
    doc: DocumentView,
    first_record: Seq<Seq<char>>,
    records: Seq<Option<Seq<Seq<char>>>>,
) -> Seq<TripleView> {
    let good = first_bad_record(records, first_record.len(), 0);
    rows_triples(
        doc,
        planned_columns(doc, first_record),
        planned_column_hash(doc, first_record),
        records.take(good as int),
    )
}

/// What is to be emitted for a table whose first record and further records
/// are given.
///
/// Without a first record nothing is stated. Otherwise come the statements
/// about the table and its columns, then, if asked for, the schema, then the
/// rows up to the first record that is not well formed.
pub open spec fn emission_plan(
    doc: DocumentView,
    first_record: Seq<Seq<char>>,
    records: Seq<Option<Seq<Seq<char>>>>,
    with_schema: bool,
) -> PlanView {
    if first_record.len() == 0 {
        rejected(Failure::HeaderMissing)
    } else {
        PlanView {
            emissions: planned_preamble(doc, first_record, with_schema) + bound_for(
                Sink::Data,
                planned_rows(doc, first_record, records),
            ),
            failure: failure_at(
                records,
                first_record.len(),
                first_bad_record(records, first_record.len(), 0),
            ),
        }
    }
}

/// What is to be emitted for a table given as bytes.
///
/// Input whose leading bytes are not judged to be UTF-8 is rejected, and so is
/// input whose first record the reader fails on; in both cases nothing is
/// stated.
pub open spec fn import_plan(doc: DocumentView, content: Seq<u8>, with_schema: bool) -> PlanView {
    let has_headers = header_names_columns(doc.has_header, doc.skip_header);
    if !guessed_utf8(content) {
        rejected(Failure::Encoding)
    } else {
        match csv_first_record(content, has_headers) {
            None => rejected(Failure::Header),
            Some(first_record) => emission_plan(
                doc,
                first_record,
                csv_records(content, has_headers),
                with_schema,
            ),
        }
    }
}

proof fn lemma_first_bad_record(records: Seq<Option<Seq<Seq<char>>>>, width: nat, from: nat, at: nat)
    requires
        from <= at <= records.len(),
        forall|k: int| from <= k < at ==> well_formed(#[trigger] records[k], width),
        at < records.len() ==> !well_formed(records[at as int], width),
    ensures
        first_bad_record(records, width, from) == at,
    decreases at - from,
{
    if from < at {
        lemma_first_bad_record(records, width, from + 1, at);
    }
}

/// Plans the emissions for a table whose records have been read.
///
/// `first_record` is the first record of the input, `records` what the reader
/// yields after it, or from it on where it is data too. A failure of the reader
/// is passed on as it came.
pub fn plan_emissions(
    doc: &CsvDocument,
    first_record: &Vec<String>,
    records: Vec<Result<Vec<String>, csv::Error>>,
    with_schema: bool,
) -> (out: ImportPlan)
    ensures
        out@ == emission_plan(doc@, texts(first_record@), record_views(records@), with_schema),
        out.failure matches Some(ImportError::Record { row, cause }) ==> records@[row as int]
            == Err::<Vec<String>, csv::Error>(cause),
{
    let mut emissions: Vec<Emission> = Vec::new();
    if first_record.len() == 0 {
        assert(emission_views(emissions@) =~= Seq::<EmissionView>::empty());
        return ImportPlan { emissions, failure: Some(ImportError::HeaderMissing) };
    }
    let schema_prefix = doc.schema_prefix.as_str();
    let columns = resolve_columns(schema_prefix, doc.has_header && !doc.skip_header, first_record);
    let names = names_of(&columns);
    let sorted = sort_names(&names);
    let column_hash = hash_content(&sorted);

    emit_to(&mut emissions, Sink::Data, describe_document(doc));
    emit_to(&mut emissions, Sink::Data, describe_columns(doc, &columns));
    if with_schema {
        emit_to(
            &mut emissions,
            Sink::Schema,
            write_schema(schema_prefix, column_hash.as_str(), &sorted),
        );
    }
    let ghost all = record_views(records@);
    let ghost width = texts(first_record@).len();
    let ghost preamble = planned_preamble(doc@, texts(first_record@), with_schema);
    let ghost describe = |row: Option<Seq<Seq<char>>>|
        row_triples(doc@, column_views(columns@), column_hash@, row.unwrap());

    let count = records.len();
    let mut row: usize = 0;
    for record in it: records.into_iter()
        invariant
            it.seq() == records@,
            it.seq().len() == count,
            row == it.index(),
            all == record_views(records@),
            width == texts(first_record@).len(),
            width == columns@.len(),
            width > 0,
            preamble == planned_preamble(doc@, texts(first_record@), with_schema),
            column_views(columns@) == planned_columns(doc@, texts(first_record@)),
            column_hash@ == planned_column_hash(doc@, texts(first_record@)),
            describe == |row: Option<Seq<Seq<char>>>|
                row_triples(doc@, column_views(columns@), column_hash@, row.unwrap()),
            forall|k: int| 0 <= k < it.index() ==> well_formed(#[trigger] all[k], width),
            emission_views(emissions@) == preamble + bound_for(
                Sink::Data,
                all.take(it.index() as int).map_values(describe).flatten(),
            ),
    {
        let ghost at = it.index() as nat;
        match record {
            Err(cause) => {
                proof {
                    lemma_first_bad_record(all, width, 0, at);
                }
                return ImportPlan { emissions, failure: Some(ImportError::Record { row, cause }) };
            },
            Ok(fields) => {
                match describe_row(doc, &columns, column_hash.as_str(), &fields) {
                    None => {
                        proof {
                            lemma_first_bad_record(all, width, 0, at);
                        }
                        return ImportPlan {
                            emissions,
                            failure: Some(
                                ImportError::UnequalLengths {
                                    row,
                                    expected: columns.len(),
                                    found: fields.len(),
                                },
                            ),
                        };
                    },
                    Some(triples) => {
                        proof {
                            lemma_flat_map_take_next(all, describe, at as int);
                        }
                        emit_to(&mut emissions, Sink::Data, triples);
                    },
                }
            },
        }
        row = row + 1;
    }
    proof {
        lemma_first_bad_record(all, width, 0, all.len());
    }
    ImportPlan { emissions, failure: None }
}

/// Plans the import of a table given as the bytes of a comma-separated text.
///
/// The result holds the statements to hand to the data sink and, with
/// `with_schema`, to the schema sink, in the order in which they are to be
/// handed over, and the failure that ended the reading, if any.
pub fn plan_import(
    csv_name: String,
    content: &[u8],
    with_schema: bool,
    data_prefix: String,
    schema_prefix: String,
    has_header: bool,
    skip_header: bool,
) -> (out: ImportPlan)
    ensures
        out@ == import_plan(
            DocumentView {
                name: csv_name@,
                data_prefix: data_prefix@,
                schema_prefix: schema_prefix@,
                has_header,
                skip_header,
            },
            content@,
            with_schema,
        ),
{
    let doc = CsvDocument { name: csv_name, data_prefix, schema_prefix, has_header, skip_header };
    if !check_utf8(content) {
        let emissions: Vec<Emission> = Vec::new();
        assert(emission_views(emissions@) =~= Seq::<EmissionView>::empty());
        return ImportPlan { emissions, failure: Some(ImportError::Encoding) };
    }
    let has_headers = has_header && !skip_header;
    match read_first_record(content, has_headers) {
        Err(cause) => {
            let emissions: Vec<Emission> = Vec::new();
            assert(emission_views(emissions@) =~= Seq::<EmissionView>::empty());
            ImportPlan { emissions, failure: Some(ImportError::Header(cause)) }
        },
        Ok(first_record) => {
            let records = read_records(content, has_headers);
            plan_emissions(&doc, &first_record, records, with_schema)
        },
    }
}

} // verus!
