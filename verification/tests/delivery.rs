use csv_rdf::error::{ErrorKind, ImportError};
use csv_rdf::import::import_csv;
use csv_rdf::literal::Literal;
use csv_rdf::plan::{plan_import, ImportPlan};
use csv_rdf::sink::{deliver, sink_outcome};
use csv_rdf::triple::{Emission, Sink, Triple};
use terminus_store::layer::{Layer, StringTriple};
use terminus_store::store::sync::{open_sync_memory_store, SyncStoreLayerBuilder};

const RDF_TYPE: &str = "http://www.w3.org/1999/02/22-rdf-syntax-ns#type";
const ROW_12: &str = "data:///CSVRow_7b52009b64fd0a2a49e6d8a939753077792b0554";
const CLASS_AB: &str = "schema:///CSVRow_da23614e02469a0d7c7bd1bdab5c9c474b1904dc";

fn new_builder() -> SyncStoreLayerBuilder {
    open_sync_memory_store().create_base_layer().unwrap()
}

fn run(
    content: &[u8],
    builder: &SyncStoreLayerBuilder,
    schema_builder: Option<&SyncStoreLayerBuilder>,
) -> Result<(), ImportError> {
    import_csv(
        "people".to_string(),
        content,
        builder,
        schema_builder,
        "data:///".to_string(),
        "schema:///".to_string(),
        true,
        false,
    )
}

fn text(value: &str) -> String {
    format!("\"{}\"^^'http://www.w3.org/2001/XMLSchema#string'", value)
}

#[test]
fn import_fills_the_data_builder() {
    let builder = new_builder();
    assert!(run(b"a,b\n1,2\n", &builder, None).is_ok());
    let layer = builder.commit().unwrap();
    assert_eq!(layer.triple_count(), 14);
    assert!(layer.string_triple_exists(&StringTriple::new_value(ROW_12, "schema:///a", &text("1"))));
    assert!(layer.string_triple_exists(&StringTriple::new_value(ROW_12, "schema:///b", &text("2"))));
    assert!(layer.string_triple_exists(&StringTriple::new_node(ROW_12, RDF_TYPE, CLASS_AB)));
    assert!(layer.string_triple_exists(&StringTriple::new_node(
        "data:///CSV_people",
        "schema:///csv_row",
        ROW_12
    )));
    assert!(layer.string_triple_exists(&StringTriple::new_value(
        "data:///CSV_people",
        "http://www.w3.org/2000/01/rdf-schema#label",
        "\"people\"@en"
    )));
    assert!(!layer.string_triple_exists(&StringTriple::new_node(
        "schema:///CSV",
        RDF_TYPE,
        "http://www.w3.org/2002/07/owl#Class"
    )));
}

#[test]
fn import_fills_the_schema_builder_when_there_is_one() {
    let builder = new_builder();
    let schema_builder = new_builder();
    assert!(run(b"a,b\n1,2\n", &builder, Some(&schema_builder)).is_ok());
    let layer = builder.commit().unwrap();
    let schema = schema_builder.commit().unwrap();
    assert_eq!(layer.triple_count(), 14);
    assert_eq!(schema.triple_count(), 44);
    assert!(schema.string_triple_exists(&StringTriple::new_node(
        CLASS_AB,
        "http://www.w3.org/2000/01/rdf-schema#subClassOf",
        "schema:///CSVRow"
    )));
    assert!(schema.string_triple_exists(&StringTriple::new_node(
        "schema:///column_a",
        "http://www.w3.org/2000/01/rdf-schema#domain",
        CLASS_AB
    )));
    assert!(schema.string_triple_exists(&StringTriple::new_value(
        "schema:///CSV",
        "http://www.w3.org/2000/01/rdf-schema#label",
        "\"CSV\"@en"
    )));
}

#[test]
fn importing_twice_leaves_the_schema_graph_unchanged() {
    let once = new_builder();
    assert!(run(b"a,b\n1,2\n", &new_builder(), Some(&once)).is_ok());
    let twice = new_builder();
    assert!(run(b"a,b\n1,2\n", &new_builder(), Some(&twice)).is_ok());
    assert!(run(b"a,b\n1,2\n", &new_builder(), Some(&twice)).is_ok());
    assert!(run(b"b,a\n7,8\n", &new_builder(), Some(&twice)).is_ok());
    let first = once.commit().unwrap();
    let second = twice.commit().unwrap();
    assert_eq!(first.triple_count(), 44);
    assert_eq!(second.triple_count(), 44);
    let statements: Vec<StringTriple> =
        first.triples().map(|t| first.id_triple_to_string(&t).unwrap()).collect();
    assert_eq!(statements.len(), 44);
    assert!(statements.iter().all(|t| second.string_triple_exists(t)));
}

#[test]
fn rejected_encoding_leaves_the_builders_empty() {
    let builder = new_builder();
    let schema_builder = new_builder();
    let outcome = run(b"nom,ville\nAndr\xe9,Orl\xe9ans\n", &builder, Some(&schema_builder));
    assert!(matches!(outcome, Err(ImportError::Encoding)));
    assert_eq!(builder.commit().unwrap().triple_count(), 0);
    assert_eq!(schema_builder.commit().unwrap().triple_count(), 0);
}

#[test]
fn committed_builder_refuses_and_ends_the_import() {
    let builder = new_builder();
    builder.commit().unwrap();
    let outcome = run(b"a,b\n1,2\n", &builder, None);
    match outcome {
        Err(error) => {
            assert_eq!(error.kind(), ErrorKind::Sink);
            assert!(matches!(error, ImportError::Sink(_)));
        }
        Ok(()) => panic!("a committed builder accepts nothing"),
    }
}

#[test]
fn refusal_by_the_schema_builder_keeps_what_the_data_builder_has() {
    let builder = new_builder();
    let schema_builder = new_builder();
    schema_builder.commit().unwrap();
    let outcome = run(b"a,b\n1,2\n", &builder, Some(&schema_builder));
    assert!(matches!(outcome, Err(ImportError::Sink(_))));
    let layer = builder.commit().unwrap();
    assert_eq!(layer.triple_count(), 10);
    assert!(!layer.string_triple_exists(&StringTriple::new_node(ROW_12, RDF_TYPE, CLASS_AB)));
}

#[test]
fn parse_failure_is_returned_after_the_rows_before_it() {
    let builder = new_builder();
    let outcome = run(b"a,b\n1,2\n3\n", &builder, None);
    match outcome {
        Err(error) => assert_eq!(error.kind(), ErrorKind::Parse),
        Ok(()) => panic!("the ragged row should end the import"),
    }
    let layer = builder.commit().unwrap();
    assert_eq!(layer.triple_count(), 14);
    assert!(layer.string_triple_exists(&StringTriple::new_value(ROW_12, "schema:///b", &text("2"))));
}

#[test]
fn empty_input_is_reported_as_missing_header() {
    let builder = new_builder();
    let outcome = run(b"", &builder, None);
    assert!(matches!(outcome, Err(ImportError::HeaderMissing)));
    assert_eq!(builder.commit().unwrap().triple_count(), 0);
}

#[test]
fn deliver_passes_schema_statements_over_without_a_schema_builder() {
    let plan = plan_import(
        "people".to_string(),
        b"a,b\n1,2\n",
        true,
        "data:///".to_string(),
        "schema:///".to_string(),
        true,
        false,
    );
    assert_eq!(plan.emissions.len(), 58);
    let builder = new_builder();
    let delivery = deliver(plan, &builder, None);
    assert!(delivery.outcome.is_ok());
    assert_eq!(delivery.accepted, 58);
    assert_eq!(builder.commit().unwrap().triple_count(), 14);
}

#[test]
fn deliver_returns_the_failure_of_the_plan() {
    let emission =
        Emission { sink: Sink::Data, triple: Triple::new_node("s", "p", "o") };
    let plan = ImportPlan {
        emissions: vec![emission],
        failure: Some(ImportError::UnequalLengths { row: 0, expected: 2, found: 1 }),
    };
    let builder = new_builder();
    let delivery = deliver(plan, &builder, None);
    assert_eq!(delivery.accepted, 1);
    assert!(matches!(
        delivery.outcome,
        Err(ImportError::UnequalLengths { row: 0, expected: 2, found: 1 })
    ));
    let layer = builder.commit().unwrap();
    assert!(layer.string_triple_exists(&StringTriple::new_node("s", "p", "o")));
}

#[test]
fn deliver_tells_nodes_from_values() {
    let builder = new_builder();
    let plan = ImportPlan {
        emissions: vec![
            Emission { sink: Sink::Data, triple: Triple::new_node("s", "p", "o") },
            Emission { sink: Sink::Data, triple: Triple::new_value("s", "q", Literal::english("o")) },
        ],
        failure: None,
    };
    let delivery = deliver(plan, &builder, None);
    assert!(delivery.outcome.is_ok());
    assert_eq!(delivery.accepted, 2);
    let layer = builder.commit().unwrap();
    assert!(layer.string_triple_exists(&StringTriple::new_node("s", "p", "o")));
    assert!(!layer.string_triple_exists(&StringTriple::new_value("s", "p", "o")));
    assert!(layer.string_triple_exists(&StringTriple::new_value("s", "q", "\"o\"@en")));
    assert!(!layer.string_triple_exists(&StringTriple::new_node("s", "q", "\"o\"@en")));
}

#[test]
fn sink_outcome_turns_a_refusal_into_a_sink_error() {
    assert!(sink_outcome(Ok(())).is_ok());
    let refusal = std::io::Error::new(std::io::ErrorKind::InvalidData, "closed");
    match sink_outcome(Err(refusal)) {
        Err(ImportError::Sink(cause)) => assert_eq!(cause.kind(), std::io::ErrorKind::InvalidData),
        other => panic!("unexpected outcome: {:?}", other),
    }
}

#[test]
fn deliver_counts_what_was_accepted_before_a_refusal() {
    let plan = plan_import(
        "people".to_string(),
        b"a,b\n1,2\n",
        true,
        "data:///".to_string(),
        "schema:///".to_string(),
        true,
        false,
    );
    let builder = new_builder();
    let schema_builder = new_builder();
    schema_builder.commit().unwrap();
    let delivery = deliver(plan, &builder, Some(&schema_builder));
    assert_eq!(delivery.accepted, 10);
    assert!(matches!(delivery.outcome, Err(ImportError::Sink(_))));
    assert_eq!(builder.commit().unwrap().triple_count(), 10);
}

#[test]
fn deliver_of_an_empty_plan_ends_as_the_plan() {
    let rejected = ImportPlan { emissions: vec![], failure: Some(ImportError::Encoding) };
    let builder = new_builder();
    builder.commit().unwrap();
    let delivery = deliver(rejected, &builder, None);
    assert_eq!(delivery.accepted, 0);
    assert!(matches!(delivery.outcome, Err(ImportError::Encoding)));
    let nothing = ImportPlan { emissions: vec![], failure: None };
    let delivery = deliver(nothing, &builder, None);
    assert_eq!(delivery.accepted, 0);
    assert!(delivery.outcome.is_ok());
}
