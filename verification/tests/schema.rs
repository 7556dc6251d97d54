use csv_rdf::literal::{Literal, LiteralTag, Notation};
use csv_rdf::schema::write_schema;
use csv_rdf::triple::{Triple, TripleObject};

const RDF_TYPE: &str = "http://www.w3.org/1999/02/22-rdf-syntax-ns#type";
const LABEL: &str = "http://www.w3.org/2000/01/rdf-schema#label";
const COMMENT: &str = "http://www.w3.org/2000/01/rdf-schema#comment";
const DOMAIN: &str = "http://www.w3.org/2000/01/rdf-schema#domain";
const RANGE: &str = "http://www.w3.org/2000/01/rdf-schema#range";
const SUB_CLASS_OF: &str = "http://www.w3.org/2000/01/rdf-schema#subClassOf";
const CLASS: &str = "http://www.w3.org/2002/07/owl#Class";
const DATATYPE_PROPERTY: &str = "http://www.w3.org/2002/07/owl#DatatypeProperty";
const OBJECT_PROPERTY: &str = "http://www.w3.org/2002/07/owl#ObjectProperty";
const XSD_STRING: &str = "http://www.w3.org/2001/XMLSchema#string";
const XSD_INTEGER: &str = "http://www.w3.org/2001/XMLSchema#integer";

fn node(subject: &str, predicate: &str, object: &str) -> Triple {
    Triple {
        subject: subject.to_string(),
        predicate: predicate.to_string(),
        object: TripleObject::Node(object.to_string()),
    }
}

fn value(subject: &str, predicate: &str, object: Literal) -> Triple {
    Triple {
        subject: subject.to_string(),
        predicate: predicate.to_string(),
        object: TripleObject::Literal(object),
    }
}

fn tagged(text: &str, notation: Notation, tag: LiteralTag) -> Literal {
    Literal { text: text.to_string(), notation, tag }
}

fn english(text: &str) -> Literal {
    tagged(text, Notation::Escaped, LiteralTag::Language("en".to_string()))
}

fn label(text: &str) -> Literal {
    tagged(text, Notation::Quoted, LiteralTag::Language("en".to_string()))
}

fn shared() -> Vec<Triple> {
    vec![
        node("s:CSV", RDF_TYPE, CLASS),
        value("s:CSV", LABEL, label("CSV")),
        value("s:CSV", COMMENT, label("CSV object")),
        node("s:CSV", SUB_CLASS_OF, "http://terminusdb.com/schema/system#Document"),
        node("s:Column", RDF_TYPE, CLASS),
        value("s:Column", LABEL, label("Column")),
        value("s:Column", COMMENT, label("Column information object for a CSV")),
        node("s:csv_column", RDF_TYPE, OBJECT_PROPERTY),
        value("s:csv_column", LABEL, label("csv column")),
        value("s:csv_column", COMMENT, label("Associates a CSV with a column object")),
        node("s:csv_column", DOMAIN, "s:CSV"),
        node("s:csv_column", RANGE, "s:Column"),
        node("s:csv_column_index", RDF_TYPE, DATATYPE_PROPERTY),
        value("s:csv_column_index", LABEL, label("csv column index")),
        value("s:csv_column_index", COMMENT, label("The ordering index for a column in a csv")),
        node("s:csv_column_index", DOMAIN, "s:Column"),
        node("s:csv_column_index", RANGE, XSD_INTEGER),
        node("s:csv_column_name", RDF_TYPE, DATATYPE_PROPERTY),
        value("s:csv_column_name", LABEL, label("csv column index")),
        value(
            "s:csv_column_name",
            COMMENT,
            label("The name of the column as it was verbatim in the CSV"),
        ),
        node("s:csv_column_name", DOMAIN, "s:Column"),
        node("s:csv_column_name", RANGE, XSD_STRING),
        node("s:CSVRow", RDF_TYPE, CLASS),
        value("s:CSVRow", LABEL, label("CSV Row")),
        value("s:CSVRow", COMMENT, label("Generic Row of a CSV file")),
    ]
}

#[test]
fn schema_without_columns_declares_shared_terms_and_row_class() {
    let mut expected = shared();
    expected.extend(vec![
        node("s:CSVRow_abc", RDF_TYPE, CLASS),
        node("s:CSVRow_abc", SUB_CLASS_OF, "s:CSVRow"),
        value("s:CSVRow_abc", LABEL, label("CSV Row abc")),
        value("s:CSVRow_abc", COMMENT, english("CSV Row object for columns []")),
        node("s:csv_row", RDF_TYPE, OBJECT_PROPERTY),
        value("s:csv_row", LABEL, label("csv row")),
        value("s:csv_row", COMMENT, label("Connects a CSV to its rows")),
        node("s:csv_row", DOMAIN, "s:CSV"),
        node("s:csv_row", RANGE, "s:CSVRow_abc"),
    ]);
    assert_eq!(write_schema("s:", "abc", &vec![]), expected);
}

#[test]
fn schema_declares_one_property_per_column_in_the_given_order() {
    let names = vec!["a".to_string(), "first name".to_string()];
    let mut expected = shared();
    expected.extend(vec![
        node("s:CSVRow_h1", RDF_TYPE, CLASS),
        node("s:CSVRow_h1", SUB_CLASS_OF, "s:CSVRow"),
        value("s:CSVRow_h1", LABEL, label("CSV Row h1")),
        value(
            "s:CSVRow_h1",
            COMMENT,
            english("CSV Row object for columns [\"a\", \"first name\"]"),
        ),
        node("s:csv_row", RDF_TYPE, OBJECT_PROPERTY),
        value("s:csv_row", LABEL, label("csv row")),
        value("s:csv_row", COMMENT, label("Connects a CSV to its rows")),
        node("s:csv_row", DOMAIN, "s:CSV"),
        node("s:csv_row", RANGE, "s:CSVRow_h1"),
        node("s:column_a", RDF_TYPE, DATATYPE_PROPERTY),
        value("s:column_a", LABEL, label("Column a")),
        value("s:column_a", COMMENT, label("CSV Column for header name a")),
        node("s:column_a", DOMAIN, "s:CSVRow_h1"),
        node("s:column_a", RANGE, XSD_STRING),
        node("s:column_first%20name", RDF_TYPE, DATATYPE_PROPERTY),
        value("s:column_first%20name", LABEL, label("Column first name")),
        value("s:column_first%20name", COMMENT, label("CSV Column for header name first name")),
        node("s:column_first%20name", DOMAIN, "s:CSVRow_h1"),
        node("s:column_first%20name", RANGE, XSD_STRING),
    ]);
    let schema = write_schema("s:", "h1", &names);
    assert_eq!(schema.len(), 44);
    assert_eq!(schema, expected);
}

#[test]
fn schema_row_comment_matches_nested_debug_formatting() {
    let names = vec!["a\"b".to_string(), "c".to_string()];
    let schema = write_schema("s:", "h", &names);
    let listed = format!("CSV Row object for columns {:?}", names);
    assert_eq!(schema[28], value("s:CSVRow_h", COMMENT, english(&listed)));
    assert_eq!(schema[28].object_text(), format!("{:?}@en", listed));
    assert_eq!(
        schema[28].object_text(),
        "\"CSV Row object for columns [\\\"a\\\\\\\"b\\\", \\\"c\\\"]\"@en"
    );
}

#[test]
fn schema_renders_to_the_expected_lexical_forms() {
    let schema = write_schema("s:", "h1", &vec!["a".to_string()]);
    let rendered: Vec<String> =
        schema.iter().filter(|t| t.object_is_literal()).map(|t| t.object_text()).collect();
    let expected = vec![
        "\"CSV\"@en",
        "\"CSV object\"@en",
        "\"Column\"@en",
        "\"Column information object for a CSV\"@en",
        "\"csv column\"@en",
        "\"Associates a CSV with a column object\"@en",
        "\"csv column index\"@en",
        "\"The ordering index for a column in a csv\"@en",
        "\"csv column index\"@en",
        "\"The name of the column as it was verbatim in the CSV\"@en",
        "\"CSV Row\"@en",
        "\"Generic Row of a CSV file\"@en",
        "\"CSV Row h1\"@en",
        "\"CSV Row object for columns [\\\"a\\\"]\"@en",
        "\"csv row\"@en",
        "\"Connects a CSV to its rows\"@en",
        "\"Column a\"@en",
        "\"CSV Column for header name a\"@en",
    ];
    assert_eq!(rendered, expected);
}

#[test]
fn schema_column_labels_hold_the_name_as_it_stands() {
    let names = vec!["a/b c".to_string()];
    let schema = write_schema("schema:///", "h", &names);
    assert_eq!(schema.len(), 39);
    assert_eq!(schema[34], node("schema:///column_a%2Fb%20c", RDF_TYPE, DATATYPE_PROPERTY));
    assert_eq!(schema[35], value("schema:///column_a%2Fb%20c", LABEL, label("Column a/b c")));
    assert_eq!(
        schema[36],
        value("schema:///column_a%2Fb%20c", COMMENT, label("CSV Column for header name a/b c"))
    );
}

#[test]
fn triple_reports_object_text_and_kind() {
    let linked = Triple::new_node("s", "p", "o");
    assert_eq!(linked, node("s", "p", "o"));
    assert!(!linked.object_is_literal());
    assert_eq!(linked.object_text(), "o");
    let valued = Triple::new_value("s", "p", label("v"));
    assert_eq!(valued, value("s", "p", label("v")));
    assert!(valued.object_is_literal());
    assert_eq!(valued.object_text(), "\"v\"@en");
}
