use csv_rdf::emit::{column_node_iri, csv_name_iri, row_node_iri};
use csv_rdf::header::{names_of, resolve_columns, Column};
use csv_rdf::literal::{quoted_list_of, Literal, LiteralTag, Notation};

fn strings(items: &[&str]) -> Vec<String> {
    items.iter().map(|s| s.to_string()).collect()
}

#[test]
fn csv_name_iri_of_a_plain_name() {
    let (escaped, node) = csv_name_iri("people", "data:///");
    assert_eq!(escaped, "people");
    assert_eq!(node, "data:///CSV_people");
}

#[test]
fn csv_name_iri_escapes_space_and_slash() {
    let (escaped, node) = csv_name_iri("my files/2020 data.csv", "data:///");
    assert_eq!(escaped, "my%20files%2F2020%20data.csv");
    assert_eq!(node, "data:///CSV_my%20files%2F2020%20data.csv");
}

#[test]
fn percent_encoding_keeps_unreserved_characters() {
    let (escaped, _) = csv_name_iri("AZaz09-_.~", "p:");
    assert_eq!(escaped, "AZaz09-_.~");
}

#[test]
fn percent_encoding_uses_uppercase_hex_over_utf8() {
    let (escaped, _) = csv_name_iri("\u{e9}+%\u{20ac}", "p:");
    assert_eq!(escaped, "%C3%A9%2B%25%E2%82%AC");
}

#[test]
fn column_node_iri_escapes_both_names() {
    assert_eq!(
        column_node_iri("data:///", "my csv", "first name"),
        "data:///ColumnObject_my%20csv_first%20name"
    );
    assert_eq!(column_node_iri("data:///", "t", "a/b"), "data:///ColumnObject_t_a%2Fb");
}

#[test]
fn row_node_iri_is_prefix_and_row_hash() {
    assert_eq!(
        row_node_iri("data:///", &strings(&["1", "2"])),
        "data:///CSVRow_7b52009b64fd0a2a49e6d8a939753077792b0554"
    );
}

#[test]
fn rows_with_the_same_values_share_a_node() {
    let one = row_node_iri("data:///", &strings(&["x", "y", "z"]));
    let other = row_node_iri("data:///", &strings(&["x", "y", "z"]));
    assert_eq!(one, other);
    assert_eq!(one, "data:///CSVRow_66b27417d37e024c46526c2f6d358a754fc552f3");
}

#[test]
fn named_columns_keep_header_text_and_escape_predicates() {
    let columns = resolve_columns("schema:///", true, &strings(&["a", "first name", "a/b"]));
    let expected = vec![
        Column { index: 0, name: "a".to_string(), predicate_iri: "schema:///a".to_string() },
        Column {
            index: 1,
            name: "first name".to_string(),
            predicate_iri: "schema:///first%20name".to_string(),
        },
        Column { index: 2, name: "a/b".to_string(), predicate_iri: "schema:///a%2Fb".to_string() },
    ];
    assert_eq!(columns, expected);
}

#[test]
fn positional_columns_are_named_by_index() {
    let columns = resolve_columns("schema:///", false, &strings(&["x", "y", "z"]));
    let expected = vec![
        Column { index: 0, name: "0".to_string(), predicate_iri: "schema:///column_0".to_string() },
        Column { index: 1, name: "1".to_string(), predicate_iri: "schema:///column_1".to_string() },
        Column { index: 2, name: "2".to_string(), predicate_iri: "schema:///column_2".to_string() },
    ];
    assert_eq!(columns, expected);
    assert_eq!(names_of(&columns), strings(&["0", "1", "2"]));
}

#[test]
fn positional_columns_past_nine_use_decimal_numerals() {
    let first: Vec<String> = (0..12).map(|_| "f".to_string()).collect();
    let columns = resolve_columns("s:", false, &first);
    assert_eq!(columns.len(), 12);
    assert_eq!(columns[10].name, "10");
    assert_eq!(columns[11].predicate_iri, "s:column_11");
}

#[test]
fn no_fields_give_no_columns() {
    assert_eq!(resolve_columns("schema:///", true, &strings(&[])), Vec::<Column>::new());
    assert_eq!(resolve_columns("schema:///", false, &strings(&[])), Vec::<Column>::new());
}

#[test]
fn literals_keep_their_text() {
    assert_eq!(
        Literal::english("a \"b\""),
        Literal {
            text: "a \"b\"".to_string(),
            notation: Notation::Escaped,
            tag: LiteralTag::Language("en".to_string()),
        }
    );
    assert_eq!(
        Literal::label("first name/alias"),
        Literal {
            text: "first name/alias".to_string(),
            notation: Notation::Quoted,
            tag: LiteralTag::Language("en".to_string()),
        }
    );
    assert_eq!(
        Literal::string("first name/alias"),
        Literal {
            text: "first name/alias".to_string(),
            notation: Notation::Escaped,
            tag: LiteralTag::Datatype("http://www.w3.org/2001/XMLSchema#string".to_string()),
        }
    );
    assert_eq!(
        Literal::integer(42),
        Literal {
            text: "42".to_string(),
            notation: Notation::Bare,
            tag: LiteralTag::Datatype("http://www.w3.org/2001/XMLSchema#integer".to_string()),
        }
    );
}

#[test]
fn english_literal_is_quoted_escaped_and_tagged() {
    assert_eq!(Literal::english("people").render(), "\"people\"@en");
    assert_eq!(Literal::english("a \"b\" \\ c").render(), "\"a \\\"b\\\" \\\\ c\"@en");
    assert_eq!(Literal::english("line\nbreak").render(), "\"line\\nbreak\"@en");
}

#[test]
fn label_is_quoted_as_it_stands() {
    assert_eq!(Literal::label("CSV").render(), "\"CSV\"@en");
    assert_eq!(Literal::label("Column a\"b").render(), "\"Column a\"b\"@en");
    assert_eq!(Literal::label("").render(), "\"\"@en");
}

#[test]
fn string_literal_keeps_space_and_slash() {
    assert_eq!(
        Literal::string("first name/alias").render(),
        "\"first name/alias\"^^'http://www.w3.org/2001/XMLSchema#string'"
    );
    assert_eq!(Literal::string("").render(), "\"\"^^'http://www.w3.org/2001/XMLSchema#string'");
    assert_eq!(
        Literal::string("tab\there").render(),
        "\"tab\\there\"^^'http://www.w3.org/2001/XMLSchema#string'"
    );
}

#[test]
fn integer_literal_is_bare_decimal() {
    assert_eq!(Literal::integer(0).render(), "0^^'http://www.w3.org/2001/XMLSchema#integer'");
    assert_eq!(Literal::integer(42).render(), "42^^'http://www.w3.org/2001/XMLSchema#integer'");
}

#[test]
fn render_follows_notation_and_tag() {
    let literal = Literal {
        text: "a\"b".to_string(),
        notation: Notation::Bare,
        tag: LiteralTag::Language("fr".to_string()),
    };
    assert_eq!(literal.render(), "a\"b@fr");
    let typed = Literal {
        text: "a\"b".to_string(),
        notation: Notation::Quoted,
        tag: LiteralTag::Datatype("t:x".to_string()),
    };
    assert_eq!(typed.render(), "\"a\"b\"^^'t:x'");
}

#[test]
fn quoted_list_matches_debug_formatting() {
    assert_eq!(quoted_list_of(&strings(&[])), "[]");
    assert_eq!(quoted_list_of(&strings(&["a"])), "[\"a\"]");
    assert_eq!(quoted_list_of(&strings(&["a", "b c", "d\"e"])), "[\"a\", \"b c\", \"d\\\"e\"]");
    let items = strings(&["x", "", "tab\there", "\u{e9}"]);
    assert_eq!(quoted_list_of(&items), format!("{:?}", items));
}

#[test]
fn percent_encoding_of_every_ascii_character() {
    for code in 0u8..128 {
        let c = code as char;
        let name = c.to_string();
        let (escaped, node) = csv_name_iri(&name, "p:");
        let kept = c.is_ascii_alphanumeric() || c == '-' || c == '_' || c == '.' || c == '~';
        let expected = if kept { name.clone() } else { format!("%{:02X}", code) };
        assert_eq!(escaped, expected);
        assert_eq!(node, format!("p:CSV_{}", expected));
    }
}
