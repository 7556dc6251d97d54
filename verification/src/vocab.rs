//! Identifiers of the RDF, RDFS, OWL and XML Schema terms that the statements use.

use vstd::prelude::*;

verus! {

pub const RDF_TYPE: &'static str = "http://www.w3.org/1999/02/22-rdf-syntax-ns#type";

pub const RDFS_LABEL: &'static str = "http://www.w3.org/2000/01/rdf-schema#label";

pub const RDFS_COMMENT: &'static str = "http://www.w3.org/2000/01/rdf-schema#comment";

pub const RDFS_DOMAIN: &'static str = "http://www.w3.org/2000/01/rdf-schema#domain";

pub const RDFS_RANGE: &'static str = "http://www.w3.org/2000/01/rdf-schema#range";

pub const RDFS_SUB_CLASS_OF: &'static str = "http://www.w3.org/2000/01/rdf-schema#subClassOf";

pub const OWL_CLASS: &'static str = "http://www.w3.org/2002/07/owl#Class";

pub const OWL_DATATYPE_PROPERTY: &'static str = "http://www.w3.org/2002/07/owl#DatatypeProperty";

pub const OWL_OBJECT_PROPERTY: &'static str = "http://www.w3.org/2002/07/owl#ObjectProperty";

pub const XSD_STRING: &'static str = "http://www.w3.org/2001/XMLSchema#string";

pub const XSD_INTEGER: &'static str = "http://www.w3.org/2001/XMLSchema#integer";

/// The class that every stored document belongs to.
pub const SYSTEM_DOCUMENT: &'static str = "http://terminusdb.com/schema/system#Document";

} // verus!
