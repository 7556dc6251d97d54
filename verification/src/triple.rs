//! Statements and the sinks they are meant for.

use vstd::prelude::*;
use vstd::string::StringExecFns;
use crate::literal::{rendered, Literal, LiteralView};

verus! {

/// What a statement says of its subject: another node, or a literal value.
#[derive(Debug, Clone, PartialEq, Eq)]
pub enum TripleObject {
    /// The identifier of a node.
    Node(String),
    /// A literal value.
    Literal(Literal),
}

/// A subject-predicate-object statement.
#[derive(Debug, Clone, PartialEq, Eq)]
pub struct Triple {
    pub subject: String,
    pub predicate: String,
    pub object: TripleObject,
}

/// The sink that a statement goes to.
#[derive(Debug, Clone, Copy, PartialEq, Eq, Structural)]
pub enum Sink {
    /// Instance data: the table, its columns and its rows.
    Data,
    /// The description of the table's shape.
    Schema,
}

/// A statement together with the sink that is to receive it.
#[derive(Debug, Clone, PartialEq, Eq)]
pub struct Emission {
    pub sink: Sink,
    pub triple: Triple,
}

/// The object of a statement, as specifications see it.
pub enum ObjectView {
    Node(Seq<char>),
    Literal(LiteralView),
}

/// A statement, as specifications see it.
pub struct TripleView {
    pub subject: Seq<char>,
    pub predicate: Seq<char>,
    pub object: ObjectView,
}

/// An emission, as specifications see it.
pub struct EmissionView {
    pub sink: Sink,
    pub triple: TripleView,
}

impl View for TripleObject {
    type V = ObjectView;

    open spec fn view(&self) -> ObjectView {
        match self {
            TripleObject::Node(iri) => ObjectView::Node(iri@),
            TripleObject::Literal(literal) => ObjectView::Literal(literal@),
        }
    }
}

impl View for Triple {
    type V = TripleView;

    open spec fn view(&self) -> TripleView {
        TripleView { subject: self.subject@, predicate: self.predicate@, object: self.object@ }
    }
}

impl View for Emission {
    type V = EmissionView;

    open spec fn view(&self) -> EmissionView {
        EmissionView { sink: self.sink, triple: self.triple@ }
    }
}

/// A statement whose object is a node.
pub open spec fn node_triple(subject: Seq<char>, predicate: Seq<char>, object: Seq<char>) -> TripleView {
    TripleView { subject, predicate, object: ObjectView::Node(object) }
}

/// A statement whose object is a literal.
pub open spec fn value_triple(subject: Seq<char>, predicate: Seq<char>, object: LiteralView) -> TripleView {
    TripleView { subject, predicate, object: ObjectView::Literal(object) }
}

/// The text that stands for an object at a sink: a node's identifier, or a
/// literal's lexical form.
pub open spec fn object_text(object: ObjectView) -> Seq<char> {
    match object {
        ObjectView::Node(iri) => iri,
        ObjectView::Literal(literal) => rendered(literal),
    }
}

/// The statements held by a list.
pub open spec fn triple_views(triples: Seq<Triple>) -> Seq<TripleView> {
    triples.map_values(|t: Triple| t@)
}

/// The emissions held by a list.
pub open spec fn emission_views(emissions: Seq<Emission>) -> Seq<EmissionView> {
    emissions.map_values(|e: Emission| e@)
}

/// Each statement of `triples`, bound for `sink`.
pub open spec fn bound_for(sink: Sink, triples: Seq<TripleView>) -> Seq<EmissionView> {
    triples.map_values(|t: TripleView| EmissionView { sink, triple: t })
}

/// The statements among `emissions` that are bound for `sink`, in order.
pub open spec fn statements_for(sink: Sink, emissions: Seq<EmissionView>) -> Seq<TripleView> {
    emissions.filter(|e: EmissionView| e.sink == sink).map_values(|e: EmissionView| e.triple)
}

impl Triple {
    /// A statement that links `subject` to the node `object`.
    pub fn new_node(subject: &str, predicate: &str, object: &str) -> (triple: Triple)
        ensures
            triple@ == node_triple(subject@, predicate@, object@),
    {
        Triple {
            subject: String::from_str(subject),
            predicate: String::from_str(predicate),
            object: TripleObject::Node(String::from_str(object)),
        }
    }

    /// A statement that gives `subject` the literal `object`.
    pub fn new_value(subject: &str, predicate: &str, object: Literal) -> (triple: Triple)
        ensures
            triple@ == value_triple(subject@, predicate@, object@),
    {
        Triple {
            subject: String::from_str(subject),
            predicate: String::from_str(predicate),
            object: TripleObject::Literal(object),
        }
    }

    /// Whether the object is a literal rather than a node.
    pub fn object_is_literal(&self) -> (literal: bool)
        ensures
            literal == (self@.object is Literal),
    {
        match &self.object {
            TripleObject::Node(_) => false,
            TripleObject::Literal(_) => true,
        }
    }

    /// The text that stands for the object at a sink: a node's identifier, or
    /// a literal's lexical form.
    pub fn object_text(&self) -> (text: String)
        ensures
            text@ == object_text(self@.object),
    {
        match &self.object {
            TripleObject::Node(iri) => iri.clone(),
            TripleObject::Literal(literal) => literal.render(),
        }
    }
}

/// Appends to `out` the statement that links `subject` to the node `object`.
pub(crate) fn push_node(out: &mut Vec<Triple>, subject: &str, predicate: &str, object: &str)
    ensures
        triple_views(final(out)@) == triple_views(old(out)@).push(
            node_triple(subject@, predicate@, object@),
        ),
{
    out.push(Triple::new_node(subject, predicate, object));
}

/// Appends to `out` the statement that gives `subject` the literal `object`.
pub(crate) fn push_value(out: &mut Vec<Triple>, subject: &str, predicate: &str, object: Literal)
    ensures
        triple_views(final(out)@) == triple_views(old(out)@).push(
            value_triple(subject@, predicate@, object@),
        ),
{
    out.push(Triple::new_value(subject, predicate, object));
}

/// Moves the statements of `triples` to the end of `out`, bound for `sink`.
pub fn emit_to(out: &mut Vec<Emission>, sink: Sink, triples: Vec<Triple>)
    ensures
        emission_views(final(out)@) == emission_views(old(out)@) + bound_for(
            sink,
            triple_views(triples@),
        ),
{
    let ghost before = emission_views(out@);
    let ghost all = triple_views(triples@);
    for triple in it: triples.into_iter()
        invariant
            it.seq() == triples@,
            all == triple_views(triples@),
            emission_views(out@) == before + bound_for(sink, all.take(it.index() as int)),
    {
        let ghost sent = emission_views(out@);
        let emission = Emission { sink, triple };
        out.push(emission);
        assert(emission_views(out@) =~= sent.push(emission@));
    }
}

} // verus!
