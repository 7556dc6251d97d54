//! Handing statements over to the layer builders of the triple store.

use vstd::prelude::*;
use terminus_store::store::sync::SyncStoreLayerBuilder;
use crate::error::{Failure, ImportError};
use crate::plan::ImportPlan;
use crate::triple::{Sink, Triple};

verus! {

/// The store's `SyncStoreLayerBuilder`: a handle on a layer under construction.
/// Nothing is known of what it holds.
#[verifier::external_type_specification]
#[verifier::external_body]
pub struct ExSyncStoreLayerBuilder(SyncStoreLayerBuilder);

/// `std::io::Error`, as a builder returns it. It is passed on unopened.
#[verifier::external_type_specification]
#[verifier::external_body]
pub struct ExIoError(std::io::Error);

/// Builds a `terminus_store::layer::StringTriple` with `new_node` or `new_value`
/// and calls `SyncStoreLayerBuilder::add_string_triple` with it.
///
/// A builder is a handle that can be shared: whether it still accepts
/// statements can change through another handle. So nothing is claimed of the
/// result.
#[verifier::external_body]
fn add_to_builder(
    builder: &SyncStoreLayerBuilder,
    subject: &str,
    predicate: &str,
    object: &str,
    object_is_literal: bool,
) -> Result<(), std::io::Error> {
    let triple = if object_is_literal {
        terminus_store::layer::StringTriple::new_value(subject, predicate, object)
    } else {
        terminus_store::layer::StringTriple::new_node(subject, predicate, object)
    };
    builder.add_string_triple(triple)
}

/// Hands one statement to a builder.
fn add_triple(builder: &SyncStoreLayerBuilder, triple: &Triple) -> Result<(), std::io::Error> {
    let object = triple.object_text();
    add_to_builder(
        builder,
        triple.subject.as_str(),
        triple.predicate.as_str(),
        object.as_str(),
        triple.object_is_literal(),
    )
}

/// What a builder's answer means for the import: a refusal ends it, and is
/// passed on as it came.
pub fn sink_outcome(answer: Result<(), std::io::Error>) -> (out: Result<(), ImportError>)
    ensures
        out == match answer {
            Ok(_) => Ok::<(), ImportError>(()),
            Err(refusal) => Err(ImportError::Sink(refusal)),
        },
{
    match answer {
        Ok(_) => Ok(()),
        Err(refusal) => Err(ImportError::Sink(refusal)),
    }
}

/// How a delivery went.
#[derive(Debug)]
pub struct Delivery {
    /// How many statements of the plan were dealt with, from the first on,
    /// before the delivery ended: accepted by a builder, or passed over.
    pub accepted: usize,
    /// How the import ended.
    pub outcome: Result<(), ImportError>,
}

/// The failure that an outcome stands for, if any.
pub open spec fn failure_of(outcome: Result<(), ImportError>) -> Option<Failure> {
    match outcome {
        Ok(_) => None,
        Err(error) => Some(error@),
    }
}

/// The outcome of an import that ends as its plan does.
pub open spec fn planned_outcome(plan: ImportPlan) -> Result<(), ImportError> {
    match plan.failure {
        Some(error) => Err(error),
        None => Ok(()),
    }
}

/// Hands the statements of `plan` to the builders, in order: those for the
/// data sink to `builder`, those for the schema sink to the schema builder.
/// Without a schema builder the statements for the schema sink are passed over.
///
/// The first refusal ends the delivery: the outcome is that refusal, and the
/// statements before it stay with the builders. When no statement is refused,
/// the outcome is that of the plan.
pub fn deliver(
    plan: ImportPlan,
    builder: &SyncStoreLayerBuilder,
    schema_builder_option: Option<&SyncStoreLayerBuilder>,
) -> (delivery: Delivery)
    ensures
        delivery.accepted <= plan@.emissions.len(),
        delivery.accepted < plan@.emissions.len() ==> failure_of(delivery.outcome) == Some(
            Failure::Sink,
        ),
        delivery.accepted == plan@.emissions.len() ==> delivery.outcome == planned_outcome(plan),
{
    let mut accepted: usize = 0;
    while accepted < plan.emissions.len()
        invariant
            accepted <= plan.emissions.len(),
        decreases plan.emissions.len() - accepted,
    {
        let emission = &plan.emissions[accepted];
        let answer = match emission.sink {
            Sink::Data => add_triple(builder, &emission.triple),
            Sink::Schema => match schema_builder_option {
                Some(schema_builder) => add_triple(schema_builder, &emission.triple),
                None => Ok(()),
            },
        };
        let outcome = sink_outcome(answer);
        if outcome.is_err() {
            return Delivery { accepted, outcome };
        }
        accepted = accepted + 1;
    }
    let outcome = match plan.failure {
        Some(error) => Err(error),
        None => Ok(()),
    };
    Delivery { accepted, outcome }
}

} // verus!
