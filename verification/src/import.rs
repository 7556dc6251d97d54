//! The import as a whole: plan the statements, then hand them to the builders.

use vstd::prelude::*;
use terminus_store::store::sync::SyncStoreLayerBuilder;
use crate::emit::DocumentView;
use crate::error::{Failure, ImportError};
use crate::plan::{import_plan, plan_import};
use crate::sink::deliver;

verus! {

/// Imports a table, given as the bytes of a comma-separated text, into
/// `builder`, and the description of its shape into the schema builder if
/// there is one.
///
/// The statements are handed over in the order of the plan. The first one that
/// a builder refuses ends the import with that refusal; what was handed over
/// before stays with the builders. When all are accepted, the import ends as
/// its plan does: with the failure that ended the reading, or well. Input that
/// is rejected before anything is stated reaches no builder and ends with the
/// failure of its plan.
pub fn import_csv(
    csv_name: String,
    content: &[u8],
    builder: &SyncStoreLayerBuilder,
    schema_builder_option: Option<&SyncStoreLayerBuilder>,
    data_prefix: String,
    schema_prefix: String,
    has_header: bool,
    skip_header: bool,
) -> (out: Result<(), ImportError>)
    ensures
        ({
            let plan = import_plan(
                DocumentView {
                    name: csv_name@,
                    data_prefix: data_prefix@,
                    schema_prefix: schema_prefix@,
                    has_header,
                    skip_header,
                },
                content@,
                schema_builder_option is Some,
            );
            &&& out is Ok ==> plan.failure is None
            &&& out matches Err(error) ==> error@ == Failure::Sink || Some(error@) == plan.failure
            &&& plan.emissions.len() == 0 ==> (out matches Err(error) && Some(error@)
                == plan.failure)
        }),
{
    let plan = plan_import(
        csv_name,
        content,
        schema_builder_option.is_some(),
        data_prefix,
        schema_prefix,
        has_header,
        skip_header,
    );
    deliver(plan, builder, schema_builder_option).outcome
}

} // verus!
