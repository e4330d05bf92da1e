//! On steps that are carried out one after the other.

use crate::error::{AnkiError, SyncErrorKind};
use crate::graves::GraveOp;
use crate::steps::{StepCall, Steps};
use crate::syncer::FinalizeOp;
use vstd::prelude::*;

verus! {

/// The first step is to be done and the others follow, or there is none.
pub open spec fn does_the_first<Op>(ops: Seq<Op>, call: StepCall<Op>) -> bool {
    if ops.len() == 0 {
        call is Finished
    } else {
        call matches StepCall::Do { op, then } && op == ops[0] && then.queue@.len() + 1 == ops.len()
            && forall|i: int|
            0 <= i < then.queue@.len() ==> #[trigger] then.queue@[i] == ops[i + 1]
    }
}

/// The steps of removing objects are all there, and come one after the other up to an error.
pub proof fn law_removal_steps_come_one_by_one(
    ops: Vec<GraveOp>,
    steps: Steps<GraveOp>,
    first: StepCall<GraveOp>,
    reply: Result<(), AnkiError>,
    call: StepCall<GraveOp>,
)
    requires
        call_ensures(Steps::<GraveOp>::new, (ops,), steps),
        call_ensures(Steps::<GraveOp>::go_on, (steps,), first),
        call_ensures(Steps::<GraveOp>::resume, (steps, reply), call),
    ensures
        steps.queue@ == ops@,
        does_the_first(ops@, first),
        reply matches Err(e) ==> call == StepCall::<GraveOp>::Failed(e),
        reply is Ok ==> does_the_first(ops@, call),
{
}

/// The steps at the end of a sync are all there, and come one after the other up to an error.
pub proof fn law_final_steps_come_one_by_one(
    ops: Vec<FinalizeOp>,
    steps: Steps<FinalizeOp>,
    first: StepCall<FinalizeOp>,
    reply: Result<(), AnkiError>,
    call: StepCall<FinalizeOp>,
)
    requires
        call_ensures(Steps::<FinalizeOp>::new, (ops,), steps),
        call_ensures(Steps::<FinalizeOp>::go_on, (steps,), first),
        call_ensures(Steps::<FinalizeOp>::resume, (steps, reply), call),
    ensures
        steps.queue@ == ops@,
        does_the_first(ops@, first),
        reply matches Err(e) ==> call == StepCall::<FinalizeOp>::Failed(e),
        reply is Ok ==> does_the_first(ops@, call),
{
}

/// An error says what it was made with.
pub proof fn law_errors_say_what_they_were_made_with(
    info: &str,
    kind: SyncErrorKind,
    errors: (AnkiError, AnkiError),
)
    requires
        call_ensures(AnkiError::sync_error, (info, kind), errors.0),
        call_ensures(AnkiError::invalid_input, (info,), errors.1),
    ensures
        errors.0 matches AnkiError::SyncError { info: text, kind: k } && text@ == info@ && k == kind,
        errors.1 matches AnkiError::InvalidInput { info: text } && text@ == info@,
{
}

} // verus!
