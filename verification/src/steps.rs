//! Steps that the storage is to carry out one after the other, as far as it can.

use crate::error::AnkiError;
use std::collections::VecDeque;
use vstd::prelude::*;

verus! {

/// The steps that are still to be carried out, in order.
#[derive(Debug)]
pub struct Steps<Op> {
    pub queue: VecDeque<Op>,
}

impl<Op> View for Steps<Op> {
    type V = Seq<Op>;

    open spec fn view(&self) -> Seq<Op> {
        self.queue@
    }
}

/// What the storage is to do next.
#[derive(Debug)]
pub enum StepCall<Op> {
    /// Carry out the step.
    Do { op: Op, then: Steps<Op> },
    /// All steps are carried out.
    Finished,
    /// A step failed, and the rest is left undone.
    Failed(AnkiError),
}

/// The call with which the steps go on.
pub open spec fn goes_on<Op>(ops: Seq<Op>, call: StepCall<Op>) -> bool {
    if ops.len() == 0 {
        call is Finished
    } else {
        call matches StepCall::Do { op, then } && op == ops[0] && then@ == ops.drop_first()
    }
}

impl<Op> Steps<Op> {
    pub fn new(ops: Vec<Op>) -> (steps: Steps<Op>)
        ensures
            steps@ == ops@,
    {
        let mut steps = Steps { queue: VecDeque::new() };
        for op in it: ops
            invariant
                it.seq() == ops@,
                steps@ =~= ops@.take(it.index() as int),
        {
            steps.queue.push_back(op);
        }
        assert(ops@.take(ops@.len() as int) =~= ops@);
        steps
    }

    /// Goes on with the next step.
    pub fn go_on(self) -> (call: StepCall<Op>)
        ensures
            goes_on(self@, call),
    {
        let mut rest = self;
        match rest.queue.pop_front() {
            None => StepCall::Finished,
            Some(op) => {
                assert(rest@ =~= self@.drop_first());
                StepCall::Do { op, then: rest }
            },
        }
    }

    /// What follows once the storage has tried the step before these.
    pub open spec fn leads_to(self, reply: Result<(), AnkiError>, call: StepCall<Op>) -> bool {
        match reply {
            Err(e) => call == StepCall::<Op>::Failed(e),
            Ok(_) => goes_on(self@, call),
        }
    }

    pub fn resume(self, reply: Result<(), AnkiError>) -> (call: StepCall<Op>)
        ensures
            self.leads_to(reply, call),
    {
        match reply {
            Err(e) => StepCall::Failed(e),
            Ok(_) => self.go_on(),
        }
    }
}

/// The calls that are made for the steps, given the storage's replies.
pub open spec fn step_run<Op>(
    ops: Seq<Op>,
    calls: Seq<StepCall<Op>>,
    replies: Seq<Result<(), AnkiError>>,
) -> bool {
    &&& calls.len() == replies.len() + 1
    &&& goes_on(ops, calls[0])
    &&& forall|i: int|
        0 <= i < replies.len() ==> (#[trigger] calls[i] matches StepCall::Do { then, .. }
            && then.leads_to(replies[i], calls[i + 1]))
}

/// The steps are carried out in order. If none fails, all of them are; the first that fails is
/// the last that is tried, and its error is what they fail with.
pub proof fn law_steps_go_up_to_the_first_error<Op>(
    ops: Seq<Op>,
    calls: Seq<StepCall<Op>>,
    replies: Seq<Result<(), AnkiError>>,
)
    requires
        step_run(ops, calls, replies),
        !(calls.last() is Do),
    ensures
        replies.len() <= ops.len(),
        forall|i: int|
            0 <= i < replies.len() ==> (#[trigger] calls[i] matches StepCall::Do { op, .. } && op
                == ops[i]),
        forall|i: int| 0 <= i < replies.len() - 1 ==> (#[trigger] replies[i]) is Ok,
        calls.last() is Finished ==> replies.len() == ops.len() && (replies.len() > 0
            ==> replies.last() is Ok),
        calls.last() matches StepCall::Failed(e) ==> replies.len() > 0 && replies.last()
            == Err::<(), AnkiError>(e),
    decreases replies.len(),
{
    if replies.len() > 0 {
        let then = calls[0]->Do_then;
        assert(then.leads_to(replies[0], calls[1]));
        if replies[0] is Err {
            if replies.len() > 1 {
                assert(calls[1] is Do);
            }
        } else {
            let rest = ops.drop_first();
            let later = calls.drop_first();
            let answers = replies.drop_first();
            assert forall|i: int| 0 <= i < answers.len() implies (
            #[trigger] later[i] matches StepCall::Do { then, .. } && then.leads_to(
                answers[i],
                later[i + 1],
            )) by {
                assert(calls[i + 1] is Do);
            }
            law_steps_go_up_to_the_first_error(rest, later, answers);
            assert forall|i: int| 0 <= i < replies.len() implies (
            #[trigger] calls[i] matches StepCall::Do { op, .. } && op == ops[i]) by {
                if i > 0 {
                    assert(later[i - 1] == calls[i]);
                }
            }
            assert forall|i: int| 0 <= i < replies.len() - 1 implies (#[trigger] replies[i])
                is Ok by {
                if i > 0 {
                    assert(answers[i - 1] == replies[i]);
                }
            }
        }
    }
}

} // verus!
