//! Operations that take several calls of the fiber API.
use crate::call::{Call, Reply};
use vstd::prelude::*;

verus! {

/// Where an operation stands once a reply has come in.
pub enum Step<O, R> {
    /// There is another call to make.
    Pending(O),
    /// The operation is over, with this result.
    Done(R),
}

/// An operation that waits for a call of the fiber API to be made.
///
/// Whoever drives it performs [`call`](Operation::call) on the current thread and hands the
/// reply to [`resume`](Operation::resume), until the operation is done.
pub trait Operation: Sized {
    /// What the operation results in.
    type Output;

    /// The call that is to be made next.
    spec fn next(&self) -> Call;

    /// After `reply` to its next call, the operation stands at `step`.
    spec fn leads_to(&self, reply: Reply, step: Step<Self, Self::Output>) -> bool;

    /// The most calls that the operation can still make.
    spec fn calls_left(&self) -> nat;

    /// The call that is to be made next.
    fn call(&self) -> (call: Call)
        ensures
            call == self.next(),
    ;

    /// Takes the reply to the call and goes on to the next call or to the end.
    fn resume(self, reply: Reply) -> (step: Step<Self, Self::Output>)
        requires
            self.next().answered_by(reply),
        ensures
            self.leads_to(reply, step),
            self.calls_left() > 0,
            step matches Step::Pending(rest) ==> rest.calls_left() < self.calls_left(),
    ;
}

/// A call that was made, and the reply to it.
pub struct Event {
    pub call: Call,
    pub reply: Reply,
}

/// Driven to its end, `operation` makes the calls of `trace`, one after the other, gets the
/// replies that stand there, and results in `output`.
pub open spec fn runs<O: Operation>(operation: O, trace: Seq<Event>, output: O::Output) -> bool
    decreases trace.len(),
{
    &&& trace.len() > 0
    &&& trace[0].call == operation.next()
    &&& trace[0].call.answered_by(trace[0].reply)
    &&& {
        ||| trace.len() == 1 && operation.leads_to(trace[0].reply, Step::Done(output))
        ||| exists|rest: O|
            #![trigger operation.leads_to(trace[0].reply, Step::Pending(rest))]
            operation.leads_to(trace[0].reply, Step::Pending(rest)) && runs(
                rest,
                trace.drop_first(),
                output,
            )
    }
}

/// The calls of `trace` were made for `operation`, one after the other, with the replies that
/// stand there, and it stands at `rest` now.
pub open spec fn reaches<O: Operation>(operation: O, trace: Seq<Event>, rest: O) -> bool
    decreases trace.len(),
{
    if trace.len() == 0 {
        rest == operation
    } else {
        &&& trace[0].call == operation.next()
        &&& trace[0].call.answered_by(trace[0].reply)
        &&& exists|next: O|
            #![trigger operation.leads_to(trace[0].reply, Step::Pending(next))]
            operation.leads_to(trace[0].reply, Step::Pending(next)) && reaches(
                next,
                trace.drop_first(),
                rest,
            )
    }
}

/// A call that was answered and ends the operation is a run of it.
pub proof fn a_last_call_is_a_run<O: Operation>(operation: O, event: Event, output: O::Output)
    requires
        event.call == operation.next(),
        event.call.answered_by(event.reply),
        operation.leads_to(event.reply, Step::Done(output)),
    ensures
        runs(operation, seq![event], output),
{
}

/// A call that was answered, and a run of what is left of the operation then, are a run of it.
pub proof fn a_call_goes_before_a_run<O: Operation>(
    operation: O,
    event: Event,
    rest: O,
    trace: Seq<Event>,
    output: O::Output,
)
    requires
        event.call == operation.next(),
        event.call.answered_by(event.reply),
        operation.leads_to(event.reply, Step::Pending(rest)),
        runs(rest, trace, output),
    ensures
        runs(operation, seq![event] + trace, output),
{
    assert((seq![event] + trace).drop_first() =~= trace);
}

/// No call at all leaves the operation where it is, and a call that was answered goes before
/// the calls that lead on from there.
pub proof fn a_call_leads_on<O: Operation>(
    operation: O,
    event: Event,
    next: O,
    trace: Seq<Event>,
    rest: O,
)
    requires
        event.call == operation.next(),
        event.call.answered_by(event.reply),
        operation.leads_to(event.reply, Step::Pending(next)),
        reaches(next, trace, rest),
    ensures
        reaches(operation, seq![], operation),
        reaches(operation, seq![event] + trace, rest),
{
    assert((seq![event] + trace).drop_first() =~= trace);
}

} // verus!
