//! What holds of the operations on a thread, whatever else was called on it before.
//!
//! A thread is described by its history: the calls of the fiber API that were made on it, in
//! the order in which they were issued, since it started as an ordinary thread.
use crate::call::{Call, Reply};
use crate::error::FiberError;
use crate::fiber::Fiber;
use crate::lookup::{FreeFiber, Lookup, ThreadQuery};
use crate::open::{Conversion, ConversionStage, ConversionView, Creation};
use crate::operation::{reaches, runs, Event, Operation};
use vstd::prelude::*;

verus! {

/// The fiber that a thread runs after `event`, where it ran `current` before; `None` stands for
/// an ordinary thread.
pub open spec fn after_event(current: Option<usize>, event: Event) -> Option<usize> {
    match (event.call, event.reply) {
        (Call::ConvertThreadToFiberEx { .. }, Reply::Opened { address, .. }) => if address != 0 {
            Some(address)
        } else {
            current
        },
        (Call::ConvertFiberToThread, Reply::Flag(done)) => if done != 0 {
            None
        } else {
            current
        },
        (Call::SwitchToFiber { fiber }, _) => if current is Some {
            Some(fiber)
        } else {
            None
        },
        _ => current,
    }
}

/// The fiber that a thread with this history runs.
pub open spec fn current_fiber(history: Seq<Event>) -> Option<usize>
    decreases history.len(),
{
    if history.len() == 0 {
        None
    } else {
        after_event(current_fiber(history.drop_last()), history.last())
    }
}

/// The operating system told the truth at `history[i]`, if it was asked there.
pub open spec fn truthful_at(history: Seq<Event>, i: int) -> bool {
    let current = current_fiber(history.take(i));
    match (history[i].call, history[i].reply) {
        (Call::IsThreadAFiber, Reply::Flag(flag)) => (flag > 0) == (current is Some),
        (Call::GetCurrentFiber, Reply::Address(address)) => current is Some ==> current == Some(
            address,
        ),
        _ => true,
    }
}

/// The operating system told the truth from `history[from]` on.
pub open spec fn truthful(history: Seq<Event>, from: int) -> bool {
    forall|i: int| from <= i < history.len() ==> #[trigger] truthful_at(history, i)
}

/// One more event.
pub(crate) proof fn lemma_push(history: Seq<Event>, event: Event)
    ensures
        current_fiber(history.push(event)) == after_event(current_fiber(history), event),
{
    assert(history.push(event).drop_last() =~= history);
}

/// The first event of `trace` leaves the history of the thread like this.
pub(crate) proof fn lemma_first(history: Seq<Event>, trace: Seq<Event>)
    requires
        trace.len() > 0,
    ensures
        (history + trace).take(history.len() as int) == history,
        (history + trace)[history.len() as int] == trace[0],
        history + trace == history.push(trace[0]) + trace.drop_first(),
        current_fiber(history.push(trace[0])) == after_event(current_fiber(history), trace[0]),
{
    lemma_push(history, trace[0]);
    assert((history + trace).take(history.len() as int) =~= history);
    assert(history + trace =~= history.push(trace[0]) + trace.drop_first());
}

/// Whether a thread is a fiber takes one call to answer, and the answer is true.
pub proof fn query_tells_whether_the_thread_is_a_fiber(
    history: Seq<Event>,
    trace: Seq<Event>,
    answer: bool,
)
    requires
        runs(ThreadQuery, trace, answer),
        truthful(history + trace, history.len() as int),
    ensures
        trace.len() == 1,
        trace[0].call == Call::IsThreadAFiber,
        answer == (current_fiber(history) is Some),
        current_fiber(history + trace) == current_fiber(history),
{
    lemma_first(history, trace);
    assert(truthful_at(history + trace, history.len() as int));
    assert(history.push(trace[0]) + trace.drop_first() =~= history.push(trace[0]));
}

/// A look-up makes one call on an ordinary thread and two on a fiber.
pub proof fn lookup_makes_these_calls(trace: Seq<Event>, found: Option<usize>)
    requires
        runs(Lookup::Ask(ThreadQuery), trace, found),
    ensures
        trace[0].call == Call::IsThreadAFiber,
        match found {
            None => {
                &&& trace.len() == 1
                &&& trace[0].reply matches Reply::Flag(flag)
                &&& flag <= 0
            },
            Some(fiber) => {
                &&& trace.len() == 2
                &&& trace[0].reply matches Reply::Flag(flag)
                &&& flag > 0
                &&& trace[1] == (Event {
                    call: Call::GetCurrentFiber,
                    reply: Reply::Address(fiber),
                })
            },
        },
{
    reveal_with_fuel(runs, 3);
}

/// A look-up finds the fiber that the thread runs, and none on an ordinary thread.
pub proof fn lookup_finds_the_current_fiber(
    history: Seq<Event>,
    trace: Seq<Event>,
    found: Option<usize>,
)
    requires
        runs(Lookup::Ask(ThreadQuery), trace, found),
        truthful(history + trace, history.len() as int),
    ensures
        found == current_fiber(history),
        current_fiber(history + trace) == current_fiber(history),
{
    lookup_makes_these_calls(trace, found);
    let whole = history + trace;
    let asked = history.push(trace[0]);
    lemma_first(history, trace);
    assert(truthful_at(whole, history.len() as int));
    if found is Some {
        let rest = trace.drop_first();
        lemma_first(asked, rest);
        assert(truthful_at(whole, asked.len() as int));
        assert(asked.push(rest[0]) + rest.drop_first() =~= asked.push(rest[0]));
    } else {
        assert(whole =~= asked);
    }
}

/// Freeing the current fiber asks, looks the fiber up and comes to delete it. It is over after
/// the first of these calls where the thread is no fiber; deleting the fiber that the thread
/// runs ends the thread, so there the last call is never answered.
pub proof fn free_fiber_comes_to_these_calls(trace: Seq<Event>, rest: FreeFiber)
    requires
        reaches(FreeFiber::Find(Lookup::Ask(ThreadQuery)), trace, rest),
    ensures
        trace.len() <= 2,
        trace.len() == 0 ==> rest.next() == Call::IsThreadAFiber,
        trace.len() >= 1 ==> {
            &&& trace[0].call == Call::IsThreadAFiber
            &&& trace[0].reply matches Reply::Flag(flag)
            &&& flag > 0
        },
        trace.len() == 1 ==> rest.next() == Call::GetCurrentFiber,
        trace.len() == 2 ==> {
            &&& trace[1].call == Call::GetCurrentFiber
            &&& trace[1].reply matches Reply::Address(fiber)
            &&& rest == FreeFiber::Delete(fiber)
            &&& rest.next() == (Call::DeleteFiber { fiber })
        },
{
    reveal_with_fuel(reaches, 4);
    assert(trace.len() > 1 ==> trace[1] == trace.drop_first()[0]);
}

/// On a thread that runs a fiber, freeing the current fiber goes on until it is to delete that
/// very fiber.
pub proof fn free_fiber_comes_to_delete_the_current_fiber(
    history: Seq<Event>,
    trace: Seq<Event>,
    rest: FreeFiber,
)
    requires
        reaches(FreeFiber::Find(Lookup::Ask(ThreadQuery)), trace, rest),
        truthful(history + trace, history.len() as int),
    ensures
        trace.len() <= 2,
        trace.len() > 0 ==> current_fiber(history) is Some,
        trace.len() == 2 ==> {
            &&& rest matches FreeFiber::Delete(fiber)
            &&& current_fiber(history) == Some(fiber)
            &&& rest.next() == (Call::DeleteFiber { fiber })
        },
        rest.next() is DeleteFiber ==> trace.len() == 2,
{
    free_fiber_comes_to_these_calls(trace, rest);
    if trace.len() > 0 {
        let whole = history + trace;
        let asked = history.push(trace[0]);
        lemma_first(history, trace);
        assert(truthful_at(whole, history.len() as int));
        if trace.len() == 2 {
            lemma_first(asked, trace.drop_first());
            assert(truthful_at(whole, asked.len() as int));
        }
    }
}

/// On an ordinary thread, freeing the current fiber is over after one call: nothing is deleted.
/// It cannot be over so soon on a thread that runs a fiber.
pub proof fn free_fiber_leaves_an_ordinary_thread_alone(history: Seq<Event>, trace: Seq<Event>)
    requires
        runs(FreeFiber::Find(Lookup::Ask(ThreadQuery)), trace, ()),
        truthful(history + trace, history.len() as int),
    ensures
        trace[0].call == Call::IsThreadAFiber,
        current_fiber(history) is None <==> trace.len() == 1,
        current_fiber(history) is Some <==> trace.len() == 3,
{
    reveal_with_fuel(runs, 4);
    lemma_first(history, trace);
    assert(truthful_at(history + trace, history.len() as int));
}

/// Making a fiber takes one call, which gets the stack size, the routine and the parameter as
/// they were given. The outcome is a fiber with the address that came back, or the error of the
/// operating system where that is null.
pub proof fn creation_makes_one_call<T, P>(
    creation: Creation<T, P>,
    trace: Seq<Event>,
    outcome: Result<Fiber<T, P>, FiberError>,
)
    requires
        runs(creation, trace, outcome),
    ensures
        trace.len() == 1,
        trace[0].call == (Call::CreateFiberEx {
            stack_commit_size: creation@.stack_size,
            stack_reserve_size: creation@.stack_size,
            flags: 1,
            routine: creation@.routine,
            parameter: creation@.parameter,
        }),
        trace[0].reply matches Reply::Opened { address, last_error } && match outcome {
            Ok(fiber) => {
                &&& address != 0
                &&& fiber@.address == address
                &&& !fiber@.from_thread
                &&& fiber@.entry_point == creation@.entry_point
                &&& fiber@.state == creation@.state
            },
            Err(error) => address == 0 && error == FiberError::FailedToCreate(last_error),
        },
{
}

/// A fiber that was made keeps the entry point and the state that it was to be made with,
/// whatever its address.
pub proof fn a_made_fiber_keeps_its_entry_point_and_state<T, P>(
    creation: Creation<T, P>,
    trace: Seq<Event>,
    fiber: Fiber<T, P>,
)
    requires
        runs(creation, trace, Ok(fiber)),
    ensures
        fiber@.entry_point == creation@.entry_point,
        creation@.entry_point is Some ==> fiber@.entry_point is Some,
        fiber@.state == creation@.state,
        !fiber@.from_thread,
        trace[0].reply matches Reply::Opened { address, .. } && fiber@.address == address,
{
}

/// Where the operating system refuses to make a fiber, the outcome is its own error, whether or
/// not the fiber was to own an entry point. Where it does not, the outcome is a fiber.
pub proof fn a_refused_creation_is_the_error_of_the_system<T, P>(
    creation: Creation<T, P>,
    trace: Seq<Event>,
    outcome: Result<Fiber<T, P>, FiberError>,
    address: usize,
    last_error: std::io::Error,
)
    requires
        runs(creation, trace, outcome),
        trace[0].reply == (Reply::Opened { address, last_error }),
    ensures
        address == 0 ==> outcome == Err::<Fiber<T, P>, FiberError>(
            FiberError::FailedToCreate(last_error),
        ),
        address != 0 ==> outcome is Ok,
        !(outcome matches Err(FiberError::InvalidStackSize)),
        !(outcome matches Err(FiberError::ThreadAlreadyAFiber)),
{
}

/// The entry point and the state change nothing else: two creations that differ in these alone
/// make the same call, and the same reply gives fibers with the same address, each with its own
/// entry point and state, or refuses both with the same error.
pub proof fn entry_point_and_state_change_nothing_else<T, P, U, Q>(
    creation: Creation<T, P>,
    twin: Creation<U, Q>,
    trace: Seq<Event>,
    twin_trace: Seq<Event>,
    outcome: Result<Fiber<T, P>, FiberError>,
    twin_outcome: Result<Fiber<U, Q>, FiberError>,
)
    requires
        creation@.stack_size == twin@.stack_size,
        creation@.routine == twin@.routine,
        creation@.parameter == twin@.parameter,
        runs(creation, trace, outcome),
        runs(twin, twin_trace, twin_outcome),
        trace[0].reply == twin_trace[0].reply,
    ensures
        trace[0].call == twin_trace[0].call,
        match (outcome, twin_outcome) {
            (Ok(fiber), Ok(other)) => {
                &&& fiber@.address == other@.address
                &&& !fiber@.from_thread && !other@.from_thread
                &&& fiber@.entry_point == creation@.entry_point
                &&& other@.entry_point == twin@.entry_point
                &&& fiber@.state == creation@.state
                &&& other@.state == twin@.state
            },
            (Err(error), Err(other)) => error == other,
            _ => false,
        },
{
    creation_makes_one_call(creation, trace, outcome);
    creation_makes_one_call(twin, twin_trace, twin_outcome);
}

/// A fiber does not run when it is made: the thread goes on as it was.
pub proof fn creation_leaves_the_thread_as_it_was<T, P>(
    history: Seq<Event>,
    creation: Creation<T, P>,
    trace: Seq<Event>,
    outcome: Result<Fiber<T, P>, FiberError>,
)
    requires
        runs(creation, trace, outcome),
    ensures
        current_fiber(history + trace) == current_fiber(history),
{
    creation_makes_one_call(creation, trace, outcome);
    lemma_first(history, trace);
    assert(history + trace =~= history.push(trace[0]));
}

/// Converting the thread takes two calls: whether it is a fiber, and then either which one it
/// is, to refuse, or the conversion itself. The outcome is then a fiber with the address that
/// came back, or the error of the operating system where that is null.
pub proof fn conversion_makes_two_calls<T, P>(
    conversion: Conversion<T, P>,
    state: T,
    trace: Seq<Event>,
    outcome: Result<Fiber<T, P>, FiberError>,
)
    requires
        conversion@ == (ConversionView {
            stage: ConversionStage::Find(Lookup::Ask(ThreadQuery)),
            state,
        }),
        runs(conversion, trace, outcome),
    ensures
        trace.len() == 2,
        trace[0].call == Call::IsThreadAFiber,
        trace[0].reply matches Reply::Flag(flag) && if flag > 0 {
            &&& outcome matches Err(FiberError::ThreadAlreadyAFiber)
            &&& trace[1].call == Call::GetCurrentFiber
        } else {
            &&& trace[1].call == (Call::ConvertThreadToFiberEx { parameter: 0, flags: 1 })
            &&& trace[1].reply matches Reply::Opened { address, last_error }
            &&& match outcome {
                Ok(fiber) => {
                    &&& address != 0
                    &&& fiber@.address == address
                    &&& fiber@.from_thread
                    &&& fiber@.entry_point is None
                    &&& fiber@.state == state
                },
                Err(error) => address == 0 && error == FiberError::FailedToCreate(last_error),
            }
        },
{
    reveal_with_fuel(runs, 4);
    assert(trace.len() > 1 ==> trace[1] == trace.drop_first()[0]);
}

/// Where the operating system refuses to convert an ordinary thread, the outcome is its own
/// error, whatever the type of the state. Where it does not, the outcome is a fiber with that
/// state.
pub proof fn a_refused_conversion_is_the_error_of_the_system<T, P>(
    conversion: Conversion<T, P>,
    state: T,
    trace: Seq<Event>,
    outcome: Result<Fiber<T, P>, FiberError>,
    flag: i32,
    address: usize,
    last_error: std::io::Error,
)
    requires
        conversion@.stage == ConversionStage::Find(Lookup::Ask(ThreadQuery)),
        conversion@.state == state,
        runs(conversion, trace, outcome),
        trace[0].reply == Reply::Flag(flag),
        flag <= 0,
        trace[1].reply == (Reply::Opened { address, last_error }),
    ensures
        address == 0 ==> outcome == Err::<Fiber<T, P>, FiberError>(
            FiberError::FailedToCreate(last_error),
        ),
        address != 0 ==> {
            &&& outcome matches Ok(fiber)
            &&& fiber@.address == address
            &&& fiber@.from_thread
            &&& fiber@.entry_point is None
            &&& fiber@.state == state
        },
{
    conversion_makes_two_calls(conversion, state, trace, outcome);
}

/// The state changes nothing else: two conversions that get the same replies make the same
/// calls, and give fibers with the same address, each with its own state, or fail with the same
/// error, whatever the types of the states.
pub proof fn the_state_changes_nothing_else<T, P, U, Q>(
    conversion: Conversion<T, P>,
    twin: Conversion<U, Q>,
    trace: Seq<Event>,
    twin_trace: Seq<Event>,
    outcome: Result<Fiber<T, P>, FiberError>,
    twin_outcome: Result<Fiber<U, Q>, FiberError>,
)
    requires
        conversion@.stage == ConversionStage::Find(Lookup::Ask(ThreadQuery)),
        twin@.stage == ConversionStage::Find(Lookup::Ask(ThreadQuery)),
        runs(conversion, trace, outcome),
        runs(twin, twin_trace, twin_outcome),
        trace[0].reply == twin_trace[0].reply,
        trace[1].reply == twin_trace[1].reply,
    ensures
        trace[0].call == twin_trace[0].call,
        trace[1].call == twin_trace[1].call,
        match (outcome, twin_outcome) {
            (Ok(fiber), Ok(other)) => {
                &&& fiber@.address == other@.address
                &&& fiber@.from_thread && other@.from_thread
                &&& fiber@.state == conversion@.state
                &&& other@.state == twin@.state
            },
            (Err(error), Err(other)) => error == other,
            _ => false,
        },
{
    conversion_makes_two_calls(conversion, conversion@.state, trace, outcome);
    conversion_makes_two_calls(twin, twin@.state, twin_trace, twin_outcome);
}

/// A thread that tells that it is a fiber is refused as such, whatever the fiber and the state,
/// and is not converted; an ordinary one is never refused as such.
pub proof fn a_fiber_is_refused_as_such<T, P>(
    conversion: Conversion<T, P>,
    trace: Seq<Event>,
    outcome: Result<Fiber<T, P>, FiberError>,
    flag: i32,
)
    requires
        conversion@.stage == ConversionStage::Find(Lookup::Ask(ThreadQuery)),
        runs(conversion, trace, outcome),
        trace[0].reply == Reply::Flag(flag),
    ensures
        outcome == Err::<Fiber<T, P>, FiberError>(FiberError::ThreadAlreadyAFiber) <==> flag > 0,
        trace[1].call is ConvertThreadToFiberEx <==> flag <= 0,
        !(outcome matches Err(FiberError::InvalidStackSize)),
{
    conversion_makes_two_calls(conversion, conversion@.state, trace, outcome);
}

/// Asking is answered by the sign of the flag.
pub proof fn a_query_is_answered_by_the_sign(flag: i32, answer: bool)
    requires
        runs(
            ThreadQuery,
            seq![Event { call: Call::IsThreadAFiber, reply: Reply::Flag(flag) }],
            answer,
        ),
    ensures
        answer == (flag > 0),
{
}

/// Freeing the current fiber, where it comes to an end at all, either asked an ordinary thread
/// and did nothing, or deleted the fiber that it was told of.
pub proof fn free_fiber_makes_these_calls(trace: Seq<Event>)
    requires
        runs(FreeFiber::Find(Lookup::Ask(ThreadQuery)), trace, ()),
    ensures
        trace[0].call == Call::IsThreadAFiber,
        trace[0].reply matches Reply::Flag(flag) && if flag > 0 {
            &&& trace.len() == 3
            &&& trace[1].call == Call::GetCurrentFiber
            &&& trace[1].reply matches Reply::Address(fiber)
            &&& trace[2].call == (Call::DeleteFiber { fiber })
        } else {
            trace.len() == 1
        },
{
    reveal_with_fuel(runs, 4);
    assert(trace.len() > 1 ==> trace[1] == trace.drop_first()[0]);
    assert(trace.len() > 2 ==> trace[2] == trace.drop_first().drop_first()[0]);
}

/// A reply fits a call by its kind alone, whatever the flag, the address or the error in it.
pub proof fn a_reply_fits_by_its_kind(call: Call, reply: Reply)
    ensures
        reply is Flag ==> (call.answered_by(reply) <==> call is IsThreadAFiber
            || call is ConvertFiberToThread),
        reply is Address ==> (call.answered_by(reply) <==> call is GetCurrentFiber),
        reply is Opened ==> (call.answered_by(reply) <==> call is CreateFiberEx
            || call is ConvertThreadToFiberEx),
        reply is Returned ==> (call.answered_by(reply) <==> call is SwitchToFiber
            || call is DeleteFiber),
{
}

/// A fiber is given back by deleting it at its address, unless it was a thread, which is
/// converted back.
pub proof fn a_fiber_is_given_back_by_its_origin<T, P>(fiber: Fiber<T, P>)
    ensures
        fiber@.from_thread ==> fiber@.release_call() == Call::ConvertFiberToThread,
        !fiber@.from_thread ==> fiber@.release_call() == (Call::DeleteFiber {
            fiber: fiber@.address,
        }),
{
}

/// The thread is refused exactly where it is a fiber already. Where it is converted, it runs
/// the fiber that comes of it; else it goes on as it was.
pub proof fn from_thread_is_refused_iff_the_thread_is_a_fiber<T, P>(
    history: Seq<Event>,
    conversion: Conversion<T, P>,
    state: T,
    trace: Seq<Event>,
    outcome: Result<Fiber<T, P>, FiberError>,
)
    requires
        conversion@ == (ConversionView {
            stage: ConversionStage::Find(Lookup::Ask(ThreadQuery)),
            state,
        }),
        runs(conversion, trace, outcome),
        truthful(history + trace, history.len() as int),
    ensures
        outcome matches Err(FiberError::ThreadAlreadyAFiber) <==> current_fiber(history) is Some,
        current_fiber(history + trace) == match outcome {
            Ok(fiber) => Some(fiber@.address),
            Err(_) => current_fiber(history),
        },
{
    conversion_makes_two_calls(conversion, state, trace, outcome);
    let asked = history.push(trace[0]);
    let rest = trace.drop_first();
    lemma_first(history, trace);
    lemma_first(asked, rest);
    assert(truthful_at(history + trace, history.len() as int));
    assert(asked.push(rest[0]) + rest.drop_first() =~= asked.push(rest[0]));
}

/// A thread that is a fiber stays one until it is converted back.
pub proof fn a_fiber_until_converted_back(history: Seq<Event>, later: Seq<Event>)
    requires
        current_fiber(history) is Some,
        forall|i: int| 0 <= i < later.len() ==> (#[trigger] later[i]).call !is ConvertFiberToThread,
    ensures
        current_fiber(history + later) is Some,
    decreases later.len(),
{
    if later.len() == 0 {
        assert(history + later =~= history);
    } else {
        let earlier = later.drop_last();
        assert forall|i: int| 0 <= i < earlier.len() implies (
        #[trigger] earlier[i]).call !is ConvertFiberToThread by {
            assert(earlier[i] == later[i]);
        }
        a_fiber_until_converted_back(history, earlier);
        lemma_push(history + earlier, later.last());
        assert(history + later =~= (history + earlier).push(later.last()));
    }
}

/// Once the thread is converted, it is refused, whatever is called in between, for as long as
/// it is not converted back; the state of either fiber may be of any type.
pub proof fn from_thread_is_refused_until_converted_back<T, P, U, Q>(
    history: Seq<Event>,
    first: Conversion<T, P>,
    first_state: T,
    first_trace: Seq<Event>,
    fiber: Fiber<T, P>,
    later: Seq<Event>,
    second: Conversion<U, Q>,
    second_state: U,
    second_trace: Seq<Event>,
    outcome: Result<Fiber<U, Q>, FiberError>,
)
    requires
        first@ == (ConversionView {
            stage: ConversionStage::Find(Lookup::Ask(ThreadQuery)),
            state: first_state,
        }),
        runs(first, first_trace, Ok(fiber)),
        truthful(history + first_trace, history.len() as int),
        forall|i: int| 0 <= i < later.len() ==> (#[trigger] later[i]).call !is ConvertFiberToThread,
        second@ == (ConversionView {
            stage: ConversionStage::Find(Lookup::Ask(ThreadQuery)),
            state: second_state,
        }),
        runs(second, second_trace, outcome),
        truthful(
            history + first_trace + later + second_trace,
            (history + first_trace + later).len() as int,
        ),
    ensures
        outcome matches Err(FiberError::ThreadAlreadyAFiber),
{
    from_thread_is_refused_iff_the_thread_is_a_fiber(
        history,
        first,
        first_state,
        first_trace,
        Ok(fiber),
    );
    a_fiber_until_converted_back(history + first_trace, later);
    from_thread_is_refused_iff_the_thread_is_a_fiber(
        history + first_trace + later,
        second,
        second_state,
        second_trace,
        outcome,
    );
}

/// Releasing the fiber of a thread converts the thread back: it is an ordinary thread again,
/// and converting it anew is not refused.
pub proof fn from_thread_works_again_after_release<T, P, U, Q>(
    history: Seq<Event>,
    fiber: Fiber<T, P>,
    released: Event,
    again: Conversion<U, Q>,
    state: U,
    trace: Seq<Event>,
    outcome: Result<Fiber<U, Q>, FiberError>,
)
    requires
        fiber@.from_thread,
        released.call == fiber@.release_call(),
        released.reply matches Reply::Flag(done) && done != 0,
        again@ == (ConversionView {
            stage: ConversionStage::Find(Lookup::Ask(ThreadQuery)),
            state,
        }),
        runs(again, trace, outcome),
        truthful(history.push(released) + trace, (history.len() + 1) as int),
    ensures
        current_fiber(history.push(released)) is None,
        !(outcome matches Err(FiberError::ThreadAlreadyAFiber)),
{
    lemma_push(history, released);
    from_thread_is_refused_iff_the_thread_is_a_fiber(
        history.push(released),
        again,
        state,
        trace,
        outcome,
    );
}

/// Switching to a fiber, on a thread that is one, makes the thread run it: a look-up finds it.
pub proof fn switch_to_makes_the_fiber_current<T, P>(
    history: Seq<Event>,
    fiber: Fiber<T, P>,
    switched: Event,
    trace: Seq<Event>,
    found: Option<usize>,
)
    requires
        current_fiber(history) is Some,
        switched.call == (Call::SwitchToFiber { fiber: fiber@.address }),
        runs(Lookup::Ask(ThreadQuery), trace, found),
        truthful(history.push(switched) + trace, (history.len() + 1) as int),
    ensures
        found == Some(fiber@.address),
{
    lemma_push(history, switched);
    lookup_finds_the_current_fiber(history.push(switched), trace, found);
}

/// A switch away and back leaves the thread as it was: whatever was called in between, short of
/// converting the thread back, it runs the fiber that made the switch again, and a look-up finds
/// that fiber. The owners of fibers are not touched by a switch at all.
pub proof fn switching_back_makes_the_caller_current_again(
    history: Seq<Event>,
    caller: usize,
    away: Event,
    later: Seq<Event>,
    trace: Seq<Event>,
    found: Option<usize>,
)
    requires
        current_fiber(history) == Some(caller),
        away.call is SwitchToFiber,
        later.len() > 0,
        forall|i: int| 0 <= i < later.len() ==> (#[trigger] later[i]).call !is ConvertFiberToThread,
        later.last().call == (Call::SwitchToFiber { fiber: caller }),
        runs(Lookup::Ask(ThreadQuery), trace, found),
        truthful(
            history.push(away) + later + trace,
            (history.push(away) + later).len() as int,
        ),
    ensures
        current_fiber(history.push(away) + later) == Some(caller),
        found == Some(caller),
{
    let switched = history.push(away);
    let between = later.drop_last();
    lemma_push(history, away);
    assert forall|i: int| 0 <= i < between.len() implies (
    #[trigger] between[i]).call !is ConvertFiberToThread by {
        assert(between[i] == later[i]);
    }
    a_fiber_until_converted_back(switched, between);
    lemma_push(switched + between, later.last());
    assert(switched + later =~= (switched + between).push(later.last()));
    lookup_finds_the_current_fiber(switched + later, trace, found);
}

/// A fiber that was made is released by deleting the very fiber that the operating system gave.
pub proof fn release_deletes_what_was_created<T, P>(
    creation: Creation<T, P>,
    trace: Seq<Event>,
    fiber: Fiber<T, P>,
)
    requires
        runs(creation, trace, Ok(fiber)),
    ensures
        trace[0].reply matches Reply::Opened { address, .. } && address != 0
            && fiber@.release_call() == (Call::DeleteFiber { fiber: address }),
{
    creation_makes_one_call(creation, trace, Ok(fiber));
}

/// The fiber of a thread is never deleted: the thread is converted back.
pub proof fn release_converts_back_what_was_converted<T, P>(
    conversion: Conversion<T, P>,
    state: T,
    trace: Seq<Event>,
    fiber: Fiber<T, P>,
)
    requires
        conversion@ == (ConversionView {
            stage: ConversionStage::Find(Lookup::Ask(ThreadQuery)),
            state,
        }),
        runs(conversion, trace, Ok(fiber)),
    ensures
        fiber@.release_call() == Call::ConvertFiberToThread,
{
    conversion_makes_two_calls(conversion, state, trace, Ok(fiber));
}

/// A fiber that frees itself and is dropped too is deleted twice: the thread that runs it and
/// its owner come to make the same call.
pub proof fn a_fiber_that_freed_itself_must_not_be_released<T, P>(
    history: Seq<Event>,
    fiber: Fiber<T, P>,
    trace: Seq<Event>,
    rest: FreeFiber,
)
    requires
        !fiber@.from_thread,
        current_fiber(history) == Some(fiber@.address),
        reaches(FreeFiber::Find(Lookup::Ask(ThreadQuery)), trace, rest),
        trace.len() == 2,
        truthful(history + trace, history.len() as int),
    ensures
        rest.next() == fiber@.release_call(),
{
    free_fiber_comes_to_delete_the_current_fiber(history, trace, rest);
}

} // verus!
