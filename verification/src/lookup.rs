//! Which fiber, if any, the current thread runs, and how it is freed.
use crate::call::{Call, Reply};
use crate::operation::{Operation, Step};
use vstd::prelude::*;

verus! {

/// Asks whether the current thread is a fiber.
#[derive(Clone, Copy, Debug, PartialEq, Eq, Structural)]
pub struct ThreadQuery;

impl Operation for ThreadQuery {
    type Output = bool;

    open spec fn next(&self) -> Call {
        Call::IsThreadAFiber
    }

    open spec fn leads_to(&self, reply: Reply, step: Step<Self, bool>) -> bool {
        reply matches Reply::Flag(flag) && step == Step::<Self, bool>::Done(flag > 0)
    }

    open spec fn calls_left(&self) -> nat {
        1
    }

    fn call(&self) -> (call: Call)
        ensures
            call == Call::IsThreadAFiber,
    {
        Call::IsThreadAFiber
    }

    fn resume(self, reply: Reply) -> (step: Step<Self, bool>)
        ensures
            reply matches Reply::Flag(flag) && (step matches Step::Done(answer) && answer == (flag
                > 0)),
    {
        match reply {
            Reply::Flag(flag) => Step::Done(flag > 0),
            _ => vstd::pervasive::unreached(),
        }
    }
}

/// Looks up the fiber that the current thread runs: none where the thread is no fiber.
#[derive(Clone, Copy, Debug, PartialEq, Eq, Structural)]
pub enum Lookup {
    /// Is the thread a fiber at all?
    Ask(ThreadQuery),
    /// It is: which one?
    Read,
}

impl Operation for Lookup {
    type Output = Option<usize>;

    open spec fn next(&self) -> Call {
        match self {
            Lookup::Ask(query) => query.next(),
            Lookup::Read => Call::GetCurrentFiber,
        }
    }

    open spec fn leads_to(&self, reply: Reply, step: Step<Self, Option<usize>>) -> bool {
        match self {
            Lookup::Ask(_) => reply matches Reply::Flag(flag) && step == (if flag > 0 {
                Step::<Self, Option<usize>>::Pending(Lookup::Read)
            } else {
                Step::<Self, Option<usize>>::Done(None)
            }),
            Lookup::Read => reply matches Reply::Address(fiber) && step == Step::<
                Self,
                Option<usize>,
            >::Done(Some(fiber)),
        }
    }

    open spec fn calls_left(&self) -> nat {
        match self {
            Lookup::Ask(_) => 2,
            Lookup::Read => 1,
        }
    }

    fn call(&self) -> (call: Call)
        ensures
            self is Ask ==> call == Call::IsThreadAFiber,
            self is Read ==> call == Call::GetCurrentFiber,
    {
        match self {
            Lookup::Ask(query) => query.call(),
            Lookup::Read => Call::GetCurrentFiber,
        }
    }

    fn resume(self, reply: Reply) -> (step: Step<Self, Option<usize>>)
        ensures
            match (self, reply) {
                (Lookup::Ask(_), Reply::Flag(flag)) => if flag > 0 {
                    step matches Step::Pending(Lookup::Read)
                } else {
                    step matches Step::Done(None)
                },
                (Lookup::Read, Reply::Address(fiber)) => step matches Step::Done(Some(found))
                    && found == fiber,
                _ => false,
            },
    {
        match self {
            Lookup::Ask(query) => match query.resume(reply) {
                Step::Done(true) => Step::Pending(Lookup::Read),
                Step::Done(false) => Step::Done(None),
                Step::Pending(query) => Step::Pending(Lookup::Ask(query)),
            },
            Lookup::Read => match reply {
                Reply::Address(fiber) => Step::Done(Some(fiber)),
                _ => vstd::pervasive::unreached(),
            },
        }
    }
}

/// Frees the fiber that the current thread runs, if it runs one.
#[derive(Clone, Copy, Debug, PartialEq, Eq, Structural)]
pub enum FreeFiber {
    /// Which fiber does the thread run?
    Find(Lookup),
    /// This one: it is to be deleted.
    Delete(usize),
}

impl Operation for FreeFiber {
    type Output = ();

    open spec fn next(&self) -> Call {
        match self {
            FreeFiber::Find(lookup) => lookup.next(),
            FreeFiber::Delete(fiber) => Call::DeleteFiber { fiber: *fiber },
        }
    }

    open spec fn leads_to(&self, reply: Reply, step: Step<Self, ()>) -> bool {
        match self {
            FreeFiber::Find(lookup) => match step {
                Step::Pending(FreeFiber::Find(rest)) => lookup.leads_to(
                    reply,
                    Step::Pending(rest),
                ),
                Step::Pending(FreeFiber::Delete(fiber)) => lookup.leads_to(
                    reply,
                    Step::Done(Some(fiber)),
                ),
                Step::Done(_) => lookup.leads_to(reply, Step::Done(None)),
            },
            FreeFiber::Delete(_) => step is Done,
        }
    }

    open spec fn calls_left(&self) -> nat {
        match self {
            FreeFiber::Find(lookup) => lookup.calls_left() + 1,
            FreeFiber::Delete(_) => 1,
        }
    }

    fn call(&self) -> (call: Call)
        ensures
            call == match *self {
                FreeFiber::Find(Lookup::Ask(_)) => Call::IsThreadAFiber,
                FreeFiber::Find(Lookup::Read) => Call::GetCurrentFiber,
                FreeFiber::Delete(fiber) => Call::DeleteFiber { fiber },
            },
    {
        match self {
            FreeFiber::Find(lookup) => lookup.call(),
            FreeFiber::Delete(fiber) => Call::DeleteFiber { fiber: *fiber },
        }
    }

    fn resume(self, reply: Reply) -> (step: Step<Self, ()>)
        ensures
            match (self, reply) {
                (FreeFiber::Find(Lookup::Ask(_)), Reply::Flag(flag)) => if flag > 0 {
                    step matches Step::Pending(FreeFiber::Find(Lookup::Read))
                } else {
                    step is Done
                },
                (FreeFiber::Find(Lookup::Read), Reply::Address(fiber)) => step matches Step::Pending(
                    FreeFiber::Delete(found),
                ) && found == fiber,
                (FreeFiber::Delete(_), Reply::Returned) => step is Done,
                _ => false,
            },
    {
        match self {
            FreeFiber::Find(lookup) => match lookup.resume(reply) {
                Step::Pending(rest) => Step::Pending(FreeFiber::Find(rest)),
                Step::Done(Some(fiber)) => Step::Pending(FreeFiber::Delete(fiber)),
                Step::Done(None) => Step::Done(()),
            },
            FreeFiber::Delete(_) => Step::Done(()),
        }
    }
}

} // verus!
