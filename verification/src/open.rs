//! The operations that open a fiber.
use crate::call::{Call, Reply, FIBER_FLAG_FLOAT_SWITCH};
use crate::error::FiberError;
use crate::fiber::{Fiber, FiberView};
use crate::lookup::Lookup;
use crate::operation::{Operation, Step};
use core::marker::PhantomData;
use vstd::prelude::*;

verus! {

/// A fiber that the operating system is to make.
pub struct Creation<T, P> {
    stack_size: usize,
    routine: usize,
    parameter: usize,
    entry_point: Option<P>,
    state: T,
}

/// What a [`Creation`] is made of.
pub struct CreationView<T, P> {
    /// The size of the stack, in bytes.
    pub stack_size: usize,
    /// The address of the routine that the fiber starts with.
    pub routine: usize,
    /// What that routine gets.
    pub parameter: usize,
    /// The entry point, where the fiber is to own it.
    pub entry_point: Option<P>,
    /// The custom state of the fiber.
    pub state: T,
}

impl<T, P> View for Creation<T, P> {
    type V = CreationView<T, P>;

    closed spec fn view(&self) -> CreationView<T, P> {
        CreationView {
            stack_size: self.stack_size,
            routine: self.routine,
            parameter: self.parameter,
            entry_point: self.entry_point,
            state: self.state,
        }
    }
}

/// The view of a creation is made of what it holds, and of nothing that is there for proofs
/// alone.
proof fn lemma_view_of_a_creation<T, P>(creation: Creation<T, P>)
    ensures
        creation@.stack_size == creation.stack_size,
        creation@.routine == creation.routine,
        creation@.parameter == creation.parameter,
        creation@.entry_point == creation.entry_point,
        creation@.state == creation.state,
{
}

/// The outcome of a call that was to open a fiber and returned `address`: the fiber that
/// `opened` describes, or `last_error` where the address is null.
pub open spec fn opens<T, P>(
    address: usize,
    last_error: std::io::Error,
    opened: FiberView<T, P>,
    outcome: Result<Fiber<T, P>, FiberError>,
) -> bool {
    match outcome {
        Ok(fiber) => address != 0 && fiber@ == opened,
        Err(error) => address == 0 && error == FiberError::FailedToCreate(last_error),
    }
}

impl<T, P> Creation<T, P> {
    #[verifier::type_invariant]
    spec fn has_a_stack(self) -> bool {
        self.stack_size != 0
    }

    /// A fiber that owns no entry point.
    pub(crate) fn start(stack_size: usize, state: T, routine: usize, parameter: usize) -> (creation:
        Self)
        requires
            stack_size != 0,
        ensures
            creation@ == (CreationView {
                stack_size,
                routine,
                parameter,
                entry_point: None::<P>,
                state,
            }),
    {
        Creation { stack_size, routine, parameter, entry_point: None, state }
    }

    /// The same fiber, as the owner of `entry_point`.
    pub(crate) fn with_entry_point(self, entry_point: P) -> (creation: Self)
        ensures
            creation@ == (CreationView { entry_point: Some(entry_point), ..self@ }),
    {
        proof {
            use_type_invariant(&self);
        }
        Creation {
            stack_size: self.stack_size,
            routine: self.routine,
            parameter: self.parameter,
            entry_point: Some(entry_point),
            state: self.state,
        }
    }
}

impl<T, P> Operation for Creation<T, P> {
    type Output = Result<Fiber<T, P>, FiberError>;

    open spec fn next(&self) -> Call {
        Call::CreateFiberEx {
            stack_commit_size: self@.stack_size,
            stack_reserve_size: self@.stack_size,
            flags: FIBER_FLAG_FLOAT_SWITCH,
            routine: self@.routine,
            parameter: self@.parameter,
        }
    }

    open spec fn leads_to(
        &self,
        reply: Reply,
        step: Step<Self, Result<Fiber<T, P>, FiberError>>,
    ) -> bool {
        &&& reply matches Reply::Opened { address, last_error }
        &&& step matches Step::Done(outcome)
        &&& opens(
            address,
            last_error,
            FiberView {
                address,
                from_thread: false,
                entry_point: self@.entry_point,
                state: self@.state,
            },
            outcome,
        )
    }

    open spec fn calls_left(&self) -> nat {
        1
    }

    fn call(&self) -> (call: Call)
        ensures
            self@.stack_size != 0,
            call == (Call::CreateFiberEx {
                stack_commit_size: self@.stack_size,
                stack_reserve_size: self@.stack_size,
                flags: 1,
                routine: self@.routine,
                parameter: self@.parameter,
            }),
    {
        proof {
            use_type_invariant(self);
        }
        Call::CreateFiberEx {
            stack_commit_size: self.stack_size,
            stack_reserve_size: self.stack_size,
            flags: FIBER_FLAG_FLOAT_SWITCH,
            routine: self.routine,
            parameter: self.parameter,
        }
    }

    fn resume(self, reply: Reply) -> (step: Step<Self, Result<Fiber<T, P>, FiberError>>)
        ensures
            reply matches Reply::Opened { address, last_error } && match step {
                Step::Done(Ok(fiber)) => {
                    &&& address != 0
                    &&& fiber@.address == address
                    &&& !fiber@.from_thread
                    &&& fiber@.entry_point == self@.entry_point
                    &&& fiber@.state == self@.state
                },
                Step::Done(Err(error)) => address == 0 && error == FiberError::FailedToCreate(
                    last_error,
                ),
                Step::Pending(_) => false,
            },
    {
        match reply {
            Reply::Opened { address, last_error } => Step::Done(
                Fiber::from_address(
                    address,
                    false,
                    self.entry_point,
                    self.state,
                    last_error,
                ),
            ),
            _ => vstd::pervasive::unreached(),
        }
    }
}

/// The current thread, which is to become a fiber.
pub struct Conversion<T, P> {
    stage: ConversionStage,
    state: T,
    fiber: PhantomData<P>,
}

/// How far a [`Conversion`] has come.
#[derive(Clone, Copy, Debug, PartialEq, Eq, Structural)]
pub enum ConversionStage {
    /// Is the thread a fiber already?
    Find(Lookup),
    /// It is not: it is to be converted.
    Convert,
}

/// What a [`Conversion`] is made of.
pub struct ConversionView<T> {
    /// How far it has come.
    pub stage: ConversionStage,
    /// The custom state of the fiber.
    pub state: T,
}

impl<T, P> View for Conversion<T, P> {
    type V = ConversionView<T>;

    closed spec fn view(&self) -> ConversionView<T> {
        ConversionView { stage: self.stage, state: self.state }
    }
}

impl<T, P> Conversion<T, P> {
    /// A conversion that is to begin with `lookup`.
    pub(crate) fn start(lookup: Lookup, state: T) -> (conversion: Self)
        ensures
            conversion@ == (ConversionView { stage: ConversionStage::Find(lookup), state }),
    {
        Conversion { stage: ConversionStage::Find(lookup), state, fiber: PhantomData }
    }
}

impl<T, P> Operation for Conversion<T, P> {
    type Output = Result<Fiber<T, P>, FiberError>;

    open spec fn next(&self) -> Call {
        match self@.stage {
            ConversionStage::Find(lookup) => lookup.next(),
            ConversionStage::Convert => Call::ConvertThreadToFiberEx {
                parameter: 0,
                flags: FIBER_FLAG_FLOAT_SWITCH,
            },
        }
    }

    open spec fn leads_to(
        &self,
        reply: Reply,
        step: Step<Self, Result<Fiber<T, P>, FiberError>>,
    ) -> bool {
        match self@.stage {
            ConversionStage::Find(lookup) => match step {
                Step::Pending(rest) => {
                    &&& rest@.state == self@.state
                    &&& match rest@.stage {
                        ConversionStage::Find(next) => lookup.leads_to(reply, Step::Pending(next)),
                        ConversionStage::Convert => lookup.leads_to(reply, Step::Done(None)),
                    }
                },
                Step::Done(outcome) => {
                    &&& outcome matches Err(FiberError::ThreadAlreadyAFiber)
                    &&& exists|fiber: usize| lookup.leads_to(reply, Step::Done(Some(fiber)))
                },
            },
            ConversionStage::Convert => {
                &&& reply matches Reply::Opened { address, last_error }
                &&& step matches Step::Done(outcome)
                &&& opens(
                    address,
                    last_error,
                    FiberView {
                        address,
                        from_thread: true,
                        entry_point: None,
                        state: self@.state,
                    },
                    outcome,
                )
            },
        }
    }

    open spec fn calls_left(&self) -> nat {
        match self@.stage {
            ConversionStage::Find(lookup) => lookup.calls_left(),
            ConversionStage::Convert => 1,
        }
    }

    fn call(&self) -> (call: Call)
        ensures
            call == match self@.stage {
                ConversionStage::Find(Lookup::Ask(_)) => Call::IsThreadAFiber,
                ConversionStage::Find(Lookup::Read) => Call::GetCurrentFiber,
                ConversionStage::Convert => Call::ConvertThreadToFiberEx {
                    parameter: 0,
                    flags: 1,
                },
            },
    {
        match self.stage {
            ConversionStage::Find(lookup) => lookup.call(),
            ConversionStage::Convert => Call::ConvertThreadToFiberEx {
                parameter: 0,
                flags: FIBER_FLAG_FLOAT_SWITCH,
            },
        }
    }

    fn resume(self, reply: Reply) -> (step: Step<Self, Result<Fiber<T, P>, FiberError>>)
        ensures
            match self@.stage {
                ConversionStage::Find(Lookup::Ask(_)) => {
                    &&& reply matches Reply::Flag(flag)
                    &&& step matches Step::Pending(rest)
                    &&& rest@.state == self@.state
                    &&& flag > 0 ==> rest@.stage == ConversionStage::Find(Lookup::Read)
                    &&& flag <= 0 ==> rest@.stage == ConversionStage::Convert
                },
                ConversionStage::Find(Lookup::Read) => step matches Step::Done(
                    Err(FiberError::ThreadAlreadyAFiber),
                ),
                ConversionStage::Convert => {
                    &&& reply matches Reply::Opened { address, last_error }
                    &&& match step {
                        Step::Done(Ok(fiber)) => {
                            &&& address != 0
                            &&& fiber@.address == address
                            &&& fiber@.from_thread
                            &&& fiber@.entry_point is None
                            &&& fiber@.state == self@.state
                        },
                        Step::Done(Err(error)) => address == 0 && error
                            == FiberError::FailedToCreate(last_error),
                        Step::Pending(_) => false,
                    }
                },
            },
    {
        let state = self.state;
        match self.stage {
            ConversionStage::Find(lookup) => match lookup.resume(reply) {
                Step::Pending(rest) => Step::Pending(Self::start(rest, state)),
                Step::Done(Some(_)) => Step::Done(Err(FiberError::ThreadAlreadyAFiber)),
                Step::Done(None) => Step::Pending(
                    Conversion { stage: ConversionStage::Convert, state, fiber: PhantomData },
                ),
            },
            ConversionStage::Convert => match reply {
                Reply::Opened { address, last_error } => Step::Done(
                    Fiber::from_address(
                        address,
                        true,
                        None,
                        state,
                        last_error,
                    ),
                ),
                _ => vstd::pervasive::unreached(),
            },
        }
    }
}

} // verus!
