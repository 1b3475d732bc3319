//! Fibers, their owners and the calls that concern one fiber.
use crate::call::Call;
use crate::error::FiberError;
use crate::lookup::{FreeFiber, Lookup, ThreadQuery};
use crate::open::{Conversion, ConversionStage, ConversionView, Creation, CreationView};
use vstd::prelude::*;

verus! {

/// What a fiber made by [`Fiber::new`] runs: a closure that is called once.
pub trait FiberEntryPoint: FnOnce() + 'static {

}

impl<F: FnOnce() + 'static> FiberEntryPoint for F {

}

/// The address of a fiber, which is never null.
struct Handle {
    address: usize,
}

impl Handle {
    #[verifier::type_invariant]
    spec fn is_not_null(self) -> bool {
        self.address != 0
    }
}

/// The owner of a fiber of the operating system, and of state of type `T` beside it.
///
/// A fiber made by [`Fiber::new`] owns its entry point too, as a `P`.
pub struct Fiber<T, P> {
    fiber: Handle,
    from_thread: bool,
    entry_point: Option<P>,
    state: T,
}

/// What a [`Fiber`] is made of.
pub struct FiberView<T, P> {
    /// The address of the fiber of the operating system.
    pub address: usize,
    /// The fiber was a thread before.
    pub from_thread: bool,
    /// The entry point, where the fiber owns it.
    pub entry_point: Option<P>,
    /// The custom state.
    pub state: T,
}

impl<T, P> View for Fiber<T, P> {
    type V = FiberView<T, P>;

    closed spec fn view(&self) -> FiberView<T, P> {
        FiberView {
            address: self.fiber.address,
            from_thread: self.from_thread,
            entry_point: self.entry_point,
            state: self.state,
        }
    }
}

/// The view of a fiber is made of what its owner holds, and of nothing that is there for proofs
/// alone.
proof fn lemma_view_of_a_fiber<T, P>(fiber: Fiber<T, P>)
    ensures
        fiber@.address == fiber.fiber.address,
        fiber@.from_thread == fiber.from_thread,
        fiber@.entry_point == fiber.entry_point,
        fiber@.state == fiber.state,
{
}

impl<T, P> FiberView<T, P> {
    /// The call that gives the fiber back to the operating system: a thread becomes an ordinary
    /// thread again, any other fiber is deleted.
    pub open spec fn release_call(self) -> Call {
        if self.from_thread {
            Call::ConvertFiberToThread
        } else {
            Call::DeleteFiber { fiber: self.address }
        }
    }
}

impl<T, P> Fiber<T, P> {
    /// Starts to make a fiber with a stack of `stack_size` bytes that will call `entry_point`.
    ///
    /// `routine` is the address of the routine that the operating system starts the fiber with,
    /// and `parameter` the address that it hands to that routine, by which it finds
    /// `entry_point`. The fiber owns `entry_point` and frees it when it is dropped.
    ///
    /// Fails if `stack_size` is `0`, before any call is made.
    pub fn new(
        stack_size: usize,
        state: T,
        entry_point: P,
        routine: usize,
        parameter: usize,
    ) -> (creation: Result<Creation<T, P>, FiberError>) where P: FiberEntryPoint
        ensures
            match creation {
                Err(error) => stack_size == 0 && error is InvalidStackSize,
                Ok(creation) => stack_size != 0 && creation@ == (CreationView {
                    stack_size,
                    routine,
                    parameter,
                    entry_point: Some(entry_point),
                    state,
                }),
            },
    {
        match Self::new_fn(stack_size, state, routine, parameter) {
            Err(error) => Err(error),
            Ok(creation) => Ok(creation.with_entry_point(entry_point)),
        }
    }

    /// Starts to make a fiber with a stack of `stack_size` bytes that will run the routine at
    /// address `routine`, which gets `parameter` (this may be null).
    ///
    /// Fails if `stack_size` is `0`, before any call is made.
    pub fn new_fn(stack_size: usize, state: T, routine: usize, parameter: usize) -> (creation:
        Result<Creation<T, P>, FiberError>)
        ensures
            match creation {
                Err(error) => stack_size == 0 && error is InvalidStackSize,
                Ok(creation) => stack_size != 0 && creation@ == (CreationView {
                    stack_size,
                    routine,
                    parameter,
                    entry_point: None::<P>,
                    state,
                }),
            },
    {
        if stack_size == 0 {
            return Err(FiberError::InvalidStackSize);
        }
        Ok(Creation::start(stack_size, state, routine, parameter))
    }

    /// Starts to convert the current thread to a fiber, so that it can switch to other fibers.
    ///
    /// The operation fails if the thread is a fiber already.
    pub fn from_thread(state: T) -> (conversion: Conversion<T, P>)
        ensures
            conversion@ == (ConversionView {
                stage: ConversionStage::Find(Lookup::Ask(ThreadQuery)),
                state,
            }),
    {
        Conversion::start(Self::get_current_fiber(), state)
    }

    /// What comes of a call that was to open a fiber and returned `address`, where `last_error`
    /// is the latest error of the operating system.
    pub fn from_address(
        address: usize,
        from_thread: bool,
        entry_point: Option<P>,
        state: T,
        last_error: std::io::Error,
    ) -> (opened: Result<Self, FiberError>)
        ensures
            match opened {
                Ok(fiber) => address != 0 && fiber@ == (FiberView {
                    address,
                    from_thread,
                    entry_point,
                    state,
                }),
                Err(error) => address == 0 && error == FiberError::FailedToCreate(last_error),
            },
    {
        if address == 0 {
            Err(FiberError::FailedToCreate(last_error))
        } else {
            Ok(Fiber { fiber: Handle { address }, from_thread, entry_point, state })
        }
    }

    /// The call that switches the current thread to this fiber.
    ///
    /// The thread must have been converted by [`Fiber::from_thread`] and still be a fiber when
    /// the call is made, as [`in_order`](crate::ledger::in_order) asks of every switch.
    pub fn switch_to(&self) -> (call: Call)
        ensures
            call == (Call::SwitchToFiber { fiber: self@.address }),
            self@.address != 0,
    {
        proof {
            use_type_invariant(&self.fiber);
        }
        Call::SwitchToFiber { fiber: self.fiber.address }
    }

    /// The state that the fiber was made with.
    pub fn state(&self) -> (state: &T)
        ensures
            *state == self@.state,
    {
        &self.state
    }

    /// The state that the fiber was made with, to be changed.
    pub fn state_mut(&mut self) -> (state: &mut T)
        ensures
            *state == old(self)@.state,
            final(self)@ == (FiberView { state: *final(state), ..old(self)@ }),
    {
        &mut self.state
    }

    /// Whether the fiber was a thread before.
    pub fn is_thread_fiber(&self) -> (from_thread: bool)
        ensures
            from_thread == self@.from_thread,
    {
        self.from_thread
    }

    /// The call that gives the fiber back to the operating system. It is to be made once, when
    /// the owner is dropped, before the entry point and the state are.
    pub fn release(&self) -> (call: Call)
        ensures
            call == self@.release_call(),
            self@.from_thread ==> call == Call::ConvertFiberToThread,
            !self@.from_thread ==> call == (Call::DeleteFiber { fiber: self@.address }),
            self@.address != 0,
    {
        proof {
            use_type_invariant(&self.fiber);
        }
        if self.from_thread {
            Call::ConvertFiberToThread
        } else {
            Call::DeleteFiber { fiber: self.fiber.address }
        }
    }

    /// Starts to free the fiber that the current thread runs, which ends the thread.
    pub fn free_fiber() -> (operation: FreeFiber)
        ensures
            operation == FreeFiber::Find(Lookup::Ask(ThreadQuery)),
    {
        FreeFiber::Find(Self::get_current_fiber())
    }

    /// Starts to ask whether the current thread is a fiber.
    pub fn is_thread_a_fiber() -> (operation: ThreadQuery)
        ensures
            operation == ThreadQuery,
    {
        ThreadQuery
    }

    /// Starts to look up the fiber that the current thread runs.
    pub fn get_current_fiber() -> (operation: Lookup)
        ensures
            operation == Lookup::Ask(ThreadQuery),
    {
        Lookup::Ask(Self::is_thread_a_fiber())
    }

    /// What a fiber made by [`Fiber::new`] does: it calls its entry point, which is freed by
    /// then, and goes on to free itself.
    pub fn fiber_entry_point<F: FiberEntryPoint>(entry_point: Box<F>) -> (operation: FreeFiber)
        requires
            call_requires(*entry_point, ()),
        ensures
            call_ensures(*entry_point, (), ()),
            operation == FreeFiber::Find(Lookup::Ask(ThreadQuery)),
    {
        (*entry_point)();
        Self::free_fiber()
    }
}

} // verus!
