//! The calls of the fiber API and what they return, as plain values.
use vstd::prelude::*;

verus! {

/// The fiber switches the floating-point state too.
pub const FIBER_FLAG_FLOAT_SWITCH: u32 = 0x1;

/// A call of the fiber API, with its arguments. Fibers, routines and their parameters are
/// addresses; the null pointer is `0`.
#[derive(Clone, Copy, Debug, PartialEq, Eq, Structural)]
pub enum Call {
    /// Is the current thread a fiber?
    IsThreadAFiber,
    /// The address of the fiber that the current thread runs.
    GetCurrentFiber,
    /// Makes a fiber that will run `routine` on `parameter` once it is switched to.
    CreateFiberEx {
        stack_commit_size: usize,
        stack_reserve_size: usize,
        flags: u32,
        routine: usize,
        parameter: usize,
    },
    /// Makes the current thread a fiber.
    ConvertThreadToFiberEx { parameter: usize, flags: u32 },
    /// Makes the current fiber an ordinary thread again.
    ConvertFiberToThread,
    /// Runs `fiber` on the current thread.
    SwitchToFiber { fiber: usize },
    /// Frees `fiber`; ends the current thread where that is the fiber it runs.
    DeleteFiber { fiber: usize },
}

/// What a call of the fiber API returned.
#[derive(Debug)]
pub enum Reply {
    /// A `BOOL`.
    Flag(i32),
    /// The address of the current fiber.
    Address(usize),
    /// The address of the fiber that the call opened; `0` for null, where it opened none and
    /// `last_error`, the error of the operating system right after the call, says why.
    Opened { address: usize, last_error: std::io::Error },
    /// The call returned, with no value.
    Returned,
}

impl Reply {
    /// The reply of a call that was to open a fiber and returned `address`. It takes the latest
    /// error of the operating system with it, so it is to be made right after the call.
    pub fn opened(address: usize) -> (reply: Self)
        ensures
            reply matches Reply::Opened { address: opened, .. } && opened == address,
    {
        Reply::Opened { address, last_error: std::io::Error::last_os_error() }
    }
}

impl Call {
    /// `reply` is of the kind that this call returns.
    pub open spec fn answered_by(self, reply: Reply) -> bool {
        match self {
            Call::IsThreadAFiber | Call::ConvertFiberToThread => reply is Flag,
            Call::GetCurrentFiber => reply is Address,
            Call::CreateFiberEx { .. } | Call::ConvertThreadToFiberEx { .. } => reply is Opened,
            Call::SwitchToFiber { .. } | Call::DeleteFiber { .. } => reply is Returned,
        }
    }

    /// Tells whether `reply` is of the kind that this call returns.
    pub fn accepts(&self, reply: &Reply) -> (fits: bool)
        ensures
            fits == self.answered_by(*reply),
            fits == match *reply {
                Reply::Flag(_) => *self is IsThreadAFiber || *self is ConvertFiberToThread,
                Reply::Address(_) => *self is GetCurrentFiber,
                Reply::Opened { .. } => *self is CreateFiberEx || *self is ConvertThreadToFiberEx,
                Reply::Returned => *self is SwitchToFiber || *self is DeleteFiber,
            },
    {
        match self {
            Call::IsThreadAFiber | Call::ConvertFiberToThread => matches!(reply, Reply::Flag(_)),
            Call::GetCurrentFiber => matches!(reply, Reply::Address(_)),
            Call::CreateFiberEx { .. } | Call::ConvertThreadToFiberEx { .. } => matches!(
                reply,
                Reply::Opened { .. }
            ),
            Call::SwitchToFiber { .. } | Call::DeleteFiber { .. } => matches!(
                reply,
                Reply::Returned
            ),
        }
    }
}

} // verus!
