//! Why a fiber could not be had.
use vstd::prelude::*;

verus! {

/// [`std::io::Error`], an error of the operating system. Nothing is claimed of what is inside.
#[verifier::external_type_specification]
#[verifier::external_body]
pub struct ExIoError(std::io::Error);

/// [`std::io::Error::last_os_error`] returns the error of the latest failed call of the operating
/// system on the current thread. Which one that is depends on those calls alone, so nothing is
/// claimed of it.
pub assume_specification[ std::io::Error::last_os_error ]() -> std::io::Error
;

/// Why a fiber could not be had.
#[derive(Debug)]
pub enum FiberError {
    /// The stack of a fiber cannot be of size `0`.
    InvalidStackSize,
    /// The current thread was converted to a fiber before and is still one.
    ThreadAlreadyAFiber,
    /// The operating system refused, for this reason.
    FailedToCreate(std::io::Error),
}

impl FiberError {
    /// `text` is what this error reads as, where the reason of the operating system reads as
    /// its `Display` impl has it.
    pub open spec fn reads_as(self, text: Seq<char>) -> bool {
        match self {
            FiberError::InvalidStackSize => text == "invalid fiber stack size"@,
            FiberError::ThreadAlreadyAFiber => text
                == "attempted to convert a thread to a fiber more than once"@,
            FiberError::FailedToCreate(cause) => exists|reason: String|
                #[trigger]
                vstd::string::to_string_from_display_ensures(&cause, reason) && text
                    == failed_to_create_text(reason@),
        }
    }

    /// The error in words.
    pub fn to_string(&self) -> (text: String)
        ensures
            self.reads_as(text@),
            match *self {
                FiberError::InvalidStackSize => text@ == "invalid fiber stack size"@,
                FiberError::ThreadAlreadyAFiber => text@
                    == "attempted to convert a thread to a fiber more than once"@,
                FiberError::FailedToCreate(cause) => exists|reason: String|
                    #[trigger]
                    vstd::string::to_string_from_display_ensures(&cause, reason) && text@
                        == "failed to create the fiber: "@ + reason@,
            },
    {
        match self {
            FiberError::InvalidStackSize => "invalid fiber stack size".to_owned(),
            FiberError::ThreadAlreadyAFiber => {
                "attempted to convert a thread to a fiber more than once".to_owned()
            },
            FiberError::FailedToCreate(cause) => failed_to_create_message(
                cause.to_string().as_str(),
            ),
        }
    }
}

/// The text of a failure of the operating system that reads as `reason`.
pub open spec fn failed_to_create_text(reason: Seq<char>) -> Seq<char> {
    "failed to create the fiber: "@ + reason
}

/// The text of a refusal gives the reason of the operating system whole, behind one and the same
/// beginning, so different reasons read differently.
pub proof fn a_refusal_gives_its_reason_whole(reason: Seq<char>, other: Seq<char>)
    ensures
        failed_to_create_text(reason) == "failed to create the fiber: "@ + reason,
        failed_to_create_text(reason).len() == 28 + reason.len(),
        failed_to_create_text(reason).skip(28) == reason,
        failed_to_create_text(reason) == failed_to_create_text(other) ==> reason == other,
{
    reveal_strlit("failed to create the fiber: ");
    assert(failed_to_create_text(reason).skip(28) =~= reason);
    assert(failed_to_create_text(other).skip(28) =~= other);
}

/// What an error reads as, word for word.
pub proof fn an_error_reads_as_its_words(error: FiberError, text: Seq<char>)
    requires
        error.reads_as(text),
    ensures
        error is InvalidStackSize ==> text == "invalid fiber stack size"@,
        error is ThreadAlreadyAFiber ==> text
            == "attempted to convert a thread to a fiber more than once"@,
        error matches FiberError::FailedToCreate(cause) ==> exists|reason: String|
            #[trigger]
            vstd::string::to_string_from_display_ensures(&cause, reason) && text
                == "failed to create the fiber: "@ + reason@,
{
}

/// Says in words that the operating system refused, for this reason.
pub fn failed_to_create_message(reason: &str) -> (text: String)
    ensures
        text@ == failed_to_create_text(reason@),
        text@ == "failed to create the fiber: "@ + reason@,
{
    "failed to create the fiber: ".to_owned().concat(reason)
}

} // verus!
