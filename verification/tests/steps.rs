//! The calls of each operation, one by one.
use minifiber::error::failed_to_create_message;
use minifiber::{
    asm_file, Call, Conversion, Creation, Fiber, FiberError, FreeFiber, Lookup, Operation, Reply,
    Step, ThreadQuery, FIBER_FLAG_FLOAT_SWITCH,
};
use std::cell::Cell;
use std::io;
use std::rc::Rc;

type Bare = Fiber<u32, fn()>;

fn pending<O, R>(step: Step<O, R>) -> O {
    match step {
        Step::Pending(operation) => operation,
        Step::Done(_) => panic!("the operation is over"),
    }
}

fn done<O, R>(step: Step<O, R>) -> R {
    match step {
        Step::Done(output) => output,
        Step::Pending(_) => panic!("the operation goes on"),
    }
}

fn created(address: usize) -> Result<Bare, FiberError> {
    let creation: Creation<u32, fn()> = Fiber::new_fn(1, 7, 2, 3).unwrap();
    done(creation.resume(Reply::opened(address)))
}

#[test]
fn stack_of_size_zero_is_refused() {
    assert!(matches!(Bare::new_fn(0, 7, 1, 2), Err(FiberError::InvalidStackSize)));
    let entry_point: fn() = || {};
    assert!(matches!(
        Bare::new(0, 7, entry_point, 1, 2),
        Err(FiberError::InvalidStackSize)
    ));
}

#[test]
fn creation_hands_its_arguments_on() {
    let creation = Bare::new_fn(64 * 1024, 7, 0x1234, 0).unwrap();
    assert_eq!(
        creation.call(),
        Call::CreateFiberEx {
            stack_commit_size: 65536,
            stack_reserve_size: 65536,
            flags: 1,
            routine: 0x1234,
            parameter: 0,
        }
    );
    let entry_point: fn() = || {};
    let creation = Bare::new(usize::MAX, 7, entry_point, 5, 6).unwrap();
    assert_eq!(
        creation.call(),
        Call::CreateFiberEx {
            stack_commit_size: usize::MAX,
            stack_reserve_size: usize::MAX,
            flags: FIBER_FLAG_FLOAT_SWITCH,
            routine: 5,
            parameter: 6,
        }
    );
}

#[test]
fn created_fiber_is_switched_to_and_deleted_by_its_address() {
    let fiber = created(0x40).unwrap();
    assert!(!fiber.is_thread_fiber());
    assert_eq!(*fiber.state(), 7);
    assert_eq!(fiber.switch_to(), Call::SwitchToFiber { fiber: 0x40 });
    assert_eq!(fiber.release(), Call::DeleteFiber { fiber: 0x40 });
}

#[test]
fn null_fiber_is_the_error_of_the_system() {
    let error = match created(0) {
        Err(FiberError::FailedToCreate(error)) => error,
        _ => panic!("null is no fiber"),
    };
    assert_eq!(error.raw_os_error(), io::Error::last_os_error().raw_os_error());

    let conversion = pending(Bare::from_thread(7).resume(Reply::Flag(0)));
    assert!(matches!(
        done(conversion.resume(Reply::opened(0))),
        Err(FiberError::FailedToCreate(_))
    ));
}

#[test]
fn refusal_carries_the_error_of_the_reply() {
    let refusal = |code: i32| Reply::Opened {
        address: 0,
        last_error: io::Error::from_raw_os_error(code),
    };
    let creation = Bare::new_fn(1, 7, 2, 3).unwrap();
    match done(creation.resume(refusal(8))) {
        Err(FiberError::FailedToCreate(error)) => assert_eq!(error.raw_os_error(), Some(8)),
        _ => panic!("null is no fiber"),
    }
    let conversion = pending(Bare::from_thread(7).resume(Reply::Flag(0)));
    match done(conversion.resume(refusal(14))) {
        Err(FiberError::FailedToCreate(error)) => assert_eq!(error.raw_os_error(), Some(14)),
        _ => panic!("null is no fiber"),
    }
}

#[test]
fn from_address_keeps_the_error_it_is_given() {
    let failed = Bare::from_address(0, true, None, 7, io::Error::from_raw_os_error(8));
    match failed {
        Err(FiberError::FailedToCreate(error)) => assert_eq!(error.raw_os_error(), Some(8)),
        _ => panic!("null is no fiber"),
    }
    let opened = Bare::from_address(16, true, None, 7, io::Error::from_raw_os_error(8)).unwrap();
    assert!(opened.is_thread_fiber());
    assert_eq!(opened.switch_to(), Call::SwitchToFiber { fiber: 16 });
}

#[test]
fn thread_is_asked_before_it_is_converted() {
    let conversion: Conversion<u32, fn()> = Fiber::from_thread(7);
    assert_eq!(conversion.call(), Call::IsThreadAFiber);
    let conversion = pending(conversion.resume(Reply::Flag(0)));
    assert_eq!(
        conversion.call(),
        Call::ConvertThreadToFiberEx { parameter: 0, flags: 1 }
    );
    let fiber = done(conversion.resume(Reply::opened(0x80))).unwrap();
    assert!(fiber.is_thread_fiber());
    assert_eq!(*fiber.state(), 7);
    assert_eq!(fiber.switch_to(), Call::SwitchToFiber { fiber: 0x80 });
    assert_eq!(fiber.release(), Call::ConvertFiberToThread);
}

#[test]
fn fiber_is_not_converted() {
    let conversion = pending(Bare::from_thread(7).resume(Reply::Flag(1)));
    assert_eq!(conversion.call(), Call::GetCurrentFiber);
    assert!(matches!(
        done(conversion.resume(Reply::Address(0x80))),
        Err(FiberError::ThreadAlreadyAFiber)
    ));
}

#[test]
fn only_a_positive_flag_means_a_fiber() {
    assert_eq!(Bare::is_thread_a_fiber().call(), Call::IsThreadAFiber);
    assert!(done(ThreadQuery.resume(Reply::Flag(1))));
    assert!(done(ThreadQuery.resume(Reply::Flag(i32::MAX))));
    assert!(!done(ThreadQuery.resume(Reply::Flag(0))));
    assert!(!done(ThreadQuery.resume(Reply::Flag(-1))));
    assert_eq!(done(Bare::get_current_fiber().resume(Reply::Flag(-1))), None);
}

#[test]
fn lookup_reads_the_fiber_only_on_a_fiber() {
    let lookup = Bare::get_current_fiber();
    assert_eq!(lookup, Lookup::Ask(ThreadQuery));
    assert_eq!(lookup.call(), Call::IsThreadAFiber);
    assert_eq!(done(lookup.resume(Reply::Flag(0))), None);
    let lookup = pending(lookup.resume(Reply::Flag(1)));
    assert_eq!(lookup.call(), Call::GetCurrentFiber);
    assert_eq!(done(lookup.resume(Reply::Address(0x90))), Some(0x90));
}

#[test]
fn free_fiber_deletes_the_fiber_it_finds() {
    let free = Bare::free_fiber();
    assert_eq!(free.call(), Call::IsThreadAFiber);
    done(free.resume(Reply::Flag(0)));
    let free = pending(free.resume(Reply::Flag(1)));
    assert_eq!(free.call(), Call::GetCurrentFiber);
    let free = pending(free.resume(Reply::Address(0x90)));
    assert_eq!(free, FreeFiber::Delete(0x90));
    assert_eq!(free.call(), Call::DeleteFiber { fiber: 0x90 });
    done(free.resume(Reply::Returned));
}

#[test]
fn entry_point_is_called_before_the_fiber_is_freed() {
    let calls = Rc::new(Cell::new(0));
    let counted = calls.clone();
    let free = Bare::fiber_entry_point(Box::new(move || counted.set(counted.get() + 1)));
    assert_eq!(calls.get(), 1);
    assert_eq!(Rc::strong_count(&calls), 1);
    assert_eq!(free, Bare::free_fiber());
}

#[test]
fn fiber_owns_its_entry_point() {
    let resource = Rc::new(());
    let captured = resource.clone();
    let entry_point = move || drop(captured);
    let fiber = done(
        Fiber::new(1, 7, entry_point, 2, 3).unwrap().resume(Reply::opened(16)),
    );
    assert!(fiber.is_ok());
    assert_eq!(Rc::strong_count(&resource), 2);
    drop(fiber);
    assert_eq!(Rc::strong_count(&resource), 1);
}

#[test]
fn entry_point_is_freed_when_creation_fails() {
    let resource = Rc::new(());
    let captured = resource.clone();
    let entry_point = move || drop(captured);
    let creation = Fiber::new(1, 7, entry_point, 2, 3).unwrap();
    assert_eq!(Rc::strong_count(&resource), 2);
    assert!(done(creation.resume(Reply::opened(0))).is_err());
    assert_eq!(Rc::strong_count(&resource), 1);
}

#[test]
fn state_can_be_changed() {
    let mut fiber = created(16).unwrap();
    *fiber.state_mut() = 8;
    assert_eq!(*fiber.state(), 8);
    assert_eq!(fiber.release(), Call::DeleteFiber { fiber: 16 });
}

#[test]
fn errors_in_words() {
    assert_eq!(FiberError::InvalidStackSize.to_string(), "invalid fiber stack size");
    assert_eq!(
        FiberError::ThreadAlreadyAFiber.to_string(),
        "attempted to convert a thread to a fiber more than once"
    );
    let cause = io::Error::new(io::ErrorKind::Other, "out of fibers");
    assert_eq!(
        FiberError::FailedToCreate(cause).to_string(),
        "failed to create the fiber: out of fibers"
    );
    assert_eq!(failed_to_create_message(""), "failed to create the fiber: ");
}

#[test]
fn replies_fit_their_calls() {
    let calls = [
        Call::IsThreadAFiber,
        Call::GetCurrentFiber,
        Call::ConvertThreadToFiberEx { parameter: 0, flags: 1 },
        Call::ConvertFiberToThread,
        Call::SwitchToFiber { fiber: 16 },
        Call::DeleteFiber { fiber: 16 },
        Bare::new_fn(1, 7, 2, 3).unwrap().call(),
    ];
    let flags: Vec<bool> = calls.iter().map(|call| call.accepts(&Reply::Flag(0))).collect();
    assert_eq!(flags, [true, false, false, true, false, false, false]);
    let addresses: Vec<bool> = calls.iter().map(|call| call.accepts(&Reply::Address(0))).collect();
    assert_eq!(addresses, [false, true, false, false, false, false, false]);
    let opened: Vec<bool> = calls.iter().map(|call| call.accepts(&Reply::opened(0))).collect();
    assert_eq!(opened, [false, false, true, false, false, false, true]);
    let returned: Vec<bool> = calls.iter().map(|call| call.accepts(&Reply::Returned)).collect();
    assert_eq!(returned, [false, false, false, false, true, true, false]);
}

#[test]
fn assembly_files_of_targets() {
    assert_eq!(
        asm_file("x86_64-pc-windows-msvc"),
        Ok(Some("get_current_fiber_x64.asm".to_owned()))
    );
    assert_eq!(
        asm_file("x86-pc-windows-msvc"),
        Ok(Some("get_current_fiber_x86.asm".to_owned()))
    );
    assert_eq!(asm_file("x86_64-unknown-linux-gnu"), Ok(None));
    assert_eq!(asm_file("x86_64-pc-windows-gnu"), Ok(None));
    assert_eq!(asm_file(""), Ok(None));
    assert_eq!(asm_file("i686-pc-windows-msvc"), Err("i686".to_owned()));
    assert_eq!(asm_file("windows-msvc"), Err("windows".to_owned()));
    assert_eq!(asm_file("-windows-msvc"), Err("".to_owned()));
}
