//! Fibers on two threads of a simulated operating system.
use minifiber::{Call, Creation, Fiber, FiberEntryPoint, FiberError, Operation, Reply, Step};
use std::cell::RefCell;
use std::collections::HashMap;
use std::rc::{Rc, Weak};
use std::sync::atomic::{AtomicUsize, Ordering};
use std::sync::Arc;

type Body = dyn Fn();
type NamedFiber = Fiber<String, Box<dyn FiberEntryPoint>>;

/// The fibers of a process, and what each thread runs.
#[derive(Default)]
struct Os {
    thread: usize,
    current: HashMap<usize, usize>,
    last_address: usize,
    bodies: HashMap<usize, Weak<Body>>,
    not_yet_run: HashMap<usize, usize>,
    log: Vec<Call>,
}

#[derive(Clone, Default)]
struct Machine(Rc<RefCell<Os>>);

impl Machine {
    fn perform(&self, call: Call) -> Reply {
        let mut os = self.0.borrow_mut();
        os.log.push(call);
        let thread = os.thread;
        match call {
            Call::IsThreadAFiber => Reply::Flag(os.current.contains_key(&thread) as i32),
            Call::GetCurrentFiber => Reply::Address(os.current[&thread]),
            Call::CreateFiberEx { parameter, .. } => {
                os.last_address += 16;
                let address = os.last_address;
                os.not_yet_run.insert(address, parameter);
                Reply::opened(address)
            }
            Call::ConvertThreadToFiberEx { .. } => {
                os.last_address += 16;
                let address = os.last_address;
                os.current.insert(thread, address);
                Reply::opened(address)
            }
            Call::ConvertFiberToThread => Reply::Flag(os.current.remove(&thread).is_some() as i32),
            Call::SwitchToFiber { fiber } => {
                assert!(os.current.insert(thread, fiber).is_some());
                let body = match os.not_yet_run.remove(&fiber) {
                    Some(parameter) => os.bodies[&parameter].upgrade(),
                    None => None,
                };
                drop(os);
                if let Some(body) = body {
                    body();
                }
                Reply::Returned
            }
            Call::DeleteFiber { .. } => Reply::Returned,
        }
    }

    fn drive<O: Operation>(&self, operation: O) -> O::Output {
        let mut operation = operation;
        loop {
            let reply = self.perform(operation.call());
            assert!(operation.call().accepts(&reply));
            match operation.resume(reply) {
                Step::Pending(rest) => operation = rest,
                Step::Done(output) => return output,
            }
        }
    }

    fn is_thread_a_fiber(&self) -> bool {
        self.drive(NamedFiber::is_thread_a_fiber())
    }

    fn from_thread(&self, state: String) -> Result<Owner, FiberError> {
        let fiber = self.drive(NamedFiber::from_thread(state))?;
        Ok(Owner { fiber, machine: self.clone() })
    }

    fn new_fiber<F: Fn() + 'static>(&self, stack_size: usize, state: String, body: F) -> Owner {
        let body: Rc<Body> = Rc::new(body);
        let parameter = {
            let mut os = self.0.borrow_mut();
            let parameter = 0x1000 + os.bodies.len();
            os.bodies.insert(parameter, Rc::downgrade(&body));
            parameter
        };
        let entry_point: Box<dyn FiberEntryPoint> = Box::new(move || body());
        let creation: Creation<String, Box<dyn FiberEntryPoint>> =
            Fiber::new(stack_size, state, entry_point, 0x2000, parameter).unwrap();
        Owner { fiber: self.drive(creation).unwrap(), machine: self.clone() }
    }
}

struct Owner {
    fiber: NamedFiber,
    machine: Machine,
}

impl Owner {
    fn switch_to(&self) {
        self.machine.perform(self.fiber.switch_to());
    }
}

impl Drop for Owner {
    fn drop(&mut self) {
        self.machine.perform(self.fiber.release());
    }
}

struct Resource {
    count: Arc<AtomicUsize>,
}

impl Resource {
    fn new(count: &Arc<AtomicUsize>) -> Self {
        count.fetch_add(1, Ordering::SeqCst);
        Resource { count: count.clone() }
    }

    fn foo(&self) {
        println!("Hello from resource.");
    }
}

impl Drop for Resource {
    fn drop(&mut self) {
        self.count.fetch_sub(1, Ordering::SeqCst);
    }
}

#[test]
fn basic() {
    let machine = Machine::default();
    let num_resources = Arc::new(AtomicUsize::new(0));
    assert_eq!(num_resources.load(Ordering::SeqCst), 0);

    // The fiber that each thread is to switch back to.
    let switch_back_to_fiber: Rc<RefCell<HashMap<usize, Rc<Owner>>>> = Rc::default();

    // Convert the current thread to a fiber.
    assert!(!machine.is_thread_a_fiber());
    let main_fiber = machine.from_thread("Main fiber".to_owned()).unwrap();
    assert!(main_fiber.fiber.is_thread_fiber());
    assert!(machine.is_thread_a_fiber());
    assert!(matches!(
        machine.from_thread("".to_string()).err().unwrap(),
        FiberError::ThreadAlreadyAFiber
    ));

    let worker = |amount: usize, name: &str, back_to: &'static str| {
        let arg = Arc::new(AtomicUsize::new(0));
        let arg_clone = arg.clone();
        let resource = Resource::new(&num_resources);
        let machine_clone = machine.clone();
        let switch_back = switch_back_to_fiber.clone();
        let fiber = machine.new_fiber(64 * 1024, name.to_owned(), move || {
            assert!(machine_clone.is_thread_a_fiber());
            arg_clone.fetch_add(amount, Ordering::SeqCst);
            resource.foo();
            let thread = machine_clone.0.borrow().thread;
            let back = switch_back.borrow()[&thread].clone();
            assert_eq!(back.fiber.state(), back_to);
            back.switch_to();
        });
        (fiber, arg)
    };

    let (worker_fiber_1, worker_fiber_1_arg) = worker(1, "Worker fiber 1", "Thread 1 fiber");
    assert!(!worker_fiber_1.fiber.is_thread_fiber());
    assert_eq!(worker_fiber_1.fiber.state(), "Worker fiber 1");
    assert_eq!(num_resources.load(Ordering::SeqCst), 1);

    let (worker_fiber_2, worker_fiber_2_arg) = worker(2, "Worker fiber 2", "Main fiber");
    assert!(!worker_fiber_2.fiber.is_thread_fiber());
    assert_eq!(worker_fiber_2.fiber.state(), "Worker fiber 2");
    assert_eq!(num_resources.load(Ordering::SeqCst), 2);

    // No worker has run yet.
    assert_eq!(worker_fiber_1_arg.load(Ordering::SeqCst), 0);
    assert_eq!(worker_fiber_2_arg.load(Ordering::SeqCst), 0);

    // Run a worker on another thread.
    machine.0.borrow_mut().thread = 1;
    assert!(!machine.is_thread_a_fiber());
    let fiber = machine.from_thread("Thread 1 fiber".to_owned()).unwrap();
    assert!(fiber.fiber.is_thread_fiber());
    assert!(machine.is_thread_a_fiber());
    switch_back_to_fiber.borrow_mut().insert(1, Rc::new(fiber));
    worker_fiber_1.switch_to();
    assert_eq!(worker_fiber_1_arg.load(Ordering::SeqCst), 1);
    let worker_call = worker_fiber_1.fiber.release();
    drop(worker_fiber_1);
    assert_eq!(machine.0.borrow().log.last(), Some(&worker_call));
    assert!(matches!(worker_call, Call::DeleteFiber { .. }));
    let fiber = switch_back_to_fiber.borrow_mut().remove(&1).unwrap();
    assert!(fiber.fiber.is_thread_fiber());
    drop(fiber);
    assert_eq!(machine.0.borrow().log.last(), Some(&Call::ConvertFiberToThread));
    assert!(!machine.is_thread_a_fiber());

    // Run the other worker on the main thread.
    machine.0.borrow_mut().thread = 0;
    switch_back_to_fiber.borrow_mut().insert(0, Rc::new(main_fiber));
    worker_fiber_2.switch_to();
    assert_eq!(worker_fiber_2_arg.load(Ordering::SeqCst), 2);
    drop(worker_fiber_2);
    assert_eq!(num_resources.load(Ordering::SeqCst), 0);

    // Convert the main thread back.
    let main_fiber = switch_back_to_fiber.borrow_mut().remove(&0).unwrap();
    assert!(main_fiber.fiber.is_thread_fiber());
    drop(main_fiber);
    assert!(!machine.is_thread_a_fiber());
}

#[test]
fn thread_can_be_converted_again_after_release() {
    let machine = Machine::default();
    let first = machine.from_thread("first".to_owned()).unwrap();
    assert!(machine.from_thread("refused".to_owned()).is_err());
    drop(first);
    let second = machine.from_thread("second".to_owned()).unwrap();
    assert_eq!(second.fiber.state(), "second");
    assert!(machine.is_thread_a_fiber());
}

#[test]
fn fiber_that_freed_itself_would_be_deleted_twice() {
    let machine = Machine::default();
    let main_fiber = machine.from_thread("main".to_owned()).unwrap();
    let worker = machine.new_fiber(4096, "worker".to_owned(), || {});
    worker.switch_to();
    let found = machine.drive(NamedFiber::get_current_fiber()).unwrap();
    assert_eq!(worker.fiber.switch_to(), Call::SwitchToFiber { fiber: found });
    machine.drive(NamedFiber::free_fiber());
    assert_eq!(machine.0.borrow().log.last(), Some(&worker.fiber.release()));
    main_fiber.switch_to();
    let found = machine.drive(NamedFiber::get_current_fiber()).unwrap();
    assert_eq!(main_fiber.fiber.switch_to(), Call::SwitchToFiber { fiber: found });
}

#[test]
fn everything_given_is_given_back_once() {
    let machine = Machine::default();
    let main_fiber = machine.from_thread("main".to_owned()).unwrap();
    let workers: Vec<Owner> =
        (0..3).map(|i| machine.new_fiber(4096, format!("worker {}", i), || {})).collect();
    assert!(machine.from_thread("refused".to_owned()).is_err());
    let expected: Vec<Call> = workers.iter().map(|worker| worker.fiber.release()).collect();
    machine.0.borrow_mut().log.clear();
    drop(workers);
    assert!(machine.is_thread_a_fiber());
    drop(main_fiber);
    assert!(!machine.is_thread_a_fiber());
    let released: Vec<Call> = machine
        .0
        .borrow()
        .log
        .iter()
        .filter(|call| **call != Call::IsThreadAFiber)
        .copied()
        .collect();
    assert_eq!(released[..3], expected[..]);
    assert_eq!(released[3..], [Call::ConvertFiberToThread]);
    let mut addresses: Vec<String> = expected.iter().map(|call| format!("{:?}", call)).collect();
    addresses.dedup();
    assert_eq!(addresses.len(), 3);
}

#[test]
fn switching_back_makes_the_caller_current() {
    let machine = Machine::default();
    let main_fiber = machine.from_thread("main".to_owned()).unwrap();
    let before = machine.drive(NamedFiber::get_current_fiber());
    let worker = machine.new_fiber(4096, "worker".to_owned(), || {});
    worker.switch_to();
    assert_ne!(machine.drive(NamedFiber::get_current_fiber()), before);
    main_fiber.switch_to();
    assert_eq!(machine.drive(NamedFiber::get_current_fiber()), before);
    assert_eq!(worker.fiber.state(), "worker");
    assert_eq!(main_fiber.fiber.state(), "main");
}
