# minifiber

Thin Rust wrapper around the Windows fiber API, with its logic verified by
[Verus](https://github.com/verus-lang/verus).

- `src/` is the verified library. It makes no call of the fiber API itself. An
  operation names its next call, gets the reply and goes on from there, so which
  calls are made, with which arguments and in which order, and what comes of the
  replies, is proved for every reply.
  - `call.rs`: the calls and the replies, as plain values
  - `operation.rs`: what an operation is, and what it means to run one
  - `lookup.rs`: whether the thread is a fiber, which one, and freeing it
  - `open.rs`: making a fiber, and converting the thread to one
  - `fiber.rs`: the owner of a fiber
  - `error.rs`: the errors, in words
  - `target.rs`: which assembly file a target needs
  - `laws.rs`: what holds of the operations on a thread, whatever its history
  - `ledger.rs`: what holds of a process over its whole life, on all of its threads
- `app/` performs the calls with `winapi`, on Windows only.
- `extras/asm/` holds the routine that reads the current fiber, for the Microsoft
  assembler.
- `tests/` runs the library, among others on a simulated operating system.
