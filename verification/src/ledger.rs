//! What a process does with fibers over its whole life, on all of its threads.
//!
//! A process is described by its ledger: the deeds of the library on its threads, one after the
//! other. A fiber is known by the number of the deed that opened it.
use crate::call::{Call, Reply};
use crate::error::FiberError;
use crate::fiber::{Fiber, FiberView};
use crate::laws::{
    a_fiber_that_freed_itself_must_not_be_released, conversion_makes_two_calls,
    creation_makes_one_call, current_fiber, free_fiber_comes_to_these_calls, lemma_first,
    lemma_push, lookup_makes_these_calls, query_tells_whether_the_thread_is_a_fiber, truthful, truthful_at,
};
use crate::lookup::{FreeFiber, Lookup, ThreadQuery};
use crate::open::{Conversion, ConversionStage, ConversionView, Creation};
use crate::operation::{reaches, runs, Event, Operation};
use vstd::prelude::*;

verus! {

/// What a process holds from the operating system with a fiber.
pub enum Holding {
    /// The fiber at this address, which was made.
    Made { address: usize },
    /// This thread, which was converted.
    Converted { thread: int },
}

impl Holding {
    /// The call that gives it back.
    pub open spec fn release_call(self) -> Call {
        match self {
            Holding::Made { address } => Call::DeleteFiber { fiber: address },
            Holding::Converted { .. } => Call::ConvertFiberToThread,
        }
    }
}

/// What is held with a fiber that was opened on `thread`.
pub open spec fn holding<T, P>(fiber: FiberView<T, P>, thread: int) -> Holding {
    if fiber.from_thread {
        Holding::Converted { thread }
    } else {
        Holding::Made { address: fiber.address }
    }
}

/// Something that the library does.
pub enum Deed {
    /// A fiber is made, or the operating system refuses.
    Create,
    /// The thread is converted, or that is refused.
    Convert,
    /// The fiber that the deed of this number opened is released.
    Release(int),
    /// The fiber that the deed of this number opened runs to its end and frees itself.
    Free(int),
    /// Fibers are looked up or switched to.
    Other,
}

impl Deed {
    /// With this deed, the fiber that the deed of number `j` opened is given up.
    pub open spec fn gives_up(self, j: int) -> bool {
        self == Deed::Release(j) || self == Deed::Free(j)
    }
}

/// A deed on a thread, with the calls that it makes.
pub struct Entry {
    pub thread: int,
    pub deed: Deed,
    /// The calls that were answered.
    pub trace: Seq<Event>,
    /// A last call that is never answered, since it ends the thread.
    pub ending: Option<Call>,
}

/// The calls that make a fiber: one.
pub open spec fn is_creation(trace: Seq<Event>) -> bool {
    &&& trace.len() == 1
    &&& trace[0].call is CreateFiberEx
    &&& trace[0].reply is Opened
}

/// The calls that convert a thread: whether it is a fiber, then which one, or the conversion.
pub open spec fn is_conversion(trace: Seq<Event>) -> bool {
    &&& trace.len() == 2
    &&& trace[0].call == Call::IsThreadAFiber
    &&& trace[0].reply matches Reply::Flag(flag)
    &&& if flag > 0 {
        trace[1].call == Call::GetCurrentFiber
    } else {
        trace[1].call is ConvertThreadToFiberEx && trace[1].reply is Opened
    }
}

/// Calls that open no fiber and release none.
pub open spec fn is_quiet(trace: Seq<Event>) -> bool {
    forall|i: int|
        0 <= i < trace.len() ==> {
            ||| (#[trigger] trace[i]).call is IsThreadAFiber
            ||| trace[i].call is GetCurrentFiber
            ||| trace[i].call is SwitchToFiber
        }
}

/// The calls by which a fiber comes to free itself: whether the thread is a fiber, and that it
/// is the one at `address`.
pub open spec fn finds(trace: Seq<Event>, address: usize) -> bool {
    &&& trace.len() == 2
    &&& trace[0].call == Call::IsThreadAFiber
    &&& trace[0].reply matches Reply::Flag(flag)
    &&& flag > 0
    &&& trace[1] == (Event { call: Call::GetCurrentFiber, reply: Reply::Address(address) })
}

/// Every switch of `trace`, on a thread with the history `past`, is made by a fiber.
pub open spec fn switches_as_a_fiber(past: Seq<Event>, trace: Seq<Event>) -> bool {
    forall|k: int|
        0 <= k < trace.len() && (#[trigger] trace[k]).call is SwitchToFiber ==> current_fiber(
            past + trace.take(k),
        ) is Some
}

/// The thread has ended.
pub open spec fn ended(ledger: Seq<Entry>, thread: int) -> bool {
    exists|k: int|
        0 <= k < ledger.len() && (#[trigger] ledger[k]).thread == thread && ledger[k].ending is Some
}

/// What a process holds since this entry, if the entry opened a fiber.
pub open spec fn opened(entry: Entry) -> Option<Holding> {
    match entry.deed {
        Deed::Create => match entry.trace[0].reply {
            Reply::Opened { address, .. } => if address != 0 {
                Some(Holding::Made { address })
            } else {
                None
            },
            _ => None,
        },
        Deed::Convert => match (entry.trace[1].call, entry.trace[1].reply) {
            (Call::ConvertThreadToFiberEx { .. }, Reply::Opened { address, .. }) => if address
                != 0 {
                Some(Holding::Converted { thread: entry.thread })
            } else {
                None
            },
            _ => None,
        },
        _ => None,
    }
}

/// Entry `i` is in order: it makes the calls that its deed takes, on a thread that has not
/// ended. A fiber is given up that was opened before and not given up since: a thread is
/// converted back on that thread, and a fiber that frees itself is the current one. Only a
/// fiber switches to another.
pub open spec fn in_order(ledger: Seq<Entry>, i: int) -> bool {
    let entry = ledger[i];
    &&& !ended(ledger.take(i), entry.thread)
    &&& match entry.deed {
        Deed::Create => is_creation(entry.trace) && entry.ending is None,
        Deed::Convert => is_conversion(entry.trace) && entry.ending is None,
        Deed::Release(j) => {
            &&& 0 <= j < i
            &&& opened(ledger[j]) matches Some(held)
            &&& entry.trace.len() == 1
            &&& entry.trace[0].call == held.release_call()
            &&& entry.trace[0].call.answered_by(entry.trace[0].reply)
            &&& entry.ending is None
            &&& held matches Holding::Converted { thread } ==> thread == entry.thread
            &&& forall|k: int| 0 <= k < i ==> !(#[trigger] ledger[k]).deed.gives_up(j)
        },
        Deed::Free(j) => {
            &&& 0 <= j < i
            &&& opened(ledger[j]) matches Some(Holding::Made { address })
            &&& finds(entry.trace, address)
            &&& entry.ending == Some(Call::DeleteFiber { fiber: address })
            &&& forall|k: int| 0 <= k < i ==> !(#[trigger] ledger[k]).deed.gives_up(j)
        },
        Deed::Other => {
            &&& is_quiet(entry.trace)
            &&& entry.ending is None
            &&& switches_as_a_fiber(history(ledger.take(i), entry.thread), entry.trace)
        },
    }
}

/// Every entry is in order.
pub open spec fn kept(ledger: Seq<Entry>) -> bool {
    forall|i: int| 0 <= i < ledger.len() ==> #[trigger] in_order(ledger, i)
}

/// Every fiber that was opened was released or freed itself.
pub open spec fn all_given_up(ledger: Seq<Entry>) -> bool {
    forall|j: int|
        0 <= j < ledger.len() && (#[trigger] opened(ledger[j])) is Some ==> exists|k: int|
            0 <= k < ledger.len() && (#[trigger] ledger[k]).deed.gives_up(j)
}

/// At `event`, on `thread`, the operating system gave `held`.
pub open spec fn gives(thread: int, event: Event, held: Holding) -> bool {
    match (event.call, event.reply, held) {
        (
            Call::CreateFiberEx { .. },
            Reply::Opened { address, .. },
            Holding::Made { address: held },
        ) => address != 0 && address == held,
        (
            Call::ConvertThreadToFiberEx { .. },
            Reply::Opened { address, .. },
            Holding::Converted { thread: held },
        ) => address != 0 && thread == held,
        _ => false,
    }
}

/// By `call`, on `thread`, `held` is given back to the operating system.
pub open spec fn takes_back(thread: int, call: Call, held: Holding) -> bool {
    match (call, held) {
        (Call::DeleteFiber { fiber }, Holding::Made { address }) => fiber == address,
        (Call::ConvertFiberToThread, Holding::Converted { thread: held }) => thread == held,
        _ => false,
    }
}

/// How many events of `trace`, on `thread`, give `held`.
pub open spec fn given_in(thread: int, trace: Seq<Event>, held: Holding) -> nat
    decreases trace.len(),
{
    if trace.len() == 0 {
        0
    } else {
        given_in(thread, trace.drop_last(), held) + if gives(thread, trace.last(), held) {
            1nat
        } else {
            0nat
        }
    }
}

/// How many events of `trace`, on `thread`, take back `held`.
pub open spec fn taken_back_in(thread: int, trace: Seq<Event>, held: Holding) -> nat
    decreases trace.len(),
{
    if trace.len() == 0 {
        0
    } else {
        taken_back_in(thread, trace.drop_last(), held) + if takes_back(
            thread,
            trace.last().call,
            held,
        ) {
            1nat
        } else {
            0nat
        }
    }
}

/// How many calls of `entry` take back `held`, an answer or not.
pub open spec fn taken_back_by(entry: Entry, held: Holding) -> nat {
    taken_back_in(entry.thread, entry.trace, held) + if entry.ending matches Some(call)
        && takes_back(entry.thread, call, held) {
        1nat
    } else {
        0nat
    }
}

/// How many calls of the whole ledger give `held`.
pub open spec fn given(ledger: Seq<Entry>, held: Holding) -> nat
    decreases ledger.len(),
{
    if ledger.len() == 0 {
        0
    } else {
        given(ledger.drop_last(), held) + given_in(
            ledger.last().thread,
            ledger.last().trace,
            held,
        )
    }
}

/// How many calls of the whole ledger take back `held`.
pub open spec fn taken_back(ledger: Seq<Entry>, held: Holding) -> nat
    decreases ledger.len(),
{
    if ledger.len() == 0 {
        0
    } else {
        taken_back(ledger.drop_last(), held) + taken_back_by(ledger.last(), held)
    }
}

/// The history of `thread`: the answered calls of its entries, one after the other.
pub open spec fn history(ledger: Seq<Entry>, thread: int) -> Seq<Event>
    decreases ledger.len(),
{
    if ledger.len() == 0 {
        seq![]
    } else if ledger.last().thread == thread {
        history(ledger.drop_last(), thread) + ledger.last().trace
    } else {
        history(ledger.drop_last(), thread)
    }
}

/// The fibers with which `held` is held, since they were opened and not given up yet.
pub open spec fn open_fibers(ledger: Seq<Entry>, held: Holding) -> Set<int>
    decreases ledger.len(),
{
    if ledger.len() == 0 {
        Set::empty()
    } else {
        let before = open_fibers(ledger.drop_last(), held);
        if opened(ledger.last()) == Some(held) {
            before.insert(ledger.len() - 1)
        } else {
            match ledger.last().deed {
                Deed::Release(j) | Deed::Free(j) => before.remove(j),
                _ => before,
            }
        }
    }
}

/// Whether an entry is in order depends on what came before it alone.
proof fn lemma_in_order(ledger: Seq<Entry>, longer: Seq<Entry>, i: int)
    requires
        0 <= i < ledger.len() <= longer.len(),
        longer.take(ledger.len() as int) == ledger,
    ensures
        in_order(ledger, i) <==> in_order(longer, i),
{
    assert(ledger.take(i) =~= longer.take(i));
    assert forall|k: int| 0 <= k < ledger.len() implies #[trigger] longer[k] == ledger[k] by {
        assert(longer.take(ledger.len() as int)[k] == longer[k]);
    }
    if let Deed::Release(j) = ledger[i].deed {
        assert((forall|k: int| 0 <= k < i ==> !(#[trigger] ledger[k]).deed.gives_up(j)) <==> (
        forall|k: int| 0 <= k < i ==> !(#[trigger] longer[k]).deed.gives_up(j)));
        if 0 <= j < i {
            assert(longer[j] == ledger[j]);
        }
    }
    if let Deed::Free(j) = ledger[i].deed {
        assert((forall|k: int| 0 <= k < i ==> !(#[trigger] ledger[k]).deed.gives_up(j)) <==> (
        forall|k: int| 0 <= k < i ==> !(#[trigger] longer[k]).deed.gives_up(j)));
        if 0 <= j < i {
            assert(longer[j] == ledger[j]);
        }
    }
}

/// What was in order before the last entry still is without it.
proof fn lemma_kept_before(ledger: Seq<Entry>)
    requires
        kept(ledger),
        ledger.len() > 0,
    ensures
        kept(ledger.drop_last()),
{
    let before = ledger.drop_last();
    assert(ledger.take(before.len() as int) =~= before);
    assert forall|i: int| 0 <= i < before.len() implies #[trigger] in_order(before, i) by {
        assert(in_order(ledger, i));
        lemma_in_order(before, ledger, i);
    }
}

/// A fiber is open if it was opened and no entry gives it up.
proof fn lemma_open_fibers(ledger: Seq<Entry>, held: Holding, j: int)
    requires
        kept(ledger),
    ensures
        open_fibers(ledger, held).finite(),
        open_fibers(ledger, held).contains(j) <==> {
            &&& 0 <= j < ledger.len()
            &&& opened(ledger[j]) == Some(held)
            &&& forall|k: int| 0 <= k < ledger.len() ==> !(#[trigger] ledger[k]).deed.gives_up(j)
        },
    decreases ledger.len(),
{
    if ledger.len() > 0 {
        let before = ledger.drop_last();
        let last = ledger.len() - 1;
        lemma_kept_before(ledger);
        lemma_open_fibers(before, held, j);
        assert(in_order(ledger, last));
        assert(ledger[last] == ledger.last());
        if j == last {
            assert forall|k: int| 0 <= k < ledger.len() implies !(
            #[trigger] ledger[k]).deed.gives_up(j) by {
                assert(in_order(ledger, k));
            }
        }
        if 0 <= j < last {
            assert(before[j] == ledger[j]);
            if forall|k: int| 0 <= k < before.len() ==> !(#[trigger] before[k]).deed.gives_up(j) {
                assert forall|k: int| 0 <= k < last implies !(
                #[trigger] ledger[k]).deed.gives_up(j) by {
                    assert(before[k] == ledger[k]);
                }
            } else {
                let k = choose|k: int|
                    0 <= k < before.len() && (#[trigger] before[k]).deed.gives_up(j);
                assert(ledger[k].deed.gives_up(j));
            }
        }
    }
}

/// Quiet calls give nothing and take nothing back.
proof fn lemma_quiet_counts(thread: int, trace: Seq<Event>, held: Holding)
    requires
        is_quiet(trace),
    ensures
        given_in(thread, trace, held) == 0,
        taken_back_in(thread, trace, held) == 0,
    decreases trace.len(),
{
    if trace.len() > 0 {
        let before = trace.drop_last();
        assert forall|i: int| 0 <= i < before.len() implies {
            ||| (#[trigger] before[i]).call is IsThreadAFiber
            ||| before[i].call is GetCurrentFiber
            ||| before[i].call is SwitchToFiber
        } by {
            assert(before[i] == trace[i]);
        }
        lemma_quiet_counts(thread, before, held);
        assert(trace[trace.len() - 1] == trace.last());
    }
}

/// The calls of an entry give what it opens, and take back what it releases.
proof fn lemma_entry_counts(ledger: Seq<Entry>, i: int, held: Holding)
    requires
        0 <= i < ledger.len(),
        in_order(ledger, i),
    ensures
        given_in(ledger[i].thread, ledger[i].trace, held) == if opened(ledger[i]) == Some(held) {
            1nat
        } else {
            0nat
        },
        taken_back_by(ledger[i], held) == match ledger[i].deed {
            Deed::Release(j) | Deed::Free(j) => if opened(ledger[j]) == Some(held) {
                1nat
            } else {
                0nat
            },
            _ => 0nat,
        },
{
    let trace = ledger[i].trace;
    reveal_with_fuel(given_in, 3);
    reveal_with_fuel(taken_back_in, 3);
    match ledger[i].deed {
        Deed::Other => lemma_quiet_counts(ledger[i].thread, trace, held),
        Deed::Convert | Deed::Free(_) => {
            assert(trace.drop_last().last() == trace[0]);
            assert(trace.last() == trace[1]);
        },
        _ => assert(trace.last() == trace[0]),
    }
}

/// The books balance at any time: what was given and not taken back is held with as many
/// fibers. So nothing is taken back that was not given, and nothing twice.
pub proof fn the_books_balance(ledger: Seq<Entry>, held: Holding)
    requires
        kept(ledger),
    ensures
        open_fibers(ledger, held).finite(),
        given(ledger, held) == taken_back(ledger, held) + open_fibers(ledger, held).len(),
    decreases ledger.len(),
{
    lemma_open_fibers(ledger, held, 0);
    if ledger.len() > 0 {
        let before = ledger.drop_last();
        let last = ledger.len() - 1;
        lemma_kept_before(ledger);
        the_books_balance(before, held);
        assert(in_order(ledger, last));
        assert(ledger[last] == ledger.last());
        lemma_entry_counts(ledger, last, held);
        lemma_open_fibers(before, held, last);
        assert forall|j: int| #[trigger] ledger.last().deed.gives_up(j) implies (
        open_fibers(before, held).contains(j) <==> opened(ledger[j]) == Some(held)) by {
            assert(before[j] == ledger[j]);
            assert forall|k: int| 0 <= k < before.len() implies !(
            #[trigger] before[k]).deed.gives_up(j) by {
                assert(before[k] == ledger[k]);
            }
            lemma_open_fibers(before, held, j);
        }
        match ledger.last().deed {
            Deed::Release(j) | Deed::Free(j) => assert(ledger.last().deed.gives_up(j)),
            _ => {},
        }
    }
}

/// Where every fiber that was opened is released or frees itself, and each but once, whatever
/// else was refused or failed in between, then everything that the operating system gave is given back exactly
/// as often as it was given: each address that it made a fiber at is deleted once, each
/// conversion of a thread is undone once on that thread, and nothing else is released.
pub proof fn everything_is_given_back_exactly_once(ledger: Seq<Entry>, held: Holding)
    requires
        kept(ledger),
        all_given_up(ledger),
    ensures
        taken_back(ledger, held) == given(ledger, held),
{
    the_books_balance(ledger, held);
    assert forall|j: int| !open_fibers(ledger, held).contains(j) by {
        lemma_open_fibers(ledger, held, j);
        if open_fibers(ledger, held).contains(j) {
            let k = choose|k: int|
                0 <= k < ledger.len() && (#[trigger] ledger[k]).deed.gives_up(j);
            assert(opened(ledger[j]) is Some);
            assert(ledger[k].deed.gives_up(j));
        }
    }
    assert(open_fibers(ledger, held) =~= Set::empty());
}

/// Whenever the operating system was to convert the thread back, it did.
pub open spec fn converts_back(history: Seq<Event>) -> bool {
    forall|i: int|
        0 <= i < history.len() && (#[trigger] history[i]).call is ConvertFiberToThread ==> (
        history[i].reply matches Reply::Flag(done) && done != 0)
}

/// What holds of a longer history holds of its beginning.
proof fn lemma_beginning(history: Seq<Event>, trace: Seq<Event>)
    requires
        truthful(history + trace, 0),
        converts_back(history + trace),
    ensures
        truthful(history, 0),
        converts_back(history),
        truthful(history + trace, history.len() as int),
{
    let whole = history + trace;
    assert forall|i: int| 0 <= i < history.len() implies #[trigger] truthful_at(history, i) by {
        assert(truthful_at(whole, i));
        assert(whole.take(i) =~= history.take(i));
        assert(whole[i] == history[i]);
    }
    assert forall|i: int|
        0 <= i < history.len() && (#[trigger] history[i]).call is ConvertFiberToThread implies (
    history[i].reply matches Reply::Flag(done) && done != 0) by {
        assert(whole[i] == history[i]);
    }
}

/// Quiet calls leave a thread a fiber or an ordinary thread, as it was.
proof fn lemma_quiet_status(history: Seq<Event>, trace: Seq<Event>)
    requires
        is_quiet(trace),
    ensures
        current_fiber(history + trace) is Some <==> current_fiber(history) is Some,
    decreases trace.len(),
{
    if trace.len() == 0 {
        assert(history + trace =~= history);
    } else {
        let before = trace.drop_last();
        assert forall|i: int| 0 <= i < before.len() implies {
            ||| (#[trigger] before[i]).call is IsThreadAFiber
            ||| before[i].call is GetCurrentFiber
            ||| before[i].call is SwitchToFiber
        } by {
            assert(before[i] == trace[i]);
        }
        lemma_quiet_status(history, before);
        lemma_push(history + before, trace.last());
        assert(trace[trace.len() - 1] == trace.last());
        assert(history + trace =~= (history + before).push(trace.last()));
    }
}

/// An entry on the thread makes it a fiber, or an ordinary thread, if it converts the thread or
/// converts it back, and leaves it as it was else.
proof fn lemma_entry_status(ledger: Seq<Entry>, i: int, before: Seq<Event>)
    requires
        0 <= i < ledger.len(),
        in_order(ledger, i),
        truthful(before + ledger[i].trace, before.len() as int),
        converts_back(before + ledger[i].trace),
    ensures
        opened(ledger[i]) is Some && ledger[i].deed is Convert ==> {
            &&& current_fiber(before) is None
            &&& current_fiber(before + ledger[i].trace) is Some
        },
        ledger[i].deed is Release && ledger[i].trace[0].call is ConvertFiberToThread
            ==> current_fiber(before + ledger[i].trace) is None,
        !(opened(ledger[i]) is Some && ledger[i].deed is Convert) && !(ledger[i].deed is Release
            && ledger[i].trace[0].call is ConvertFiberToThread) ==> (current_fiber(
            before + ledger[i].trace,
        ) is Some <==> current_fiber(before) is Some),
{
    let trace = ledger[i].trace;
    let whole = before + trace;
    match ledger[i].deed {
        Deed::Other | Deed::Free(_) => lemma_quiet_status(before, trace),
        Deed::Convert => {
            let rest = trace.drop_first();
            let asked = before.push(trace[0]);
            lemma_first(before, trace);
            lemma_first(asked, rest);
            assert(truthful_at(whole, before.len() as int));
            assert(asked.push(rest[0]) + rest.drop_first() =~= asked.push(rest[0]));
        },
        _ => {
            lemma_first(before, trace);
            assert(before.push(trace[0]) + trace.drop_first() =~= before.push(trace[0]));
            assert(whole[before.len() as int] == trace[0]);
        },
    }
}

/// On any thread, conversions are at most one ahead of the times that the thread was converted
/// back, and the thread is a fiber exactly where they are. Making fibers, releasing those, and
/// conversions that failed do not count.
pub proof fn a_thread_is_a_fiber_while_a_conversion_is_open(ledger: Seq<Entry>, thread: int)
    requires
        kept(ledger),
        truthful(history(ledger, thread), 0),
        converts_back(history(ledger, thread)),
    ensures
        ({
            let held = Holding::Converted { thread };
            let open = given(ledger, held) - taken_back(ledger, held);
            &&& open == 0 || open == 1
            &&& current_fiber(history(ledger, thread)) is Some <==> open == 1
        }),
    decreases ledger.len(),
{
    let held = Holding::Converted { thread };
    if ledger.len() > 0 {
        let before = ledger.drop_last();
        let last = ledger.len() - 1;
        let entry = ledger.last();
        lemma_kept_before(ledger);
        assert(in_order(ledger, last));
        assert(ledger[last] == entry);
        lemma_entry_counts(ledger, last, held);
        if entry.thread == thread {
            lemma_beginning(history(before, thread), entry.trace);
            lemma_entry_status(ledger, last, history(before, thread));
        }
        a_thread_is_a_fiber_while_a_conversion_is_open(before, thread);
        the_books_balance(ledger, held);
    }
}

/// Asking whether a thread is a fiber tells whether it was converted once more than it was
/// converted back.
pub proof fn a_query_tells_whether_a_conversion_is_open(
    ledger: Seq<Entry>,
    thread: int,
    trace: Seq<Event>,
    answer: bool,
)
    requires
        kept(ledger),
        runs(ThreadQuery, trace, answer),
        truthful(history(ledger, thread) + trace, 0),
        converts_back(history(ledger, thread)),
    ensures
        ({
            let held = Holding::Converted { thread };
            let open = given(ledger, held) - taken_back(ledger, held);
            &&& open == 0 || open == 1
            &&& answer == (open == 1)
        }),
{
    let past = history(ledger, thread);
    let whole = past + trace;
    assert(trace.len() == 1 && trace[0].call == Call::IsThreadAFiber) by {
        reveal_with_fuel(runs, 2);
    }
    assert forall|i: int|
        0 <= i < whole.len() && (#[trigger] whole[i]).call is ConvertFiberToThread implies (
    whole[i].reply matches Reply::Flag(done) && done != 0) by {
        assert(i < past.len());
        assert(whole[i] == past[i]);
    }
    lemma_beginning(past, trace);
    query_tells_whether_the_thread_is_a_fiber(past, trace, answer);
    a_thread_is_a_fiber_while_a_conversion_is_open(ledger, thread);
}

/// A switch takes a thread that is a fiber: it was converted once more than it was converted
/// back, and asking would tell so.
pub proof fn a_switch_takes_an_open_conversion(ledger: Seq<Entry>, i: int, k: int)
    requires
        kept(ledger),
        0 <= i < ledger.len(),
        0 <= k < ledger[i].trace.len(),
        ledger[i].trace[k].call is SwitchToFiber,
        truthful(history(ledger.take(i), ledger[i].thread), 0),
        converts_back(history(ledger.take(i), ledger[i].thread)),
    ensures
        ({
            let thread = ledger[i].thread;
            let before = ledger.take(i);
            let held = Holding::Converted { thread };
            &&& current_fiber(history(before, thread)) is Some
            &&& current_fiber(history(before, thread) + ledger[i].trace.take(k)) is Some
            &&& given(before, held) - taken_back(before, held) == 1
        }),
{
    let thread = ledger[i].thread;
    let before = ledger.take(i);
    let trace = ledger[i].trace;
    let earlier = trace.take(k);
    assert(in_order(ledger, i));
    assert forall|j: int| 0 <= j < before.len() implies #[trigger] in_order(before, j) by {
        assert(in_order(ledger, j));
        lemma_in_order(before, ledger, j);
    }
    assert forall|j: int| 0 <= j < earlier.len() implies {
        ||| (#[trigger] earlier[j]).call is IsThreadAFiber
        ||| earlier[j].call is GetCurrentFiber
        ||| earlier[j].call is SwitchToFiber
    } by {
        assert(earlier[j] == trace[j]);
    }
    lemma_quiet_status(history(before, thread), earlier);
    a_thread_is_a_fiber_while_a_conversion_is_open(before, thread);
}

/// A ledger that is kept stays so with an entry that is in order.
proof fn lemma_kept_after(ledger: Seq<Entry>, entry: Entry)
    requires
        kept(ledger),
        in_order(ledger.push(entry), ledger.len() as int),
    ensures
        kept(ledger.push(entry)),
{
    let after = ledger.push(entry);
    assert(after.take(ledger.len() as int) =~= ledger);
    assert forall|i: int| 0 <= i < after.len() implies #[trigger] in_order(after, i) by {
        if i < ledger.len() {
            assert(in_order(ledger, i));
            lemma_in_order(ledger, after, i);
        }
    }
}

/// Making a fiber keeps the ledger, and opens what the outcome holds, if anything.
pub proof fn creation_keeps_the_ledger<T, P>(
    ledger: Seq<Entry>,
    thread: int,
    creation: Creation<T, P>,
    trace: Seq<Event>,
    outcome: Result<Fiber<T, P>, FiberError>,
)
    requires
        kept(ledger),
        !ended(ledger, thread),
        runs(creation, trace, outcome),
    ensures
        kept(ledger.push(Entry { thread, deed: Deed::Create, trace, ending: None })),
        opened(Entry { thread, deed: Deed::Create, trace, ending: None }) == match outcome {
            Ok(fiber) => Some(holding(fiber@, thread)),
            Err(_) => None,
        },
{
    let entry = Entry { thread, deed: Deed::Create, trace, ending: None };
    creation_makes_one_call(creation, trace, outcome);
    assert(ledger.push(entry).take(ledger.len() as int) =~= ledger);
    lemma_kept_after(ledger, entry);
}

/// Converting a thread keeps the ledger, and opens what the outcome holds, if anything.
pub proof fn conversion_keeps_the_ledger<T, P>(
    ledger: Seq<Entry>,
    thread: int,
    conversion: Conversion<T, P>,
    state: T,
    trace: Seq<Event>,
    outcome: Result<Fiber<T, P>, FiberError>,
)
    requires
        kept(ledger),
        !ended(ledger, thread),
        conversion@ == (ConversionView {
            stage: ConversionStage::Find(Lookup::Ask(ThreadQuery)),
            state,
        }),
        runs(conversion, trace, outcome),
    ensures
        kept(ledger.push(Entry { thread, deed: Deed::Convert, trace, ending: None })),
        opened(Entry { thread, deed: Deed::Convert, trace, ending: None }) == match outcome {
            Ok(fiber) => Some(holding(fiber@, thread)),
            Err(_) => None,
        },
{
    let entry = Entry { thread, deed: Deed::Convert, trace, ending: None };
    conversion_makes_two_calls(conversion, state, trace, outcome);
    assert(ledger.push(entry).take(ledger.len() as int) =~= ledger);
    lemma_kept_after(ledger, entry);
}

/// Releasing a fiber that an entry opened keeps the ledger, if it was not given up before and,
/// where it was a thread, that is the current one.
pub proof fn release_keeps_the_ledger<T, P>(
    ledger: Seq<Entry>,
    thread: int,
    fiber: Fiber<T, P>,
    j: int,
    released: Event,
)
    requires
        kept(ledger),
        !ended(ledger, thread),
        0 <= j < ledger.len(),
        opened(ledger[j]) == Some(holding(fiber@, ledger[j].thread)),
        forall|k: int| 0 <= k < ledger.len() ==> !(#[trigger] ledger[k]).deed.gives_up(j),
        fiber@.from_thread ==> thread == ledger[j].thread,
        released.call == fiber@.release_call(),
        released.call.answered_by(released.reply),
    ensures
        kept(
            ledger.push(
                Entry { thread, deed: Deed::Release(j), trace: seq![released], ending: None },
            ),
        ),
{
    let entry = Entry { thread, deed: Deed::Release(j), trace: seq![released], ending: None };
    let after = ledger.push(entry);
    assert(after.take(ledger.len() as int) =~= ledger);
    assert(after[j] == ledger[j]);
    assert forall|k: int| 0 <= k < ledger.len() implies !(#[trigger] after[k]).deed.gives_up(
        j,
    ) by {
        assert(after[k] == ledger[k]);
    }
    lemma_kept_after(ledger, entry);
}

/// A fiber that an entry made, and that the thread runs, keeps the ledger when it frees itself,
/// if it was not given up before. That ends the thread.
pub proof fn free_fiber_keeps_the_ledger<T, P>(
    ledger: Seq<Entry>,
    thread: int,
    fiber: Fiber<T, P>,
    j: int,
    trace: Seq<Event>,
    rest: FreeFiber,
)
    requires
        kept(ledger),
        !ended(ledger, thread),
        0 <= j < ledger.len(),
        !fiber@.from_thread,
        opened(ledger[j]) == Some(holding(fiber@, ledger[j].thread)),
        forall|k: int| 0 <= k < ledger.len() ==> !(#[trigger] ledger[k]).deed.gives_up(j),
        current_fiber(history(ledger, thread)) == Some(fiber@.address),
        reaches(FreeFiber::Find(Lookup::Ask(ThreadQuery)), trace, rest),
        trace.len() == 2,
        truthful(
            history(ledger, thread) + trace,
            history(ledger, thread).len() as int,
        ),
    ensures
        ({
            let after = ledger.push(
                Entry { thread, deed: Deed::Free(j), trace, ending: Some(rest.next()) },
            );
            kept(after) && ended(after, thread)
        }),
{
    let entry = Entry { thread, deed: Deed::Free(j), trace, ending: Some(rest.next()) };
    let after = ledger.push(entry);
    free_fiber_comes_to_these_calls(trace, rest);
    a_fiber_that_freed_itself_must_not_be_released(history(ledger, thread), fiber, trace, rest);
    assert(after.take(ledger.len() as int) =~= ledger);
    assert(after[j] == ledger[j]);
    assert forall|k: int| 0 <= k < ledger.len() implies !(#[trigger] after[k]).deed.gives_up(
        j,
    ) by {
        assert(after[k] == ledger[k]);
    }
    lemma_kept_after(ledger, entry);
    assert(after[ledger.len() as int] == entry);
}

/// No fiber is given up twice: one that was released must not free itself, and one that freed
/// itself must not be released.
pub proof fn no_fiber_is_given_up_twice(ledger: Seq<Entry>, i: int, k: int, j: int)
    requires
        kept(ledger),
        0 <= i < ledger.len(),
        0 <= k < ledger.len(),
        ledger[i].deed.gives_up(j),
        ledger[k].deed.gives_up(j),
    ensures
        i == k,
{
    assert(in_order(ledger, i));
    assert(in_order(ledger, k));
}

/// Asking and looking up keep the ledger, and so does freeing the current fiber of an ordinary
/// thread, which has none.
pub proof fn looking_up_keeps_the_ledger(
    ledger: Seq<Entry>,
    thread: int,
    query_trace: Seq<Event>,
    answer: bool,
    lookup_trace: Seq<Event>,
    found: Option<usize>,
    free_trace: Seq<Event>,
)
    requires
        kept(ledger),
        !ended(ledger, thread),
        runs(ThreadQuery, query_trace, answer),
        runs(Lookup::Ask(ThreadQuery), lookup_trace, found),
        runs(FreeFiber::Find(Lookup::Ask(ThreadQuery)), free_trace, ()),
        free_trace.len() == 1,
    ensures
        kept(ledger.push(Entry { thread, deed: Deed::Other, trace: query_trace, ending: None })),
        kept(ledger.push(Entry { thread, deed: Deed::Other, trace: lookup_trace, ending: None })),
        kept(ledger.push(Entry { thread, deed: Deed::Other, trace: free_trace, ending: None })),
{
    assert(query_trace.len() == 1) by {
        reveal_with_fuel(runs, 2);
    }
    lookup_makes_these_calls(lookup_trace, found);
    let query = Entry { thread, deed: Deed::Other, trace: query_trace, ending: None };
    let lookup = Entry { thread, deed: Deed::Other, trace: lookup_trace, ending: None };
    let free = Entry { thread, deed: Deed::Other, trace: free_trace, ending: None };
    assert(ledger.push(query).take(ledger.len() as int) =~= ledger);
    assert(ledger.push(lookup).take(ledger.len() as int) =~= ledger);
    assert(ledger.push(free).take(ledger.len() as int) =~= ledger);
    lemma_kept_after(ledger, query);
    lemma_kept_after(ledger, lookup);
    lemma_kept_after(ledger, free);
}

/// Switching to a fiber keeps the ledger if the thread is a fiber, and only then.
pub proof fn switching_keeps_the_ledger_of_a_fiber<T, P>(
    ledger: Seq<Entry>,
    thread: int,
    fiber: Fiber<T, P>,
    switched: Event,
)
    requires
        kept(ledger),
        !ended(ledger, thread),
        switched.call == (Call::SwitchToFiber { fiber: fiber@.address }),
    ensures
        kept(
            ledger.push(
                Entry { thread, deed: Deed::Other, trace: seq![switched], ending: None },
            ),
        ) <==> current_fiber(history(ledger, thread)) is Some,
{
    let past = history(ledger, thread);
    let entry = Entry { thread, deed: Deed::Other, trace: seq![switched], ending: None };
    let after = ledger.push(entry);
    assert(after.take(ledger.len() as int) =~= ledger);
    assert(past + entry.trace.take(0) =~= past);
    assert(entry.trace[0] == switched);
    if current_fiber(past) is Some {
        lemma_kept_after(ledger, entry);
    } else {
        assert(!in_order(after, ledger.len() as int));
    }
}

} // verus!
