//! The interrupt manager: it dispatches each interrupt to what is
//! registered for its number, a handler or a manager that passes it on to
//! its own handlers in turn, and installs the entry of that number in the
//! IDT at the first registration. A registration where a manager already
//! stands goes to that manager.
use super::idt::{gate_type_code, kernel_gate, GateType, IdtGateEntry, InterruptTable};
use crate::bits::{with_bit_u8, with_bits_u8};
use vstd::prelude::*;

verus! {

/// The errors of the interrupt manager.
#[derive(Debug, Copy, Clone, PartialEq, Eq, Structural)]
pub enum InterruptManagerError {
    IdtNotInitialized,
}

/// Whether a handler handled an interrupt.
#[derive(Debug, Clone, Copy, PartialEq, Eq, Structural)]
pub enum HandlingState {
    Handled,
    NotHandled,
}

/// What handles an interrupt.
pub trait InterruptHandler: Sized {
    /// Whether answering `r` to the interrupt `interrupt_number`, and being
    /// left as `after`, is something this handler does.
    spec fn handles(self, interrupt_number: u8, r: HandlingState, after: Self) -> bool;

    /// Handles the interrupt `interrupt_number`.
    fn handle(&mut self, interrupt_number: u8) -> (r: HandlingState)
        ensures
            old(self).handles(interrupt_number, r, *final(self)),
    ;
}

/// A handler that handles nothing.
pub struct DummyHandler;

impl DummyHandler {
    /// The handler that handles nothing.
    pub fn new() -> (r: Self) {
        DummyHandler
    }
}

impl InterruptHandler for DummyHandler {
    /// It never handles an interrupt.
    open spec fn handles(self, interrupt_number: u8, r: HandlingState, after: Self) -> bool {
        r == HandlingState::NotHandled
    }

    /// Does not handle the interrupt.
    fn handle(&mut self, interrupt_number: u8) -> (r: HandlingState) {
        HandlingState::NotHandled
    }
}

/// A handler made of a closure.
pub struct FnHandler<F: Fn(u8) -> HandlingState> {
    callback: F,
}

impl<F: Fn(u8) -> HandlingState> FnHandler<F> {
    /// The closure can take any interrupt number.
    #[verifier::type_invariant]
    spec fn callable(self) -> bool {
        forall|n: u8| call_requires(self.callback, (n,))
    }

    /// The closure.
    pub closed spec fn callback_view(self) -> F {
        self.callback
    }

    /// The handler that calls `callback`, which must take any interrupt
    /// number.
    pub fn new(callback: F) -> (r: Self)
        requires
            forall|n: u8| call_requires(callback, (n,)),
        ensures
            r.callback_view() == callback,
    {
        FnHandler { callback }
    }
}

impl<F: Fn(u8) -> HandlingState> InterruptHandler for FnHandler<F> {
    /// It answers what its closure returns, and stays as it is.
    open spec fn handles(self, interrupt_number: u8, r: HandlingState, after: Self) -> bool {
        call_ensures(self.callback_view(), (interrupt_number,), r) && after == self
    }

    /// Handles the interrupt with the closure.
    fn handle(&mut self, interrupt_number: u8) -> (r: HandlingState) {
        proof {
            use_type_invariant(&*self);
        }
        (self.callback)(interrupt_number)
    }
}

/// Centralises interrupts: dispatches them and takes registrations.
pub trait InterruptManager: Sized {
    /// Dispatches the interrupt `interrupt_number`; by default, it is not
    /// handled, and the manager is left as it was.
    fn dispatch(&mut self, interrupt_number: u8) -> (r: HandlingState)
        default_ensures
            r == HandlingState::NotHandled,
            *final(self) == *old(self),
    {
        HandlingState::NotHandled
    }

    /// Registers `handler` for the interrupt `interrupt_number`.
    fn register(&mut self, handler: Self::Handler, interrupt_number: u8) -> (r: Result<(), ()>);

    /// The type of the handlers.
    type Handler;
}

/// The IDT entry the manager installs for an interrupt whose stub is at
/// `handler` over the entry `e`: an interrupt gate, present, privilege 0,
/// no storage segment, selector 0x8.
pub open spec fn registered_gate(e: IdtGateEntry, handler: u32) -> IdtGateEntry {
    IdtGateEntry { _zero: e._zero, ..kernel_gate(GateType::InterruptGate32, handler) }
}

/// The type and attributes the manager's setters leave in any byte.
proof fn lemma_gate_attributes(x: u8)
    by (bit_vector)
    ensures
        with_bit_u8(with_bits_u8(with_bits_u8(with_bit_u8(x, 4, false), 5, 7, 0), 0, 4, 0xE), 7, true)
            == 0x8E,
        0x80u8 | 0xEu8 == 0x8E,
{
}

/// What is registered for an interrupt: a handler, or a manager that
/// passes the interrupt on to what is registered with it.
pub enum Registered<H: InterruptHandler> {
    Handler(H),
    Manager(GenericManager<H>),
}

/// Whether the registration `s`, given the interrupt `n`, answers `r` and
/// is left as `after`: a handler as it handles it, a manager as it
/// dispatches it (`dispatched`).
pub closed spec fn registered_handles<H: InterruptHandler>(
    s: Registered<H>,
    n: u8,
    r: HandlingState,
    after: Registered<H>,
) -> bool
    decreases s,
{
    match s {
        Registered::Handler(h) => after is Handler && h.handles(n, r, after->Handler_0),
        Registered::Manager(g) => after is Manager && dispatched(g.handlers@, n, r, after->Manager_0.handlers@),
    }
}

/// Whether passing the interrupt `n` to the registrations `hs` in turn,
/// until one handles it, answers `r` and leaves them as `after`: the first
/// one handles it and the others are not asked, or it does not and the
/// rest answer.
pub open spec fn dispatched<H: InterruptHandler>(
    hs: Seq<Registered<H>>,
    n: u8,
    r: HandlingState,
    after: Seq<Registered<H>>,
) -> bool
    decreases hs,
{
    if hs.len() == 0 {
        r == HandlingState::NotHandled && after.len() == 0
    } else {
        &&& after.len() == hs.len()
        &&& ((r == HandlingState::Handled && registered_handles(hs[0], n, HandlingState::Handled, after[0])
            && after.drop_first() == hs.drop_first()) || (registered_handles(
            hs[0],
            n,
            HandlingState::NotHandled,
            after[0],
        ) && dispatched(hs.drop_first(), n, r, after.drop_first())))
    }
}

/// Whether each registration of `hs`, given the interrupt `n`, did not
/// handle it and was left as the one of `after` at its place.
pub open spec fn passed_on<H: InterruptHandler>(hs: Seq<Registered<H>>, n: u8, after: Seq<Registered<H>>) -> bool
    decreases hs,
{
    &&& after.len() == hs.len()
    &&& (hs.len() > 0 ==> registered_handles(hs[0], n, HandlingState::NotHandled, after[0]) && passed_on(
        hs.drop_first(),
        n,
        after.drop_first(),
    ))
}

/// One more registration that did not handle the interrupt.
proof fn lemma_passed_on_push<H: InterruptHandler>(
    hs: Seq<Registered<H>>,
    n: u8,
    after: Seq<Registered<H>>,
    x: Registered<H>,
    y: Registered<H>,
)
    requires
        passed_on(hs, n, after),
        registered_handles(x, n, HandlingState::NotHandled, y),
    ensures
        passed_on(hs.push(x), n, after.push(y)),
    decreases hs.len(),
{
    if hs.len() > 0 {
        assert(hs.push(x).drop_first() =~= hs.drop_first().push(x));
        assert(after.push(y).drop_first() =~= after.drop_first().push(y));
        lemma_passed_on_push(hs.drop_first(), n, after.drop_first(), x, y);
    } else {
        assert(hs.push(x).drop_first() =~= hs);
        assert(after.push(y).drop_first() =~= after);
    }
}

/// Registrations that passed the interrupt on, before a dispatch of the
/// rest.
proof fn lemma_passed_on_then<H: InterruptHandler>(
    hs: Seq<Registered<H>>,
    n: u8,
    after: Seq<Registered<H>>,
    rest: Seq<Registered<H>>,
    r: HandlingState,
    rest_after: Seq<Registered<H>>,
)
    requires
        passed_on(hs, n, after),
        dispatched(rest, n, r, rest_after),
    ensures
        dispatched(hs + rest, n, r, after + rest_after),
    decreases hs.len(),
{
    if hs.len() == 0 {
        assert(hs + rest =~= rest);
        assert(after + rest_after =~= rest_after);
    } else {
        lemma_passed_on_then(hs.drop_first(), n, after.drop_first(), rest, r, rest_after);
        assert((hs + rest).drop_first() =~= hs.drop_first() + rest);
        assert((after + rest_after).drop_first() =~= after.drop_first() + rest_after);
        if rest.len() == 0 {
            assert(rest_after.len() == 0);
        }
    }
}

/// Passes the interrupt `n` to the registration `s`.
fn handle_registered<H: InterruptHandler>(s: &mut Registered<H>, n: u8) -> (r: HandlingState)
    ensures
        registered_handles(*old(s), n, r, *final(s)),
    decreases *old(s),
{
    match s {
        Registered::Handler(h) => h.handle(n),
        Registered::Manager(g) => dispatch_all(&mut g.handlers, n),
    }
}

/// Passes the interrupt `n` to the registrations `hs` in turn, until one
/// handles it.
#[verifier::loop_isolation(false)]
fn dispatch_all<H: InterruptHandler>(hs: &mut Vec<Registered<H>>, n: u8) -> (r: HandlingState)
    ensures
        dispatched(old(hs)@, n, r, final(hs)@),
    decreases *old(hs),
{
    let ghost h0 = hs@;
    let mut i: usize = 0;
    proof {
        assert(h0.take(0) =~= Seq::<Registered<H>>::empty());
        assert(hs@.take(0) =~= Seq::<Registered<H>>::empty());
    }
    while i < hs.len()
        invariant
            i <= hs@.len(),
            hs@.len() == h0.len(),
            forall|j: int| i <= j < h0.len() ==> hs@[j] == h0[j],
            passed_on(h0.take(i as int), n, hs@.take(i as int)),
        decreases h0.len() - i,
    {
        proof {
            assert(decreases_to!(h0 => h0[i as int]));
        }
        let ghost before = hs@;
        let r = handle_registered(&mut hs[i], n);
        if r == HandlingState::Handled {
            proof {
                let rest = h0.skip(i as int);
                let rest_after = hs@.skip(i as int);
                assert(rest[0] == h0[i as int]);
                assert(rest_after[0] == hs@[i as int]);
                assert(rest.drop_first() =~= rest_after.drop_first());
                assert(dispatched(rest, n, r, rest_after));
                assert(hs@.take(i as int) =~= before.take(i as int));
                lemma_passed_on_then(h0.take(i as int), n, hs@.take(i as int), rest, r, rest_after);
                assert(h0.take(i as int) + rest =~= h0);
                assert(hs@.take(i as int) + rest_after =~= hs@);
            }
            return HandlingState::Handled;
        }
        proof {
            assert(hs@.take(i as int) =~= before.take(i as int));
            lemma_passed_on_push(h0.take(i as int), n, hs@.take(i as int), h0[i as int], hs@[i as int]);
            assert(h0.take(i as int).push(h0[i as int]) =~= h0.take(i as int + 1));
            assert(hs@.take(i as int).push(hs@[i as int]) =~= hs@.take(i as int + 1));
        }
        i = i + 1;
    }
    proof {
        assert(h0.take(i as int) =~= h0);
        assert(hs@.take(i as int) =~= hs@);
        lemma_passed_on_then(h0, n, hs@, Seq::empty(), HandlingState::NotHandled, Seq::empty());
        assert(h0 + Seq::<Registered<H>>::empty() =~= h0);
        assert(hs@ + Seq::<Registered<H>>::empty() =~= hs@);
    }
    HandlingState::NotHandled
}

impl<H: InterruptHandler> InterruptHandler for Registered<H> {
    /// A handler handles, a manager dispatches (`registered_handles`).
    open spec fn handles(self, interrupt_number: u8, r: HandlingState, after: Self) -> bool {
        registered_handles(self, interrupt_number, r, after)
    }

    /// Passes the interrupt to the handler, or to the manager.
    fn handle(&mut self, interrupt_number: u8) -> (r: HandlingState) {
        handle_registered(self, interrupt_number)
    }
}

/// The manager: a registration, or none, for each of the 256 interrupts,
/// and the IDT.
pub struct Manager<H: InterruptHandler> {
    handlers: Vec<Option<Registered<H>>>,
    interrupt_table: InterruptTable,
}

impl<H: InterruptHandler> Manager<H> {
    /// The registrations.
    pub closed spec fn handlers_view(self) -> Seq<Option<Registered<H>>> {
        self.handlers@
    }

    /// The IDT.
    pub closed spec fn table_view(self) -> Seq<IdtGateEntry> {
        self.interrupt_table.entries_view()
    }

    /// A registration slot and a gate for each of the 256 interrupts.
    pub open spec fn wf(self) -> bool {
        self.handlers_view().len() == 256 && self.table_view().len() == 256
    }

    /// The manager of the IDT `interrupt_table` (that of the processor,
    /// when there is one), with nothing registered; `IdtNotInitialized`
    /// when there is none.
    pub fn new(interrupt_table: Option<InterruptTable>) -> (r: Result<Self, InterruptManagerError>)
        requires
            interrupt_table matches Some(t) ==> t.entries_view().len() == 256,
        ensures
            interrupt_table is None ==> r == Err::<Self, InterruptManagerError>(
                InterruptManagerError::IdtNotInitialized,
            ),
            interrupt_table matches Some(t) ==> (r matches Ok(m) && m.wf() && m.table_view()
                == t.entries_view() && forall|i: int| 0 <= i < 256 ==> #[trigger] m.handlers_view()[i]
                is None),
    {
        let table = match interrupt_table {
            Some(t) => t,
            None => return Err(InterruptManagerError::IdtNotInitialized),
        };
        let mut handlers: Vec<Option<Registered<H>>> = Vec::new();
        let mut i: usize = 0;
        while i < 256
            invariant
                i <= 256,
                handlers@.len() == i,
                forall|k: int| 0 <= k < i ==> #[trigger] handlers@[k] is None,
            decreases 256 - i,
        {
            handlers.push(None);
            i = i + 1;
        }
        Ok(Manager { handlers, interrupt_table: table })
    }

    /// Registers `handler` for the interrupt `interrupt_number`, whose
    /// stub is at `stub`. Where nothing is registered, it is kept and the
    /// IDT entry installed (see `registered_gate`). Where a manager is, it
    /// is registered with that manager, after what it holds. Where a
    /// handler is, it is refused and nothing changes.
    pub fn register_at(&mut self, handler: Registered<H>, interrupt_number: u8, stub: u32) -> (r: Result<(), ()>)
        requires
            old(self).wf(),
        ensures
            final(self).wf(),
            old(self).handlers_view()[interrupt_number as int] matches Some(Registered::Handler(_)) ==> r is Err
                && final(self).handlers_view() == old(self).handlers_view() && final(self).table_view()
                == old(self).table_view(),
            old(self).handlers_view()[interrupt_number as int] matches Some(Registered::Manager(g)) ==> (r is Ok
                && final(self).table_view() == old(self).table_view() && (forall|i: int|
                0 <= i < 256 && i != interrupt_number ==> #[trigger] final(self).handlers_view()[i]
                    == old(self).handlers_view()[i]) && (final(self).handlers_view()[interrupt_number as int]
                matches Some(Registered::Manager(g2)) && g2.handlers_view() == g.handlers_view().push(handler))),
            old(self).handlers_view()[interrupt_number as int] is None ==> r is Ok,
            old(self).handlers_view()[interrupt_number as int] is None ==> final(self).handlers_view()
                == old(self).handlers_view().update(interrupt_number as int, Some(handler)),
            old(self).handlers_view()[interrupt_number as int] is None ==> final(self).table_view()
                == old(self).table_view().update(
                interrupt_number as int,
                registered_gate(old(self).table_view()[interrupt_number as int], stub),
            ),
    {
        let n = interrupt_number as usize;
        let mut slot: Option<Registered<H>> = None;
        std::mem::swap(&mut slot, &mut self.handlers[n]);
        match slot {
            Some(Registered::Handler(h)) => {
                self.handlers.set(n, Some(Registered::Handler(h)));
                proof {
                    assert(self.handlers@ =~= old(self).handlers@);
                }
                return Err(());
            },
            Some(Registered::Manager(mut g)) => {
                g.handlers.push(handler);
                self.handlers.set(n, Some(Registered::Manager(g)));
                return Ok(());
            },
            None => {},
        }
        let mut entry = self.interrupt_table.get(n);
        let ghost e0 = entry;
        entry.set_storage_segment(false);
        entry.set_privilege_level(0);
        entry.set_selector(0x8);
        entry.set_gate_type(GateType::InterruptGate32);
        entry.set_present(true);
        entry.set_handler(stub);
        proof {
            lemma_gate_attributes(e0.type_attr);
            assert(gate_type_code(GateType::InterruptGate32) == 0xE);
            assert(entry == registered_gate(e0, stub));
        }
        self.interrupt_table.set(n, entry);
        self.handlers.set(n, Some(handler));
        Ok(())
    }

    /// Dispatches the interrupt `interrupt_number` to what is registered
    /// for it (see `registered_handles`); not handled when nothing is.
    pub fn dispatch_to(&mut self, interrupt_number: u8) -> (r: HandlingState)
        requires
            old(self).wf(),
        ensures
            final(self).wf(),
            final(self).table_view() == old(self).table_view(),
            old(self).handlers_view()[interrupt_number as int] is None ==> r
                == HandlingState::NotHandled && final(self).handlers_view() == old(self).handlers_view(),
            old(self).handlers_view()[interrupt_number as int] matches Some(s) ==> (final(self).handlers_view()[interrupt_number as int] matches Some(s2) && registered_handles(
                s,
                interrupt_number,
                r,
                s2,
            )),
            forall|i: int|
                0 <= i < 256 && i != interrupt_number ==> #[trigger] final(self).handlers_view()[i]
                    == old(self).handlers_view()[i],
    {
        let n = interrupt_number as usize;
        let mut slot: Option<Registered<H>> = None;
        std::mem::swap(&mut slot, &mut self.handlers[n]);
        let r = match slot {
            Some(mut s) => {
                let r = handle_registered(&mut s, interrupt_number);
                self.handlers.set(n, Some(s));
                r
            },
            None => {
                self.handlers.set(n, None);
                HandlingState::NotHandled
            },
        };
        proof {
            if old(self).handlers_view()[n as int] is None {
                assert(self.handlers@ =~= old(self).handlers@);
            }
        }
        r
    }
}

impl<H: InterruptHandler> InterruptManager for Manager<H> {
    type Handler = (Registered<H>, u32);

    /// Dispatches the interrupt to what is registered for it (see
    /// `dispatch_to`); not handled when the manager is not well formed.
    fn dispatch(&mut self, interrupt_number: u8) -> (r: HandlingState)
        ensures
            old(self).wf() ==> final(self).wf(),
            final(self).table_view() == old(self).table_view(),
            !old(self).wf() ==> r == HandlingState::NotHandled && final(self).handlers_view()
                == old(self).handlers_view(),
            old(self).wf() && old(self).handlers_view()[interrupt_number as int] is None ==> r
                == HandlingState::NotHandled && final(self).handlers_view()
                == old(self).handlers_view(),
            old(self).wf() ==> (old(self).handlers_view()[interrupt_number as int] matches Some(s) ==> (final(self).handlers_view()[interrupt_number as int] matches Some(s2) && registered_handles(
                s,
                interrupt_number,
                r,
                s2,
            ))),
            old(self).wf() ==> forall|i: int|
                0 <= i < 256 && i != interrupt_number ==> #[trigger] final(self).handlers_view()[i]
                    == old(self).handlers_view()[i],
    {
        if self.handlers.len() == 256 && self.interrupt_table.len() == 256 {
            self.dispatch_to(interrupt_number)
        } else {
            HandlingState::NotHandled
        }
    }

    /// Registers the registration of a pair (what to register, address of
    /// the stub of the interrupt; see `register_at`); refused when the
    /// manager is not well formed.
    fn register(&mut self, handler: (Registered<H>, u32), interrupt_number: u8) -> (r: Result<(), ()>)
        ensures
            old(self).wf() ==> final(self).wf(),
            !old(self).wf() ==> r is Err && final(self).handlers_view() == old(self).handlers_view()
                && final(self).table_view() == old(self).table_view(),
            old(self).wf() ==> (old(self).handlers_view()[interrupt_number as int] matches Some(
                Registered::Handler(_),
            ) ==> r is Err && final(self).handlers_view() == old(self).handlers_view()
                && final(self).table_view() == old(self).table_view()),
            old(self).wf() ==> (old(self).handlers_view()[interrupt_number as int] matches Some(
                Registered::Manager(g),
            ) ==> (r is Ok && final(self).table_view() == old(self).table_view() && (forall|i: int|
                0 <= i < 256 && i != interrupt_number ==> #[trigger] final(self).handlers_view()[i]
                    == old(self).handlers_view()[i]) && (final(self).handlers_view()[interrupt_number as int]
                matches Some(Registered::Manager(g2)) && g2.handlers_view() == g.handlers_view().push(handler.0)))),
            old(self).wf() && old(self).handlers_view()[interrupt_number as int] is None ==> r is Ok
                && final(self).handlers_view() == old(self).handlers_view().update(
                interrupt_number as int,
                Some(handler.0),
            ) && final(self).table_view() == old(self).table_view().update(
                interrupt_number as int,
                registered_gate(old(self).table_view()[interrupt_number as int], handler.1),
            ),
    {
        if self.handlers.len() == 256 && self.interrupt_table.len() == 256 {
            self.register_at(handler.0, interrupt_number, handler.1)
        } else {
            Err(())
        }
    }
}

/// A manager that passes each interrupt to what is registered with it in
/// turn, until one handles it.
pub struct GenericManager<H: InterruptHandler> {
    handlers: Vec<Registered<H>>,
}

impl<H: InterruptHandler> GenericManager<H> {
    /// What is registered, in order.
    pub closed spec fn handlers_view(self) -> Seq<Registered<H>> {
        self.handlers@
    }

    /// The manager with nothing registered.
    pub fn new() -> (r: Self)
        ensures
            r.handlers_view() == Seq::<Registered<H>>::empty(),
    {
        GenericManager { handlers: Vec::new() }
    }
}

impl<H: InterruptHandler> InterruptManager for GenericManager<H> {
    type Handler = Registered<H>;

    /// Passes the interrupt to what is registered in turn; handled as soon
    /// as one handles it, not handled when none does (see `dispatched`).
    fn dispatch(&mut self, interrupt_number: u8) -> (r: HandlingState)
        ensures
            dispatched(old(self).handlers_view(), interrupt_number, r, final(self).handlers_view()),
    {
        dispatch_all(&mut self.handlers, interrupt_number)
    }

    /// Registers one more handler or manager, asked after the others.
    fn register(&mut self, handler: Registered<H>, interrupt_number: u8) -> (r: Result<(), ()>)
        ensures
            r is Ok,
            final(self).handlers_view() == old(self).handlers_view().push(handler),
    {
        self.handlers.push(handler);
        Ok(())
    }
}

impl<H: InterruptHandler> InterruptHandler for GenericManager<H> {
    /// A manager handles an interrupt as it dispatches it.
    open spec fn handles(self, interrupt_number: u8, r: HandlingState, after: Self) -> bool {
        dispatched(self.handlers_view(), interrupt_number, r, after.handlers_view())
    }

    /// Dispatches the interrupt.
    fn handle(&mut self, interrupt_number: u8) -> (r: HandlingState) {
        dispatch_all(&mut self.handlers, interrupt_number)
    }
}

} // verus!
