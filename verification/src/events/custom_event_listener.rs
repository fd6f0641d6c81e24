use core::marker::PhantomData;
use vstd::prelude::*;

verus! {

/// An operation found the listener already in use by a call that is still running.
#[derive(Debug, Clone, Copy, PartialEq, Eq, Structural)]
pub struct ReentrantAccess;

/// What a listener holds: the stored handler, and whether a running call has it on loan.
pub struct ListenerState<H> {
    pub handler: Option<H>,
    pub loaned: bool,
}

impl<H> ListenerState<H> {
    /// While a loan is out the slot is vacant.
    pub open spec fn wf(self) -> bool {
        self.loaned ==> self.handler is None
    }

    /// The listener without a handler and without a loan.
    pub open spec fn vacant() -> Self {
        ListenerState { handler: None, loaned: false }
    }

    /// The listener while its handler is on loan.
    pub open spec fn lent() -> Self {
        ListenerState { handler: None, loaned: true }
    }

    /// The listener holding `handler`, with no loan out.
    pub open spec fn holding(handler: H) -> Self {
        ListenerState { handler: Some(handler), loaned: false }
    }

    /// The listener after an attempt to store `handler`: unchanged while a
    /// loan is out.
    pub open spec fn set(self, handler: H) -> Self {
        if self.loaned {
            self
        } else {
            Self::holding(handler)
        }
    }

    /// What an attempt to store `handler` returns: the replaced handler, or
    /// `handler` itself while a loan is out.
    pub open spec fn set_outcome(self, handler: H) -> Result<Option<H>, H> {
        if self.loaned {
            Err(handler)
        } else {
            Ok(self.handler)
        }
    }

    /// The listener after `loan` is handed back: the slot takes it only if the
    /// loan is still out, and the loan ends either way.
    pub open spec fn returned(self, loan: Option<H>) -> Self {
        ListenerState {
            handler: if self.loaned {
                loan
            } else {
                self.handler
            },
            loaned: false,
        }
    }
}

/// A callback for a [`CustomEventListener`]. It is handed the listener that
/// invokes it, so it can replace or remove itself while it runs.
pub trait EventHandler<A>: Sized {
    /// Whether one invocation on `argument`, with the listener in state
    /// `listener`, can end with this handler as `after` and the listener in
    /// state `listener_after`.
    open spec fn handled(
        &self,
        listener: ListenerState<Self>,
        argument: A,
        after: Self,
        listener_after: ListenerState<Self>,
    ) -> bool {
        true
    }

    fn handle(&mut self, listener: &mut CustomEventListener<A, Self>, argument: A)
        ensures
            old(self).handled(old(listener)@, argument, *final(self), final(listener)@),
    ;
}

/// What `fire` does to a listener in state `before`: refused while a loan is
/// out, nothing to run in a vacant slot, else one invocation of the stored
/// handler on the lent listener, after which the handler is handed back.
pub open spec fn fired<A, H: EventHandler<A>>(
    before: ListenerState<H>,
    argument: A,
    result: Result<bool, ReentrantAccess>,
    after: ListenerState<H>,
) -> bool {
    if before.loaned {
        result == Err::<bool, ReentrantAccess>(ReentrantAccess) && after == before
    } else {
        match before.handler {
            None => result == Ok::<bool, ReentrantAccess>(false) && after == before,
            Some(handler) => result == Ok::<bool, ReentrantAccess>(true) && exists|
                handler_after: H,
                left: ListenerState<H>,
            |
                #[trigger] handler.handled(
                    ListenerState::lent(),
                    argument,
                    handler_after,
                    left,
                ) && after == left.returned(Some(handler_after)),
        }
    }
}

/// A single-handler event channel that stays usable while its handler runs.
///
/// For the time of an invocation the handler is taken out of the slot. The
/// running handler may therefore remove itself, and a second `fire` on the same
/// listener is refused instead of running the handler twice.
pub struct CustomEventListener<A, H> {
    handler: Option<H>,
    handler_loaned: bool,
    argument: PhantomData<A>,
}

impl<A, H> View for CustomEventListener<A, H> {
    type V = ListenerState<H>;

    closed spec fn view(&self) -> ListenerState<H> {
        ListenerState { handler: self.handler, loaned: self.handler_loaned }
    }
}

impl<A, H> CustomEventListener<A, H> {
    pub fn new() -> (listener: Self)
        ensures
            listener@ == ListenerState::<H>::vacant(),
    {
        Self { handler: None, handler_loaned: false, argument: PhantomData }
    }

    /// Stores `handler` and returns the one it replaces. Refused, with
    /// `handler` handed back, while a loan is out.
    pub fn set_handler(&mut self, handler: H) -> (result: Result<Option<H>, H>)
        ensures
            result == old(self)@.set_outcome(handler),
            final(self)@ == old(self)@.set(handler),
    {
        match self.loan_handler() {
            Err(_) => Err(handler),
            Ok(replaced) => {
                self.return_handler(Some(handler));
                Ok(replaced)
            },
        }
    }

    /// `set_handler` on a listener that is passed along: the listener on
    /// success, the listener and `handler` on refusal.
    pub fn with_handler(self, handler: H) -> (result: Result<Self, (Self, H)>)
        ensures
            self@.loaned ==> result == Err::<Self, (Self, H)>((self, handler)),
            !self@.loaned ==> result is Ok && result->Ok_0@ == self@.set(handler),
    {
        let mut listener = self;
        match listener.set_handler(handler) {
            Ok(_) => Ok(listener),
            Err(handler) => Err((listener, handler)),
        }
    }

    /// Empties the slot and ends any loan. Never refused: a handler that is
    /// running at that moment is not stored again when it returns.
    pub fn remove_handler(&mut self)
        ensures
            final(self)@ == ListenerState::<H>::vacant(),
    {
        self.handler_loaned = false;
        self.handler = None;
    }

    /// Takes the handler out of the slot for an invocation.
    pub fn loan_handler(&mut self) -> (result: Result<Option<H>, ReentrantAccess>)
        ensures
            old(self)@.loaned ==> result == Err::<Option<H>, ReentrantAccess>(ReentrantAccess)
                && final(self)@ == old(self)@,
            !old(self)@.loaned ==> result == Ok::<Option<H>, ReentrantAccess>(old(self)@.handler)
                && final(self)@ == ListenerState::<H>::lent(),
    {
        if self.handler_loaned {
            Err(ReentrantAccess)
        } else {
            let loan = self.handler.take();
            self.handler_loaned = true;
            Ok(loan)
        }
    }

    /// Hands a loan back. The slot takes it only if the loan is still out.
    pub fn return_handler(&mut self, loan: Option<H>)
        ensures
            final(self)@ == old(self)@.returned(loan),
    {
        if self.handler_loaned {
            self.handler = loan;
        }
        self.handler_loaned = false;
    }
}

impl<A, H: EventHandler<A>> CustomEventListener<A, H> {
    /// Invokes the stored handler on `argument`, at most once: `Ok(true)` if
    /// there was one, `Ok(false)` if the slot was vacant.
    pub fn fire(&mut self, argument: A) -> (result: Result<bool, ReentrantAccess>)
        ensures
            fired(old(self)@, argument, result, final(self)@),
    {
        match self.loan_handler() {
            Err(refusal) => Err(refusal),
            Ok(None) => {
                self.return_handler(None);
                Ok(false)
            },
            Ok(Some(mut handler)) => {
                let ghost before = handler;
                handler.handle(self, argument);
                let ghost left = self@;
                self.return_handler(Some(handler));
                assert(before.handled(ListenerState::lent(), argument, handler, left));
                Ok(true)
            },
        }
    }
}

/// A listener that holds no handler and has no loan out reports every
/// argument as not handled, never refuses, and stays as it is.
pub proof fn lemma_fire_without_handler<A, H: EventHandler<A>>(
    argument: A,
    result: Result<bool, ReentrantAccess>,
    after: ListenerState<H>,
)
    requires
        fired(ListenerState::<H>::vacant(), argument, result, after),
    ensures
        result == Ok::<bool, ReentrantAccess>(false),
        after == ListenerState::<H>::vacant(),
{
}

/// Storing `first` and then `second` hands `first` back as the replaced
/// handler and leaves `second` alone in the slot, so the next `fire` is one
/// invocation of `second`.
pub proof fn lemma_second_handler_replaces_first<A, H: EventHandler<A>>(
    before: ListenerState<H>,
    first: H,
    second: H,
    argument: A,
    result: Result<bool, ReentrantAccess>,
    after: ListenerState<H>,
)
    requires
        !before.loaned,
        fired(before.set(first).set(second), argument, result, after),
    ensures
        before.set(first).set_outcome(second) == Ok::<Option<H>, H>(Some(first)),
        before.set(first).set(second) == ListenerState::holding(second),
        result == Ok::<bool, ReentrantAccess>(true),
        exists|second_after: H, left: ListenerState<H>| #[trigger]
            second.handled(ListenerState::lent(), argument, second_after, left) && after
                == left.returned(Some(second_after)),
{
}

/// While a handler runs, the listener it was handed has the loan out, so a
/// `fire` that the handler makes on it is refused and changes nothing. The
/// outer `fire` still reports the event as handled.
pub proof fn lemma_reentrant_fire_is_refused<A, H: EventHandler<A>>(
    before: ListenerState<H>,
    argument: A,
    result: Result<bool, ReentrantAccess>,
    after: ListenerState<H>,
    inner_argument: A,
    inner_result: Result<bool, ReentrantAccess>,
    inner_after: ListenerState<H>,
)
    requires
        !before.loaned,
        before.handler is Some,
        fired(before, argument, result, after),
        fired(ListenerState::<H>::lent(), inner_argument, inner_result, inner_after),
    ensures
        inner_result == Err::<bool, ReentrantAccess>(ReentrantAccess),
        inner_after == ListenerState::<H>::lent(),
        result == Ok::<bool, ReentrantAccess>(true),
        !after.loaned,
{
}

/// Whatever is done to a listener whose slot is vacant while a loan is out,
/// it stays that way.
pub proof fn lemma_listener_stays_well_formed<A, H: EventHandler<A>>(
    before: ListenerState<H>,
    handler: H,
    loan: Option<H>,
    argument: A,
    result: Result<bool, ReentrantAccess>,
    after: ListenerState<H>,
)
    requires
        before.wf(),
        fired(before, argument, result, after),
    ensures
        ListenerState::<H>::vacant().wf(),
        ListenerState::<H>::lent().wf(),
        ListenerState::holding(handler).wf(),
        before.set(handler).wf(),
        before.returned(loan).wf(),
        after.wf(),
{
}

/// A handler that removes itself while it runs is not stored again, and one
/// that leaves the listener alone is.
pub proof fn lemma_returned_respects_removal<H>(handler: H)
    ensures
        ListenerState::<H>::vacant().returned(Some(handler)) == ListenerState::<H>::vacant(),
        ListenerState::<H>::lent().returned(Some(handler)) == ListenerState::holding(handler),
{
}

/// A callback for a [`CustomRefEventListener`]. It is handed the listener that
/// invokes it, which refuses every operation until the callback returns.
pub trait RefEventHandler<A>: Sized {
    /// Whether one invocation on `argument`, with the listener in state
    /// `listener`, can end with this handler as `after` and the listener in
    /// state `listener_after`.
    open spec fn handled(
        &self,
        listener: ListenerState<Self>,
        argument: A,
        after: Self,
        listener_after: ListenerState<Self>,
    ) -> bool {
        true
    }

    fn handle(&mut self, listener: &mut CustomRefEventListener<A, Self>, argument: &A)
        ensures
            old(self).handled(old(listener)@, *argument, *final(self), final(listener)@),
    ;
}

/// What `fire` does to a by-reference listener in state `before`: refused while
/// the handler runs, nothing to run in a vacant slot, else one invocation of
/// the stored handler, which is stored again whatever it left behind.
pub open spec fn fired_by_reference<A, H: RefEventHandler<A>>(
    before: ListenerState<H>,
    argument: A,
    result: Result<bool, ReentrantAccess>,
    after: ListenerState<H>,
) -> bool {
    if before.loaned {
        result == Err::<bool, ReentrantAccess>(ReentrantAccess) && after == before
    } else {
        match before.handler {
            None => result == Ok::<bool, ReentrantAccess>(false) && after == before,
            Some(handler) => result == Ok::<bool, ReentrantAccess>(true) && exists|
                handler_after: H,
                left: ListenerState<H>,
            |
                #[trigger] handler.handled(
                    ListenerState::lent(),
                    argument,
                    handler_after,
                    left,
                ) && after == ListenerState::holding(handler_after),
        }
    }
}

/// A single-handler event channel whose handler takes the argument by
/// reference. While the handler runs the listener is locked: every operation
/// on it is refused, and the handler is stored again when it returns.
pub struct CustomRefEventListener<A, H> {
    handler: Option<H>,
    in_use: bool,
    argument: PhantomData<A>,
}

impl<A, H> View for CustomRefEventListener<A, H> {
    type V = ListenerState<H>;

    closed spec fn view(&self) -> ListenerState<H> {
        ListenerState { handler: self.handler, loaned: self.in_use }
    }
}

impl<A, H> CustomRefEventListener<A, H> {
    pub fn new() -> (listener: Self)
        ensures
            listener@ == ListenerState::<H>::vacant(),
    {
        Self { handler: None, in_use: false, argument: PhantomData }
    }

    /// Stores `handler` and returns the one it replaces. Refused, with
    /// `handler` handed back, while the listener is locked.
    pub fn set_handler(&mut self, handler: H) -> (result: Result<Option<H>, H>)
        ensures
            result == old(self)@.set_outcome(handler),
            final(self)@ == old(self)@.set(handler),
    {
        if self.in_use {
            Err(handler)
        } else {
            let replaced = self.handler.take();
            self.handler = Some(handler);
            Ok(replaced)
        }
    }

    /// `set_handler` on a listener that is passed along: the listener on
    /// success, the listener and `handler` on refusal.
    pub fn with_handler(self, handler: H) -> (result: Result<Self, (Self, H)>)
        ensures
            self@.loaned ==> result == Err::<Self, (Self, H)>((self, handler)),
            !self@.loaned ==> result is Ok && result->Ok_0@ == self@.set(handler),
    {
        let mut listener = self;
        match listener.set_handler(handler) {
            Ok(_) => Ok(listener),
            Err(handler) => Err((listener, handler)),
        }
    }

    /// Empties the slot and returns what it held. Refused while the listener
    /// is locked.
    pub fn remove_handler(&mut self) -> (result: Result<Option<H>, ReentrantAccess>)
        ensures
            old(self)@.loaned ==> result == Err::<Option<H>, ReentrantAccess>(ReentrantAccess)
                && final(self)@ == old(self)@,
            !old(self)@.loaned ==> result == Ok::<Option<H>, ReentrantAccess>(old(self)@.handler)
                && final(self)@ == ListenerState::<H>::vacant(),
    {
        if self.in_use {
            Err(ReentrantAccess)
        } else {
            Ok(self.handler.take())
        }
    }
}

impl<A, H: RefEventHandler<A>> CustomRefEventListener<A, H> {
    /// Invokes the stored handler on `argument`, at most once: `Ok(true)` if
    /// there was one, `Ok(false)` if the slot was vacant.
    pub fn fire(&mut self, argument: &A) -> (result: Result<bool, ReentrantAccess>)
        ensures
            fired_by_reference(old(self)@, *argument, result, final(self)@),
    {
        if self.in_use {
            return Err(ReentrantAccess);
        }
        match self.handler.take() {
            None => Ok(false),
            Some(mut handler) => {
                let ghost before = handler;
                self.in_use = true;
                handler.handle(self, argument);
                let ghost left = self@;
                self.handler = Some(handler);
                self.in_use = false;
                assert(before.handled(ListenerState::lent(), *argument, handler, left));
                Ok(true)
            },
        }
    }
}

} // verus!
