use crate::errors::{ErrorMessage, HostError};
use vstd::prelude::*;

verus! {

/// The event source did not do what it was asked.
#[derive(Debug, Clone, Copy, PartialEq, Eq, Structural)]
pub enum HostRegistrationFailure {
    /// The source did not take the handler.
    Add,
    /// The source did not let the handler go.
    Remove,
}

impl ErrorMessage for HostRegistrationFailure {
    open spec fn says(&self, text: Seq<char>) -> bool {
        text == match self {
            HostRegistrationFailure::Add => "Failed to add event handler to event listener."@,
            HostRegistrationFailure::Remove =>
                "Failed to remove event handler from event listener."@,
        }
    }

    fn message(&self) -> (text: String) {
        match self {
            HostRegistrationFailure::Add => String::from_str(
                "Failed to add event handler to event listener.",
            ),
            HostRegistrationFailure::Remove => String::from_str(
                "Failed to remove event handler from event listener.",
            ),
        }
    }
}

/// What a binding holds: the event source, the name of the event, and the
/// handler that is registered with the source for it, if any.
pub struct Binding<S, H> {
    pub target: S,
    pub eventname: Seq<char>,
    pub handler: Option<H>,
}

/// The registration of one handler for one event of one host event source.
///
/// The binding decides and keeps track; its owner talks to the host. What an
/// operation hands back is what the owner has to take off the source, and
/// what the binding holds afterwards is what has to be registered there.
pub struct EventListener<S, H> {
    target: S,
    eventname: &'static str,
    handler: Option<H>,
}

impl<S, H> View for EventListener<S, H> {
    type V = Binding<S, H>;

    closed spec fn view(&self) -> Binding<S, H> {
        Binding { target: self.target, eventname: self.eventname@, handler: self.handler }
    }
}

impl<S, H> EventListener<S, H> {
    /// A binding for the event `eventname` of `target`, with nothing
    /// registered yet.
    pub fn new(target: S, eventname: &'static str) -> (listener: Self)
        ensures
            listener@ == (Binding { target, eventname: eventname@, handler: None::<H> }),
    {
        Self { target, eventname, handler: None }
    }

    pub fn target(&self) -> (target: &S)
        ensures
            *target == self@.target,
    {
        &self.target
    }

    pub fn eventname(&self) -> (eventname: &'static str)
        ensures
            eventname@ == self@.eventname,
    {
        self.eventname
    }

    /// The handler that is registered, if any.
    pub fn handler(&self) -> (handler: Option<&H>)
        ensures
            match handler {
                Some(handler) => self@.handler == Some(*handler),
                None => self@.handler is None,
            },
    {
        self.handler.as_ref()
    }

    /// Makes `handler` the one handler of the event. The handler that it
    /// replaces is handed back: it is taken off the source first, then the
    /// new one is registered.
    pub fn set_handler(&mut self, handler: H) -> (replaced: Option<H>)
        ensures
            replaced == old(self)@.handler,
            final(self)@ == (Binding { handler: Some(handler), ..old(self)@ }),
    {
        let replaced = self.remove_handler();
        self.handler = Some(handler);
        replaced
    }

    /// `set_handler` on a binding that is passed along.
    pub fn with_handler(self, handler: H) -> (result: (Self, Option<H>))
        ensures
            result.1 == self@.handler,
            result.0@ == (Binding { handler: Some(handler), ..self@ }),
    {
        let mut listener = self;
        let replaced = listener.set_handler(handler);
        (listener, replaced)
    }

    /// Takes note of how registering the stored handler with the source
    /// went. A handler that the source did not take is not kept, and the
    /// failure is passed on.
    pub fn registered(&mut self, outcome: Result<(), HostError>) -> (result: Result<
        (),
        HostRegistrationFailure,
    >)
        ensures
            match outcome {
                Ok(_) => result == Ok::<(), HostRegistrationFailure>(())
                    && final(self)@ == old(self)@,
                Err(_) => result == Err::<(), HostRegistrationFailure>(
                    HostRegistrationFailure::Add,
                ) && final(self)@ == (Binding { handler: None, ..old(self)@ }),
            },
    {
        match outcome {
            Ok(_) => Ok(()),
            Err(_) => {
                self.handler = None;
                Err(HostRegistrationFailure::Add)
            },
        }
    }

    /// Passes on how taking a handler off the source went.
    pub fn deregistered(&self, outcome: Result<(), HostError>) -> (result: Result<
        (),
        HostRegistrationFailure,
    >)
        ensures
            result == match outcome {
                Ok(_) => Ok::<(), HostRegistrationFailure>(()),
                Err(_) => Err::<(), HostRegistrationFailure>(HostRegistrationFailure::Remove),
            },
    {
        match outcome {
            Ok(_) => Ok(()),
            Err(_) => Err(HostRegistrationFailure::Remove),
        }
    }

    /// Ends the registration. The handler that was registered is handed back
    /// to be taken off the source.
    pub fn remove_handler(&mut self) -> (removed: Option<H>)
        ensures
            removed == old(self)@.handler,
            final(self)@ == (Binding { handler: None, ..old(self)@ }),
    {
        self.handler.take()
    }

    /// Gives the binding up and leaves the registration in place. The handler
    /// is handed back to be kept alive for the host: from here on nothing
    /// takes it off the source.
    pub fn forget(self) -> (kept: Option<H>)
        ensures
            kept == self@.handler,
    {
        self.handler
    }
}

} // verus!
