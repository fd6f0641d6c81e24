use super::custom_event_listener::{
    CustomEventListener, CustomRefEventListener, EventHandler, ListenerState, RefEventHandler,
};
use super::group::{Group, GroupState, Subscriber};
use core::marker::PhantomData;
use vstd::prelude::*;

verus! {

/// A function that takes every argument of type `A` by value, as a handler.
/// It leaves the listener that invokes it alone.
pub struct Callback<A, F: Fn(A)> {
    callback: F,
    argument: PhantomData<A>,
}

impl<A, F: Fn(A)> Callback<A, F> {
    #[verifier::type_invariant]
    spec fn takes_every_argument(self) -> bool {
        forall|argument: A| call_requires(self.callback, (argument,))
    }

    /// The function.
    pub closed spec fn callback(self) -> F {
        self.callback
    }

    pub fn new(callback: F) -> (made: Self)
        requires
            forall|argument: A| call_requires(callback, (argument,)),
        ensures
            made.callback() == callback,
    {
        Self { callback, argument: PhantomData }
    }
}

impl<A, F: Fn(A)> EventHandler<A> for Callback<A, F> {
    open spec fn handled(
        &self,
        listener: ListenerState<Self>,
        argument: A,
        after: Self,
        listener_after: ListenerState<Self>,
    ) -> bool {
        &&& call_ensures(self.callback(), (argument,), ())
        &&& after == *self
        &&& listener_after == listener
    }

    fn handle(&mut self, listener: &mut CustomEventListener<A, Self>, argument: A) {
        proof {
            use_type_invariant(&*self);
        }
        (self.callback)(argument)
    }
}

/// A function that takes every argument of type `A` by reference, as a
/// handler and as a subscriber. It leaves the listener or group that invokes
/// it alone.
pub struct RefCallback<A, F: Fn(&A)> {
    callback: F,
    argument: PhantomData<A>,
}

impl<A, F: Fn(&A)> RefCallback<A, F> {
    #[verifier::type_invariant]
    spec fn takes_every_argument(self) -> bool {
        forall|argument: A| call_requires(self.callback, (&argument,))
    }

    /// The function.
    pub closed spec fn callback(self) -> F {
        self.callback
    }

    pub fn new(callback: F) -> (made: Self)
        requires
            forall|argument: A| call_requires(callback, (&argument,)),
        ensures
            made.callback() == callback,
    {
        Self { callback, argument: PhantomData }
    }
}

impl<A, F: Fn(&A)> RefEventHandler<A> for RefCallback<A, F> {
    open spec fn handled(
        &self,
        listener: ListenerState<Self>,
        argument: A,
        after: Self,
        listener_after: ListenerState<Self>,
    ) -> bool {
        &&& call_ensures(self.callback(), (&argument,), ())
        &&& after == *self
        &&& listener_after == listener
    }

    fn handle(&mut self, listener: &mut CustomRefEventListener<A, Self>, argument: &A) {
        proof {
            use_type_invariant(&*self);
        }
        (self.callback)(argument)
    }
}

impl<A, F: Fn(&A)> Subscriber<A> for RefCallback<A, F> {
    open spec fn notified(
        &self,
        group: GroupState<Self>,
        value: A,
        after: Self,
        group_after: GroupState<Self>,
    ) -> bool {
        &&& call_ensures(self.callback(), (&value,), ())
        &&& after == *self
        &&& group_after == group
    }

    fn notify(&mut self, group: &mut Group<A, Self>, value: &A) {
        proof {
            use_type_invariant(&*self);
        }
        (self.callback)(value)
    }
}

} // verus!
