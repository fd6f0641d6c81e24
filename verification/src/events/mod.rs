//! Event dispatch: listeners with one handler, groups of subscribers, and
//! the bindings that tie a handler to an event of the host.

mod event_listener;
pub use event_listener::{Binding, EventListener, HostRegistrationFailure};

mod custom_event_listener;
pub use custom_event_listener::{
    fired, fired_by_reference, lemma_fire_without_handler, lemma_listener_stays_well_formed,
    lemma_reentrant_fire_is_refused, lemma_returned_respects_removal,
    lemma_second_handler_replaces_first, CustomEventListener, CustomRefEventListener,
    EventHandler, ListenerState, ReentrantAccess, RefEventHandler,
};

mod group;
pub use group::{
    deregistered, lemma_busy_group_refuses, lemma_deregistered_subscriber_is_gone,
    lemma_free_successor_is_next,
    lemma_next_id_is_free, lemma_next_id_is_unique, lemma_notification_keeps_subscriptions,
    lemma_registration_fails_only_when_exhausted, lemma_second_deregistration_is_a_no_op,
    lemma_spent_token_changes_nothing, next_id_taken, notified, token_deregistered, told_of, Group,
    GroupError, GroupState, GroupToken, Subscriber, TokenState,
};

mod bubble_stopper;
pub use bubble_stopper::{BubbleStopper, BubbleStopperConfig, Disposal, Reaction, StopperState};

mod callback;
pub use callback::{Callback, RefCallback};
