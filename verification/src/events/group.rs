use core::marker::PhantomData;
use std::collections::HashMap;
use vstd::prelude::*;
use vstd::std_specs::iter::IteratorSpec;

verus! {

/// Why a group refused an operation.
#[derive(Debug, Clone, Copy, PartialEq, Eq, Structural)]
pub enum GroupError {
    /// The group is in the middle of a notification.
    ReentrantAccess,
    /// Every identifier of the group is in use.
    IdentifierSpaceExhausted,
}

/// What a group holds: its subscribers by their identifiers; the identifier
/// that was given out last; the largest identifier there is; and whether a
/// notification is running.
pub struct GroupState<S> {
    pub subscribers: Map<usize, S>,
    pub last_id: usize,
    pub max_id: usize,
    pub notifying: bool,
}

impl<S> GroupState<S> {
    /// Whether a subscriber is registered under `id`.
    pub open spec fn has_id(self, id: usize) -> bool {
        self.subscribers.contains_key(id)
    }

    /// No identifier lies outside the identifier space, and while a
    /// notification runs the subscribers are out with it.
    pub open spec fn wf(self) -> bool {
        &&& self.last_id <= self.max_id
        &&& forall|id: usize| #[trigger] self.subscribers.contains_key(id) ==> id <= self.max_id
        &&& self.notifying ==> self.subscribers == Map::<usize, S>::empty()
    }

    /// The identifier `steps` places after the one given out last, where the
    /// smallest identifier follows the largest.
    pub open spec fn probe(self, steps: int) -> int {
        if self.last_id + steps <= self.max_id {
            self.last_id + steps
        } else {
            self.last_id + steps - (self.max_id + 1)
        }
    }

    /// Whether `id` is the first free identifier after the one given out last.
    pub open spec fn is_next_id(self, id: usize) -> bool {
        exists|steps: int|
            1 <= steps <= self.max_id + 1 && id == #[trigger] self.probe(steps) && !self.has_id(id)
                && forall|k: int| 1 <= k < steps ==> self.has_id(#[trigger] self.probe(k) as usize)
    }

    /// Whether every identifier is in use.
    pub open spec fn exhausted(self) -> bool {
        forall|id: usize| id <= self.max_id ==> #[trigger] self.has_id(id)
    }

    /// The group as a subscriber sees it during a notification: the
    /// subscribers are out, and every operation is refused.
    pub open spec fn busy(self) -> Self {
        GroupState { subscribers: Map::empty(), notifying: true, ..self }
    }
}

/// A callback for a [`Group`]. It is handed the group that notifies it, which
/// refuses every operation until the notification is over.
pub trait Subscriber<T>: Sized {
    /// Whether one notification of `value`, with the group in state `group`,
    /// can end with this subscriber as `after` and the group in state
    /// `group_after`.
    open spec fn notified(
        &self,
        group: GroupState<Self>,
        value: T,
        after: Self,
        group_after: GroupState<Self>,
    ) -> bool {
        true
    }

    fn notify(&mut self, group: &mut Group<T, Self>, value: &T)
        ensures
            old(self).notified(old(group)@, *value, *final(self), final(group)@),
    ;
}

/// What asking for the next identifier does to a group in state `before`.
pub open spec fn next_id_taken<S>(
    before: GroupState<S>,
    result: Result<usize, GroupError>,
    after: GroupState<S>,
) -> bool {
    match result {
        Err(GroupError::ReentrantAccess) => before.notifying && after == before,
        Err(GroupError::IdentifierSpaceExhausted) => !before.notifying && before.exhausted()
            && after == before,
        Ok(id) => !before.notifying && before.is_next_id(id) && after == (GroupState {
            last_id: id,
            ..before
        }),
    }
}

/// Whether `told` holds the subscriber that is registered in `before` under
/// `id`, after one notification of `argument` with the group in its busy
/// state.
pub open spec fn told_of<T, S: Subscriber<T>>(
    before: GroupState<S>,
    argument: T,
    told: Map<usize, S>,
    id: usize,
) -> bool {
    exists|left: GroupState<S>| #[trigger]
        before.subscribers[id].notified(before.busy(), argument, told[id], left)
}

/// What notifying `argument` does to a group in state `before`: refused while
/// another notification runs, else every subscriber is notified once, each
/// with the group in its busy state, and the group is otherwise as before.
pub open spec fn notified<T, S: Subscriber<T>>(
    before: GroupState<S>,
    argument: T,
    result: Result<(), GroupError>,
    after: GroupState<S>,
) -> bool {
    if before.notifying {
        result == Err::<(), GroupError>(GroupError::ReentrantAccess) && after == before
    } else {
        &&& result == Ok::<(), GroupError>(())
        &&& after.last_id == before.last_id
        &&& after.max_id == before.max_id
        &&& !after.notifying
        &&& after.subscribers.dom() == before.subscribers.dom()
        &&& forall|id: usize|
            #![trigger before.has_id(id)]
            #![trigger after.subscribers[id]]
            before.has_id(id) ==> told_of(before, argument, after.subscribers, id)
    }
}

/// What ending the subscription `id` does to a group in state `before`:
/// refused during a notification, else the subscriber registered under `id`
/// leaves, if there is one.
pub open spec fn deregistered<S>(
    before: GroupState<S>,
    id: usize,
    result: Result<(), GroupError>,
    after: GroupState<S>,
) -> bool {
    if before.notifying {
        result == Err::<(), GroupError>(GroupError::ReentrantAccess) && after == before
    } else {
        result == Ok::<(), GroupError>(()) && after == (GroupState {
            subscribers: before.subscribers.remove(id),
            ..before
        })
    }
}

/// The identifier that a registration gets is inside the identifier space and
/// not in use, so a group never gives out a colliding identifier, and none at
/// all once every identifier is in use.
pub proof fn lemma_next_id_is_free<S>(group: GroupState<S>, id: usize)
    requires
        group.wf(),
        group.is_next_id(id),
    ensures
        id <= group.max_id,
        !group.has_id(id),
        !group.exhausted(),
{
}

/// There is at most one next identifier: which one a registration gets is
/// fixed by the identifiers in use and the one given out last.
pub proof fn lemma_next_id_is_unique<S>(group: GroupState<S>, a: usize, b: usize)
    requires
        group.wf(),
        group.is_next_id(a),
        group.is_next_id(b),
    ensures
        a == b,
{
    let steps_a = choose|steps: int|
        1 <= steps <= group.max_id + 1 && a == #[trigger] group.probe(steps) && !group.has_id(a)
            && forall|k: int| 1 <= k < steps ==> group.has_id(#[trigger] group.probe(k) as usize);
    let steps_b = choose|steps: int|
        1 <= steps <= group.max_id + 1 && b == #[trigger] group.probe(steps) && !group.has_id(b)
            && forall|k: int| 1 <= k < steps ==> group.has_id(#[trigger] group.probe(k) as usize);
    if steps_a < steps_b {
        assert(group.has_id(group.probe(steps_a) as usize));
    } else if steps_b < steps_a {
        assert(group.has_id(group.probe(steps_b) as usize));
    }
}

/// Where the identifier that follows the one given out last is free, it is
/// the next identifier.
pub proof fn lemma_free_successor_is_next<S>(group: GroupState<S>, id: usize)
    requires
        group.wf(),
        !group.has_id(group.probe(1) as usize),
    ensures
        group.is_next_id(id) <==> id == group.probe(1),
{
    let successor = group.probe(1) as usize;
    assert(group.is_next_id(successor));
    if group.is_next_id(id) {
        lemma_next_id_is_unique(group, id, successor);
    }
}

/// A registration is refused for want of an identifier exactly when every
/// identifier is in use.
pub proof fn lemma_registration_fails_only_when_exhausted<S>(
    before: GroupState<S>,
    result: Result<usize, GroupError>,
    after: GroupState<S>,
)
    requires
        before.wf(),
        !before.notifying,
        next_id_taken(before, result, after),
    ensures
        before.exhausted() <==> result == Err::<usize, GroupError>(
            GroupError::IdentifierSpaceExhausted,
        ),
        !before.exhausted() <==> result is Ok,
{
    if let Ok(id) = result {
        lemma_next_id_is_free(before, id);
    }
}

/// A notification keeps every subscription under its identifier, and leaves
/// a well-formed group well-formed.
pub proof fn lemma_notification_keeps_subscriptions<T, S: Subscriber<T>>(
    before: GroupState<S>,
    argument: T,
    result: Result<(), GroupError>,
    after: GroupState<S>,
    id: usize,
)
    requires
        notified(before, argument, result, after),
    ensures
        after.has_id(id) == before.has_id(id),
        before.wf() ==> after.wf(),
{
    if !before.notifying && before.wf() {
        assert forall|other: usize| #[trigger] after.subscribers.contains_key(other) implies other
            <= after.max_id by {
            assert(before.subscribers.contains_key(other));
        }
    }
}

/// Once a subscription is ended, no subscriber is registered under its
/// identifier: a later notification does not reach it. Every other
/// subscription stays, and the group stays well-formed.
pub proof fn lemma_deregistered_subscriber_is_gone<S>(
    before: GroupState<S>,
    id: usize,
    result: Result<(), GroupError>,
    after: GroupState<S>,
    other: usize,
)
    requires
        before.wf(),
        !before.notifying,
        deregistered(before, id, result, after),
    ensures
        result == Ok::<(), GroupError>(()),
        !after.has_id(id),
        other != id ==> after.has_id(other) == before.has_id(other),
        other != id && before.has_id(other) ==> after.subscribers[other]
            == before.subscribers[other],
        after.wf(),
{
    assert forall|kept: usize| #[trigger] after.subscribers.contains_key(kept) implies kept
        <= after.max_id by {
        assert(before.subscribers.contains_key(kept));
    }
}

/// Ending a subscription leaves a well-formed group well-formed.
proof fn lemma_deregistered_keeps_well_formed<S>(before: GroupState<S>, id: usize)
    requires
        before.wf(),
        !before.notifying,
    ensures
        forall|result: Result<(), GroupError>, after: GroupState<S>|
            #[trigger] deregistered(before, id, result, after) ==> after.wf(),
{
    assert forall|result: Result<(), GroupError>, after: GroupState<S>| #[trigger]
        deregistered(before, id, result, after) implies after.wf() by {
        lemma_deregistered_subscriber_is_gone(before, id, result, after, id);
    }
}

/// Ending a subscription a second time is no error and changes nothing.
pub proof fn lemma_second_deregistration_is_a_no_op<S>(
    before: GroupState<S>,
    id: usize,
    first: Result<(), GroupError>,
    between: GroupState<S>,
    second: Result<(), GroupError>,
    after: GroupState<S>,
)
    requires
        before.wf(),
        !before.notifying,
        deregistered(before, id, first, between),
        deregistered(between, id, second, after),
    ensures
        second == Ok::<(), GroupError>(()),
        after == between,
{
    lemma_deregistered_subscriber_is_gone(before, id, first, between, id);
    assert(between.subscribers.remove(id) =~= between.subscribers);
}

/// During a notification the group that the subscribers are handed refuses
/// registration, notification and deregistration, and stays as it is.
pub proof fn lemma_busy_group_refuses<T, S: Subscriber<T>>(
    group: GroupState<S>,
    id: usize,
    argument: T,
    taken: Result<usize, GroupError>,
    after_taking: GroupState<S>,
    told: Result<(), GroupError>,
    after_telling: GroupState<S>,
    ended: Result<(), GroupError>,
    after_ending: GroupState<S>,
)
    requires
        next_id_taken(group.busy(), taken, after_taking),
        notified(group.busy(), argument, told, after_telling),
        deregistered(group.busy(), id, ended, after_ending),
    ensures
        taken == Err::<usize, GroupError>(GroupError::ReentrantAccess),
        told == Err::<(), GroupError>(GroupError::ReentrantAccess),
        ended == Err::<(), GroupError>(GroupError::ReentrantAccess),
        after_taking == group.busy(),
        after_telling == group.busy(),
        after_ending == group.busy(),
{
}

/// A set of subscribers that are notified together.
///
/// Each subscription has an identifier that no other subscription of the
/// group has at the same time. Identifiers are given out in rising order,
/// starting over at zero after the largest, and skipping those in use.
pub struct Group<T, S> {
    subscribers: HashMap<usize, S>,
    last_id: usize,
    max_id: usize,
    notifying: bool,
    value: PhantomData<T>,
}

impl<T, S> View for Group<T, S> {
    type V = GroupState<S>;

    closed spec fn view(&self) -> GroupState<S> {
        GroupState {
            subscribers: self.subscribers@,
            last_id: if self.last_id <= self.max_id {
                self.last_id
            } else {
                0
            },
            max_id: self.max_id,
            notifying: self.notifying,
        }
    }
}

/// The identifiers in use in `subscribers`, each once, in no particular order.
fn identifiers<S>(subscribers: &HashMap<usize, S>) -> (ids: Vec<usize>)
    ensures
        ids@.to_set() == subscribers@.dom(),
        ids@.no_duplicates(),
{
    broadcast use vstd::std_specs::hash::group_hash_axioms;

    let mut ids: Vec<usize> = Vec::new();
    for id in ahead: subscribers.keys()
        invariant
            ids@ == ahead.seq().take(ahead.index() as int).unref(),
            ahead.seq() == vstd::std_specs::hash::spec_keys_iter(subscribers).remaining(),
    {
        ids.push(*id);
    }
    assert(ids@ == vstd::std_specs::hash::spec_keys_iter(subscribers).remaining().unref());
    ids
}

impl<T, S: Subscriber<T>> Group<T, S> {
    /// An empty group with every `usize` as an identifier.
    pub fn new() -> (group: Self)
        ensures
            group@ == (GroupState::<S> {
                subscribers: Map::empty(),
                last_id: 0,
                max_id: usize::MAX,
                notifying: false,
            }),
            group@.wf(),
    {
        Self::with_max_id(usize::MAX)
    }

    /// An empty group with the identifiers `0..=max_id`.
    pub fn with_max_id(max_id: usize) -> (group: Self)
        ensures
            group@ == (GroupState::<S> {
                subscribers: Map::empty(),
                last_id: 0,
                max_id,
                notifying: false,
            }),
            group@.wf(),
    {
        Self {
            subscribers: HashMap::new(),
            last_id: 0,
            max_id,
            notifying: false,
            value: PhantomData,
        }
    }

    /// The identifier that was given out last.
    fn last(&self) -> (id: usize)
        ensures
            id == self@.last_id,
            id <= self@.max_id,
    {
        if self.last_id <= self.max_id {
            self.last_id
        } else {
            0
        }
    }

    /// Whether a subscriber is registered under `id`.
    fn contains_id(&self, id: usize) -> (result: bool)
        ensures
            result == self@.has_id(id),
    {
        broadcast use vstd::std_specs::hash::group_hash_axioms;

        self.subscribers.contains_key(&id)
    }

    /// Moves on to the first free identifier after the one given out last,
    /// and returns it.
    pub fn get_next_id(&mut self) -> (result: Result<usize, GroupError>)
        ensures
            next_id_taken(old(self)@, result, final(self)@),
            old(self)@.wf() ==> final(self)@.wf(),
    {
        if self.notifying {
            return Err(GroupError::ReentrantAccess);
        }
        let start = self.last();
        let mut candidate = start;
        let ghost state = self@;
        let ghost mut steps: int = 0;
        loop
            invariant
                self@ == state,
                state == old(self)@,
                state.last_id <= state.max_id,
                !state.notifying,
                start == state.last_id,
                0 <= steps <= state.max_id,
                candidate == state.probe(steps),
                forall|k: int| 1 <= k <= steps ==> state.has_id(#[trigger] state.probe(k) as usize),
            decreases state.max_id - steps,
        {
            candidate = if candidate >= self.max_id {
                0
            } else {
                candidate + 1
            };
            proof {
                steps = steps + 1;
            }
            assert(candidate == state.probe(steps));
            if !self.contains_id(candidate) {
                self.last_id = candidate;
                return Ok(candidate);
            }
            if candidate == start {
                proof {
                    assert(steps == state.max_id + 1);
                    assert forall|id: usize| id <= state.max_id implies #[trigger] state.has_id(
                        id,
                    ) by {
                        let k: int = if id > start {
                            id - start
                        } else {
                            id - start + state.max_id + 1
                        };
                        assert(state.probe(k) == id);
                    }
                }
                return Err(GroupError::IdentifierSpaceExhausted);
            }
        }
    }

    /// Adds `callback` as a subscriber under the next free identifier. The
    /// token that is returned stands for the subscription.
    pub fn register(&mut self, callback: S) -> (result: Result<GroupToken<T>, GroupError>)
        ensures
            match result {
                Err(error) => next_id_taken(
                    old(self)@,
                    Err::<usize, GroupError>(error),
                    final(self)@,
                ),
                Ok(token) => !old(self)@.notifying && !token@.spent && old(self)@.is_next_id(
                    token@.id,
                ) && final(self)@ == (GroupState {
                    subscribers: old(self)@.subscribers.insert(token@.id, callback),
                    last_id: token@.id,
                    ..old(self)@
                }),
            },
            old(self)@.wf() ==> final(self)@.wf(),
    {
        broadcast use vstd::std_specs::hash::group_hash_axioms;

        match self.get_next_id() {
            Err(error) => Err(error),
            Ok(id) => {
                proof {
                    if old(self)@.wf() {
                        lemma_next_id_is_free(old(self)@, id);
                    }
                }
                self.subscribers.insert(id, callback);
                Ok(GroupToken::new(id))
            },
        }
    }

    /// Ends the subscription `id`, if there is one.
    fn remove(&mut self, id: usize) -> (result: Result<(), GroupError>)
        ensures
            deregistered(old(self)@, id, result, final(self)@),
            old(self)@.wf() ==> final(self)@.wf(),
    {
        broadcast use vstd::std_specs::hash::group_hash_axioms;

        if self.notifying {
            return Err(GroupError::ReentrantAccess);
        }
        proof {
            if old(self)@.wf() {
                lemma_deregistered_keeps_well_formed(old(self)@, id);
            }
        }
        self.subscribers.remove(&id);
        Ok(())
    }

    /// Notifies every subscriber of `argument`, each once, in no particular
    /// order.
    pub fn notify(&mut self, argument: T) -> (result: Result<(), GroupError>)
        ensures
            notified(old(self)@, argument, result, final(self)@),
            old(self)@.wf() ==> final(self)@.wf(),
    {
        broadcast use vstd::std_specs::hash::group_hash_axioms;

        if self.notifying {
            return Err(GroupError::ReentrantAccess);
        }
        let ghost before = self@;
        let last_id = self.last();
        let max_id = self.max_id;
        let mut subscribers = HashMap::new();
        core::mem::swap(&mut self.subscribers, &mut subscribers);
        let ids = identifiers(&subscribers);
        let mut i: usize = 0;
        while i < ids.len()
            invariant
                before == old(self)@,
                !before.notifying,
                last_id == before.last_id,
                max_id == before.max_id,
                0 <= i <= ids@.len(),
                ids@.to_set() == before.subscribers.dom(),
                ids@.no_duplicates(),
                subscribers@.dom() == before.subscribers.dom(),
                forall|j: int|
                    0 <= j < i ==> told_of(before, argument, subscribers@, #[trigger] ids@[j]),
                forall|j: int|
                    i <= j < ids@.len() ==> subscribers@[#[trigger] ids@[j]]
                        == before.subscribers[ids@[j]],
            decreases ids@.len() - i,
        {
            self.subscribers = HashMap::new();
            self.last_id = last_id;
            self.max_id = max_id;
            self.notifying = true;
            let id = ids[i];
            let ghost prior = subscribers@;
            assert(ids@.to_set().contains(ids@[i as int]));
            assert(prior[id] == before.subscribers[id]);
            match subscribers.remove(&id) {
                Some(subscriber) => {
                    let mut subscriber = subscriber;
                    assert(subscriber == before.subscribers[id]);
                    subscriber.notify(self, &argument);
                    let ghost told = subscriber;
                    let ghost left = self@;
                    subscribers.insert(id, subscriber);
                    assert(subscribers@[id] == told);
                    assert(before.subscribers[id].notified(
                        before.busy(),
                        argument,
                        subscribers@[id],
                        left,
                    ));
                },
                None => {
                    assert(prior.contains_key(id));
                },
            }
            assert(subscribers@.dom() =~= before.subscribers.dom());
            assert forall|j: int| 0 <= j <= i implies told_of(
                before,
                argument,
                subscribers@,
                #[trigger] ids@[j],
            ) by {
                if j < i {
                    assert(ids@[j] != ids@[i as int]);
                    assert(subscribers@[ids@[j]] == prior[ids@[j]]);
                    assert(told_of(before, argument, prior, ids@[j]));
                }
            }
            assert forall|j: int| i < j < ids@.len() implies subscribers@[#[trigger] ids@[j]]
                == before.subscribers[ids@[j]] by {
                assert(ids@[j] != ids@[i as int]);
                assert(subscribers@[ids@[j]] == prior[ids@[j]]);
            }
            i += 1;
        }
        let ghost done = subscribers@;
        self.subscribers = subscribers;
        self.last_id = last_id;
        self.max_id = max_id;
        self.notifying = false;
        let ghost after = self@;
        assert forall|id: usize| #[trigger] before.has_id(id) implies told_of(
            before,
            argument,
            after.subscribers,
            id,
        ) by {
            assert(ids@.to_set().contains(id));
            let j = choose|j: int| 0 <= j < ids@.len() && ids@[j] == id;
            assert(told_of(before, argument, done, ids@[j]));
        }
        proof {
            let result = Ok::<(), GroupError>(());
            assert(notified(before, argument, result, after));
            lemma_notification_keeps_subscriptions(before, argument, result, after, 0);
        }
        Ok(())
    }
}

/// What a token holds: the identifier of its subscription, and whether it
/// is spent. A spent token stands for no subscription any more.
pub struct TokenState {
    pub id: usize,
    pub spent: bool,
}

/// What ending a subscription through a token in state `token` does to a
/// group in state `before`: nothing if the token is spent, else the
/// subscription under the token's identifier ends, and the token is spent
/// unless the group refused.
pub open spec fn token_deregistered<S>(
    token: TokenState,
    before: GroupState<S>,
    result: Result<(), GroupError>,
    token_after: TokenState,
    after: GroupState<S>,
) -> bool {
    if token.spent {
        result == Ok::<(), GroupError>(()) && after == before && token_after == token
    } else {
        deregistered(before, token.id, result, after) && token_after == (TokenState {
            spent: result is Ok,
            ..token
        })
    }
}

/// The handle of one subscription of a [`Group`].
///
/// A token cannot be copied, and it is spent once its subscription has ended
/// through it: what it does after that changes no group, even if the
/// identifier has gone to another subscriber since.
pub struct GroupToken<T> {
    id: usize,
    spent: bool,
    value: PhantomData<T>,
}

impl<T> View for GroupToken<T> {
    type V = TokenState;

    closed spec fn view(&self) -> TokenState {
        TokenState { id: self.id, spent: self.spent }
    }
}

impl<T> GroupToken<T> {
    fn new(id: usize) -> (token: Self)
        ensures
            token@ == (TokenState { id, spent: false }),
    {
        Self { id, spent: false, value: PhantomData }
    }

    /// The identifier of the subscription.
    pub fn id(&self) -> (id: usize)
        ensures
            id == self@.id,
    {
        self.id
    }

    /// Ends the subscription in `group` and keeps the token, which is spent
    /// from then on. Doing so a second time changes nothing.
    pub fn deregister_internal<S: Subscriber<T>>(&mut self, group: &mut Group<T, S>) -> (result:
        Result<(), GroupError>)
        ensures
            token_deregistered(old(self)@, old(group)@, result, final(self)@, final(group)@),
            old(group)@.wf() ==> final(group)@.wf(),
    {
        if self.spent {
            return Ok(());
        }
        let result = group.remove(self.id);
        if result.is_ok() {
            self.spent = true;
        }
        result
    }

    /// Ends the subscription in `group` and gives the token up.
    pub fn deregister<S: Subscriber<T>>(self, group: &mut Group<T, S>) -> (result: Result<
        (),
        GroupError,
    >)
        ensures
            self@.spent ==> result == Ok::<(), GroupError>(()) && final(group)@ == old(group)@,
            !self@.spent ==> deregistered(old(group)@, self@.id, result, final(group)@),
            old(group)@.wf() ==> final(group)@.wf(),
    {
        let mut token = self;
        token.deregister_internal(group)
    }

    /// Notifies the subscribers of `group`, as [`Group::notify`] does.
    pub fn notify<S: Subscriber<T>>(&self, group: &mut Group<T, S>, argument: T) -> (result:
        Result<(), GroupError>)
        ensures
            notified(old(group)@, argument, result, final(group)@),
            old(group)@.wf() ==> final(group)@.wf(),
    {
        group.notify(argument)
    }

    /// Gives the token up and leaves the subscription in place: it stays in
    /// its group until the group goes.
    pub fn forget(self) {
    }
}

/// Ending a subscription through its token a second time is no error and
/// changes nothing, whatever was registered in between.
pub proof fn lemma_spent_token_changes_nothing<S>(
    token: TokenState,
    before: GroupState<S>,
    first: Result<(), GroupError>,
    token_between: TokenState,
    between: GroupState<S>,
    later: GroupState<S>,
    second: Result<(), GroupError>,
    token_after: TokenState,
    after: GroupState<S>,
)
    requires
        first is Ok,
        token_deregistered(token, before, first, token_between, between),
        token_deregistered(token_between, later, second, token_after, after),
    ensures
        second == Ok::<(), GroupError>(()),
        after == later,
        token_after.spent,
{
}

} // verus!
