//! Who is told about what. A broadcaster keeps the channels of the clients
//! that are listening; it decides which of them an event goes to and which
//! of them are dropped after a round of pings. Sending itself is left to the
//! caller, so the channel type is a parameter.

use crate::error::BambooError;
use crate::event::Model as Event;
use vstd::prelude::*;

verus! {

/// How many seconds pass between two rounds of pings.
pub const PING_INTERVAL_SECONDS: u64 = 10;

/// After how many seconds without an event a keep-alive is sent to a client
/// that follows the events.
pub const KEEP_ALIVE_SECONDS: u64 = 60;

/// How many messages may wait in the channel of one client.
pub const CHANNEL_CAPACITY: usize = 10;

/// What the broadcaster knows of the user behind a channel.
#[derive(Clone, Copy, Debug, PartialEq, Eq, Structural)]
pub struct Recipient {
    pub user_id: i32,
    pub grove_id: i32,
}

/// What happened to an event that clients are told about.
#[derive(Clone, Copy, Debug, PartialEq, Eq, Structural)]
pub enum EventAction {
    Created,
    Updated,
    Deleted,
}

/// Where the change of an event stands: what is asked of the database next,
/// or how the change ended.
#[derive(Debug, PartialEq, Eq)]
pub enum EventChange {
    /// Store the event that was sent as a new one.
    Insert,
    /// Write what was sent over the stored event.
    Update,
    /// Load the event as it is stored after the update.
    Reload,
    /// Load the event that is to be removed.
    Find,
    /// Remove this event.
    Remove(Event),
    /// Nothing more is asked. Where the change was made, the clients are
    /// told this about this event.
    Done(Result<(EventAction, Event), BambooError>),
}

/// What the database answered to a step of the change of an event.
#[derive(Debug, PartialEq, Eq)]
pub enum EventAnswer {
    Inserted(Result<Event, BambooError>),
    Updated(Result<(), BambooError>),
    Loaded(Result<Event, BambooError>),
    Removed(Result<(), BambooError>),
}

/// The next step of the change of an event. A new event begins with
/// `Insert` and is announced as created, as the database stored it. An
/// update begins with `Update`; the event is then loaded again and
/// announced as updated, as it is stored now. A removal begins with `Find`;
/// the event is loaded, removed, and announced as deleted, as it was. An
/// error ends the change at once, and then nothing is announced. An answer
/// to what was not asked changes nothing.
pub fn change_event(state: EventChange, answer: EventAnswer) -> (next: EventChange)
    ensures
        match (state, answer) {
            (EventChange::Insert, EventAnswer::Inserted(Ok(event))) => next == EventChange::Done(
                Ok((EventAction::Created, event)),
            ),
            (EventChange::Insert, EventAnswer::Inserted(Err(error))) => next == EventChange::Done(
                Err(error),
            ),
            (EventChange::Update, EventAnswer::Updated(Ok(_))) => next == EventChange::Reload,
            (EventChange::Update, EventAnswer::Updated(Err(error))) => next == EventChange::Done(
                Err(error),
            ),
            (EventChange::Reload, EventAnswer::Loaded(Ok(event))) => next == EventChange::Done(
                Ok((EventAction::Updated, event)),
            ),
            (EventChange::Reload, EventAnswer::Loaded(Err(error))) => next == EventChange::Done(
                Err(error),
            ),
            (EventChange::Find, EventAnswer::Loaded(Ok(event))) => next == EventChange::Remove(event),
            (EventChange::Find, EventAnswer::Loaded(Err(error))) => next == EventChange::Done(
                Err(error),
            ),
            (EventChange::Remove(event), EventAnswer::Removed(Ok(_))) => next == EventChange::Done(
                Ok((EventAction::Deleted, event)),
            ),
            (EventChange::Remove(_), EventAnswer::Removed(Err(error))) => next == EventChange::Done(
                Err(error),
            ),
            _ => next == state,
        },
{
    match (state, answer) {
        (EventChange::Insert, EventAnswer::Inserted(inserted)) => match inserted {
            Ok(event) => EventChange::Done(Ok((EventAction::Created, event))),
            Err(error) => EventChange::Done(Err(error)),
        },
        (EventChange::Update, EventAnswer::Updated(updated)) => match updated {
            Ok(_) => EventChange::Reload,
            Err(error) => EventChange::Done(Err(error)),
        },
        (EventChange::Reload, EventAnswer::Loaded(loaded)) => match loaded {
            Ok(event) => EventChange::Done(Ok((EventAction::Updated, event))),
            Err(error) => EventChange::Done(Err(error)),
        },
        (EventChange::Find, EventAnswer::Loaded(loaded)) => match loaded {
            Ok(event) => EventChange::Remove(event),
            Err(error) => EventChange::Done(Err(error)),
        },
        (EventChange::Remove(event), EventAnswer::Removed(removed)) => match removed {
            Ok(_) => EventChange::Done(Ok((EventAction::Deleted, event))),
            Err(error) => EventChange::Done(Err(error)),
        },
        (state, _) => state,
    }
}

/// A private event reaches its owner only; any other event reaches every
/// user of its grove.
pub open spec fn reaches(event: Event, user: Recipient) -> bool {
    ||| event.is_private && event.user_id == Some(user.user_id)
    ||| !event.is_private && event.grove_id == user.grove_id
}

/// Whether the ping to the client at `index` failed. A client beyond the
/// answers was not pinged, so its ping did not fail.
pub open spec fn ping_failed(alive: Seq<bool>, index: int) -> bool {
    0 <= index < alive.len() && !alive[index]
}

/// The clients that stay after a round of pings: all but those whose ping
/// failed, in the order they had.
pub open spec fn responsive<T>(clients: Seq<T>, alive: Seq<bool>) -> Seq<T>
    decreases clients.len(),
{
    if clients.len() == 0 {
        Seq::empty()
    } else {
        let earlier = responsive(clients.drop_last(), alive);
        if ping_failed(alive, clients.len() - 1) {
            earlier
        } else {
            earlier.push(clients.last())
        }
    }
}

/// How many of the clients were pinged, where the answers are `alive`.
pub open spec fn pinged(clients: int, alive: Seq<bool>) -> int {
    if alive.len() <= clients {
        alive.len() as int
    } else {
        clients
    }
}

/// The channels an event goes to: those of the users it reaches, in the
/// order they subscribed.
pub open spec fn audience<T>(clients: Seq<(T, Recipient)>, event: Event) -> Seq<T>
    decreases clients.len(),
{
    if clients.len() == 0 {
        Seq::empty()
    } else {
        let earlier = audience(clients.drop_last(), event);
        if reaches(event, clients.last().1) {
            earlier.push(clients.last().0)
        } else {
            earlier
        }
    }
}

/// Whether `event` is sent to `user`.
pub fn is_sent_to(event: &Event, user: &Recipient) -> (sent: bool)
    ensures
        sent == reaches(*event, *user),
{
    let is_private_event_of_user = event.is_private && match event.user_id {
        Some(owner) => owner == user.user_id,
        None => false,
    };
    let is_in_same_grove = !event.is_private && event.grove_id == user.grove_id;
    is_private_event_of_user || is_in_same_grove
}

/// Keeps of `clients` all but those whose ping failed.
pub fn keep_responsive<T>(clients: Vec<T>, alive: &Vec<bool>) -> (kept: Vec<T>)
    ensures
        kept@ == responsive(clients@, alive@),
{
    let ghost all = clients@;
    let count = clients.len();
    let mut kept: Vec<T> = Vec::new();
    let mut index: usize = 0;
    for client in it: clients
        invariant
            it.seq() == all,
            all.len() == count,
            index == it.index(),
            kept@ == responsive(all.subrange(0, index as int), alive@),
    {
        proof {
            let seen = all.subrange(0, index + 1);
            assert(seen.drop_last() =~= all.subrange(0, index as int));
            assert(seen.last() == client);
        }
        if index >= alive.len() || alive[index] {
            kept.push(client);
        }
        index = index + 1;
    }
    proof {
        assert(all.subrange(0, index as int) =~= all);
    }
    kept
}

/// The channels of `clients` that `event` goes to.
pub fn select_audience<'a, T>(clients: &'a Vec<(T, Recipient)>, event: &Event) -> (chosen: Vec<&'a T>)
    ensures
        chosen@.map_values(|client: &T| *client) == audience(clients@, *event),
{
    let mut chosen: Vec<&'a T> = Vec::new();
    let mut index: usize = 0;
    while index < clients.len()
        invariant
            index <= clients.len(),
            chosen@.map_values(|client: &T| *client) == audience(
                clients@.subrange(0, index as int),
                *event,
            ),
        decreases clients.len() - index,
    {
        let ghost before = chosen@;
        proof {
            let seen = clients@.subrange(0, index + 1);
            assert(seen.drop_last() =~= clients@.subrange(0, index as int));
            assert(seen.last() == clients@[index as int]);
        }
        if is_sent_to(event, &clients[index].1) {
            chosen.push(&clients[index].0);
            proof {
                assert(chosen@.map_values(|client: &T| *client) =~= before.map_values(
                    |client: &T| *client,
                ).push(clients@[index as int].0));
            }
        }
        index = index + 1;
    }
    proof {
        assert(clients@.subrange(0, index as int) =~= clients@);
    }
    chosen
}

/// The clients that follow the events of the groves, each with the user it
/// belongs to, in the order they subscribed.
pub struct EventBroadcaster<T> {
    clients: Vec<(T, Recipient)>,
}

impl<T> View for EventBroadcaster<T> {
    type V = Seq<(T, Recipient)>;

    closed spec fn view(&self) -> Seq<(T, Recipient)> {
        self.clients@
    }
}

impl<T> EventBroadcaster<T> {
    /// A broadcaster nobody listens to yet.
    pub fn create() -> (broadcaster: Self)
        ensures
            broadcaster@ == Seq::<(T, Recipient)>::empty(),
    {
        EventBroadcaster { clients: Vec::new() }
    }

    /// Adds the channel of `user` behind everyone who is already listening.
    pub fn new_client(&mut self, client: T, user: Recipient)
        ensures
            final(self)@ == old(self)@.push((client, user)),
    {
        self.clients.push((client, user));
    }

    /// The clients, for a round of pings: one answer is expected for each,
    /// in this order.
    pub fn clients(&self) -> (clients: &Vec<(T, Recipient)>)
        ensures
            clients@ == self@,
    {
        &self.clients
    }

    /// Ends a round of pings: `alive` holds, for the clients that were
    /// pinged and in their order, whether the ping was answered. A client
    /// whose ping failed is dropped. Everyone else stays: those that
    /// answered, and those that subscribed while the pings were under way
    /// and so stand behind the ones that were pinged.
    pub fn remove_stale_clients(&mut self, alive: &Vec<bool>)
        ensures
            final(self)@ == responsive(old(self)@, alive@),
            final(self)@ == responsive(
                old(self)@.subrange(0, pinged(old(self)@.len() as int, alive@)),
                alive@,
            ) + old(self)@.subrange(
                pinged(old(self)@.len() as int, alive@),
                old(self)@.len() as int,
            ),
    {
        proof {
            lemma_late_clients_stay(self@, alive@);
        }
        let mut pinged: Vec<(T, Recipient)> = Vec::new();
        std::mem::swap(&mut self.clients, &mut pinged);
        self.clients = keep_responsive(pinged, alive);
    }

    /// The channels `event` is to be sent on.
    pub fn send_event(&self, event: &Event) -> (chosen: Vec<&T>)
        ensures
            chosen@.map_values(|client: &T| *client) == audience(self@, *event),
    {
        select_audience(&self.clients, event)
    }

    /// A new event: what to announce, and on which channels.
    pub fn notify_create(&self, event: &Event) -> (notice: (EventAction, Vec<&T>))
        ensures
            notice.0 == EventAction::Created,
            notice.1@.map_values(|client: &T| *client) == audience(self@, *event),
    {
        (EventAction::Created, self.send_event(event))
    }

    /// A changed event: what to announce, and on which channels.
    pub fn notify_update(&self, event: &Event) -> (notice: (EventAction, Vec<&T>))
        ensures
            notice.0 == EventAction::Updated,
            notice.1@.map_values(|client: &T| *client) == audience(self@, *event),
    {
        (EventAction::Updated, self.send_event(event))
    }

    /// A removed event: what to announce, and on which channels.
    pub fn notify_delete(&self, event: &Event) -> (notice: (EventAction, Vec<&T>))
        ensures
            notice.0 == EventAction::Deleted,
            notice.1@.map_values(|client: &T| *client) == audience(self@, *event),
    {
        (EventAction::Deleted, self.send_event(event))
    }
}

/// The clients that follow the shared calendar, in the order they
/// subscribed. Every change of the calendar goes to all of them.
pub struct CalendarBroadcaster<T> {
    clients: Vec<T>,
}

impl<T> View for CalendarBroadcaster<T> {
    type V = Seq<T>;

    closed spec fn view(&self) -> Seq<T> {
        self.clients@
    }
}

impl<T> CalendarBroadcaster<T> {
    /// A broadcaster nobody listens to yet.
    pub fn create() -> (broadcaster: Self)
        ensures
            broadcaster@ == Seq::<T>::empty(),
    {
        CalendarBroadcaster { clients: Vec::new() }
    }

    /// Adds a channel behind everyone who is already listening.
    pub fn new_client(&mut self, client: T)
        ensures
            final(self)@ == old(self)@.push(client),
    {
        self.clients.push(client);
    }

    /// The clients, for a round of pings: one answer is expected for each,
    /// in this order.
    pub fn clients(&self) -> (clients: &Vec<T>)
        ensures
            clients@ == self@,
    {
        &self.clients
    }

    /// Ends a round of pings: `alive` holds, for the clients that were
    /// pinged and in their order, whether the ping was answered. A client
    /// whose ping failed is dropped. Everyone else stays: those that
    /// answered, and those that subscribed while the pings were under way
    /// and so stand behind the ones that were pinged.
    pub fn remove_stale_clients(&mut self, alive: &Vec<bool>)
        ensures
            final(self)@ == responsive(old(self)@, alive@),
            final(self)@ == responsive(
                old(self)@.subrange(0, pinged(old(self)@.len() as int, alive@)),
                alive@,
            ) + old(self)@.subrange(
                pinged(old(self)@.len() as int, alive@),
                old(self)@.len() as int,
            ),
    {
        proof {
            lemma_late_clients_stay(self@, alive@);
        }
        let mut pinged: Vec<T> = Vec::new();
        std::mem::swap(&mut self.clients, &mut pinged);
        self.clients = keep_responsive(pinged, alive);
    }

    /// The channels a change of the calendar is announced on: all of them.
    pub fn notify_change(&self) -> (clients: &Vec<T>)
        ensures
            clients@ == self@,
    {
        &self.clients
    }
}

/// A private event stays with its owner, in whatever grove the owner is
/// listening; any other event stays within its grove.
pub proof fn lemma_events_stay_where_they_belong(event: Event, user: Recipient)
    ensures
        event.is_private ==> (reaches(event, user) <==> event.user_id == Some(user.user_id)),
        !event.is_private ==> (reaches(event, user) <==> event.grove_id == user.grove_id),
{
}

/// Whether `channel` is the channel of a client whose user `event` reaches.
pub open spec fn is_reached<T>(clients: Seq<(T, Recipient)>, event: Event, channel: T) -> bool {
    exists|i: int|
        0 <= i < clients.len() && reaches(event, (#[trigger] clients[i]).1) && clients[i].0
            == channel
}

/// An event goes to the channels of exactly those clients whose user it
/// reaches: to each of them, and to nobody else.
pub proof fn lemma_audience_is_who_is_reached<T>(clients: Seq<(T, Recipient)>, event: Event)
    ensures
        audience(clients, event).len() <= clients.len(),
        forall|i: int|
            0 <= i < clients.len() && reaches(event, (#[trigger] clients[i]).1) ==> audience(
                clients,
                event,
            ).contains(clients[i].0),
        forall|j: int|
            0 <= j < audience(clients, event).len() ==> is_reached(
                clients,
                event,
                #[trigger] audience(clients, event)[j],
            ),
    decreases clients.len(),
{
    let chosen = audience(clients, event);
    if clients.len() > 0 {
        let before = clients.drop_last();
        let earlier = audience(before, event);
        let last = clients.len() - 1;
        lemma_audience_is_who_is_reached(before, event);
        assert forall|i: int|
            0 <= i < clients.len() && reaches(event, (#[trigger] clients[i]).1) implies chosen.contains(
            clients[i].0,
        ) by {
            if i < last {
                assert(before[i] == clients[i]);
                let j = choose|j: int| 0 <= j < earlier.len() && earlier[j] == before[i].0;
                assert(chosen[j] == clients[i].0);
            } else {
                assert(chosen[earlier.len() as int] == clients[i].0);
            }
        }
        assert forall|j: int| 0 <= j < chosen.len() implies is_reached(
            clients,
            event,
            #[trigger] chosen[j],
        ) by {
            if j < earlier.len() {
                assert(chosen[j] == earlier[j]);
                assert(is_reached(before, event, earlier[j]));
                let i = choose|i: int|
                    0 <= i < before.len() && reaches(event, (#[trigger] before[i]).1) && before[i].0
                        == earlier[j];
                assert(before[i] == clients[i]);
            } else {
                assert(reaches(event, clients[last].1) && clients[last].0 == chosen[j]);
            }
        }
    }
}

/// Whether `client` is one of `clients` whose ping did not fail.
pub open spec fn has_not_failed<T>(clients: Seq<T>, alive: Seq<bool>, client: T) -> bool {
    exists|i: int| 0 <= i < clients.len() && !ping_failed(alive, i) && #[trigger] clients[i] == client
}

/// After a round of pings exactly those clients are gone whose ping failed:
/// every other client stays, and nobody stays who is not one of them.
pub proof fn lemma_only_failed_pings_drop<T>(clients: Seq<T>, alive: Seq<bool>)
    ensures
        responsive(clients, alive).len() <= clients.len(),
        forall|i: int|
            0 <= i < clients.len() && !ping_failed(alive, i) ==> responsive(
                clients,
                alive,
            ).contains(#[trigger] clients[i]),
        forall|j: int|
            0 <= j < responsive(clients, alive).len() ==> has_not_failed(
                clients,
                alive,
                #[trigger] responsive(clients, alive)[j],
            ),
    decreases clients.len(),
{
    let kept = responsive(clients, alive);
    if clients.len() > 0 {
        let before = clients.drop_last();
        let earlier = responsive(before, alive);
        let last = clients.len() - 1;
        lemma_only_failed_pings_drop(before, alive);
        assert forall|i: int|
            0 <= i < clients.len() && !ping_failed(alive, i) implies kept.contains(
            #[trigger] clients[i],
        ) by {
            if i < last {
                assert(before[i] == clients[i]);
                let j = choose|j: int| 0 <= j < earlier.len() && earlier[j] == before[i];
                assert(kept[j] == clients[i]);
            } else {
                assert(kept[earlier.len() as int] == clients[i]);
            }
        }
        assert forall|j: int| 0 <= j < kept.len() implies has_not_failed(
            clients,
            alive,
            #[trigger] kept[j],
        ) by {
            if j < earlier.len() {
                assert(kept[j] == earlier[j]);
                assert(has_not_failed(before, alive, earlier[j]));
                let i = choose|i: int|
                    0 <= i < before.len() && !ping_failed(alive, i) && #[trigger] before[i]
                        == earlier[j];
                assert(before[i] == clients[i]);
            } else {
                assert(clients[last] == kept[j]);
            }
        }
    }
}

/// Where no ping failed, nobody is dropped.
pub proof fn lemma_no_failure_keeps_all<T>(clients: Seq<T>, alive: Seq<bool>)
    requires
        forall|i: int| 0 <= i < clients.len() ==> !ping_failed(alive, i),
    ensures
        responsive(clients, alive) == clients,
    decreases clients.len(),
{
    if clients.len() > 0 {
        lemma_no_failure_keeps_all(clients.drop_last(), alive);
        assert(clients.drop_last().push(clients.last()) =~= clients);
    } else {
        assert(clients =~= Seq::empty());
    }
}

/// A client that subscribed while a round of pings was under way was not
/// pinged and stays: the round decides about the clients that were pinged,
/// and everyone behind them is kept as they are.
pub proof fn lemma_late_clients_stay<T>(clients: Seq<T>, alive: Seq<bool>)
    ensures
        responsive(clients, alive) == responsive(
            clients.subrange(0, pinged(clients.len() as int, alive)),
            alive,
        ) + clients.subrange(pinged(clients.len() as int, alive), clients.len() as int),
    decreases clients.len(),
{
    let count = pinged(clients.len() as int, alive);
    if alive.len() < clients.len() {
        let before = clients.drop_last();
        lemma_late_clients_stay(before, alive);
        assert(before.subrange(0, count) =~= clients.subrange(0, count));
        assert(before.subrange(count, before.len() as int).push(clients.last())
            =~= clients.subrange(count, clients.len() as int));
        assert(responsive(clients, alive) =~= responsive(clients.subrange(0, count), alive)
            + clients.subrange(count, clients.len() as int));
    } else {
        assert(clients.subrange(0, count) =~= clients);
        assert(responsive(clients, alive) =~= responsive(clients, alive) + clients.subrange(
            count,
            clients.len() as int,
        ));
    }
}

/// A client that subscribes after the pings of a round were sent, and so
/// stands behind everyone with an answer, is still there when the round
/// ends.
pub proof fn lemma_joined_during_pings_stays<T>(clients: Seq<T>, client: T, alive: Seq<bool>)
    requires
        alive.len() <= clients.len(),
    ensures
        responsive(clients.push(client), alive) == responsive(clients, alive).push(client),
{
    assert(clients.push(client).drop_last() =~= clients);
}

} // verus!
