//! Bookkeeping of unreliable world replication.
//!
//! The server counts network ticks and remembers, for every replicated
//! component of every entity, the ticks on which it last changed and was last
//! removed. Each client acknowledges the last server tick it received; the
//! server sends each client what changed since that acknowledgement.
//! Entities and components are identified by numbers.

use vstd::prelude::*;
use std::collections::HashMap;
use vstd::std_specs::iter::IteratorSpec;

verus! {

broadcast use vstd::std_specs::hash::group_hash_axioms;

/// The current network tick, on the server and on clients.
#[derive(Clone, Copy, Debug, PartialEq, Eq, Structural)]
pub struct NetworkTick(pub u32);

impl NetworkTick {
    /// The first tick: 1, so that every value recorded as 0 counts as not
    /// acknowledged.
    pub fn new() -> (t: NetworkTick)
        ensures
            t.0 == 1,
    {
        NetworkTick(1)
    }

    /// Moves to the next tick and returns it.
    pub fn advance(&mut self) -> (tick: u32)
        requires
            old(self).0 < u32::MAX,
        ensures
            tick == old(self).0 + 1,
            final(self).0 == tick,
    {
        self.0 = self.0 + 1;
        self.0
    }
}

/// The last server tick that a client received.
#[derive(Clone, Copy, Debug, PartialEq, Eq, Structural)]
pub struct ReceivedServerTick(pub u32);

impl ReceivedServerTick {
    /// Nothing received yet: tick 0.
    pub fn new() -> (t: ReceivedServerTick)
        ensures
            t.0 == 0,
    {
        ReceivedServerTick(0)
    }

    /// Picks, among messages from the server with the given ticks, the one
    /// to apply: the last of those with the highest tick, and only if that
    /// tick is newer than the last one received, which it then becomes.
    pub fn accept(&mut self, ticks: &Vec<u32>) -> (chosen: Option<usize>)
        ensures
            match chosen {
                Some(i) => {
                    &&& i < ticks@.len()
                    &&& forall|j: int| 0 <= j < ticks@.len() ==> ticks@[j] <= ticks@[i as int]
                    &&& forall|j: int| i < j < ticks@.len() ==> ticks@[j] < ticks@[i as int]
                    &&& old(self).0 < ticks@[i as int]
                    &&& final(self).0 == ticks@[i as int]
                },
                None => {
                    &&& final(self).0 == old(self).0
                    &&& forall|j: int| 0 <= j < ticks@.len() ==> ticks@[j] <= old(self).0
                },
            },
    {
        if ticks.len() == 0 {
            return None;
        }
        let mut best: usize = 0;
        let mut i: usize = 1;
        while i < ticks.len()
            invariant
                1 <= i <= ticks@.len(),
                best < i,
                forall|j: int| 0 <= j < i ==> ticks@[j] <= ticks@[best as int],
                forall|j: int| best < j < i ==> ticks@[j] < ticks@[best as int],
            decreases ticks@.len() - i,
        {
            if ticks[i] >= ticks[best] {
                best = i;
            }
            i = i + 1;
        }
        if self.0 < ticks[best] {
            self.0 = ticks[best];
            Some(best)
        } else {
            None
        }
    }
}

/// Network ticks on which a component last changed and was last removed.
#[derive(Clone, Copy, Debug, PartialEq, Eq, Structural)]
pub struct ChangeTicks {
    pub changed: u32,
    pub removed: u32,
}

impl ChangeTicks {
    /// Never changed nor removed: both ticks 0.
    pub fn new() -> (t: ChangeTicks)
        ensures
            t == (ChangeTicks { changed: 0, removed: 0 }),
    {
        ChangeTicks { changed: 0, removed: 0 }
    }
}

/// What the server tells a client about a component.
#[derive(Clone, Copy, Debug, PartialEq, Eq, Structural)]
pub enum ChangeKind {
    /// The component holds a new value, which is sent along.
    Changed,
    /// The component was removed.
    Removed,
}

/// What to send about a component with the given ticks to a client that
/// acknowledged tick `ack`: nothing if both its change and its removal came
/// before `ack`; its removal if it was removed after it last changed; its
/// value if it changed after `ack`; nothing otherwise.
pub open spec fn change_for(ticks: ChangeTicks, ack: u32) -> Option<ChangeKind> {
    if ticks.changed < ack && ticks.removed < ack {
        None
    } else if ticks.removed > ticks.changed {
        Some(ChangeKind::Removed)
    } else if ticks.changed > ack {
        Some(ChangeKind::Changed)
    } else {
        None
    }
}

/// Decides what to send about a component (see [`change_for`]).
pub fn change_to_send(ticks: ChangeTicks, ack: u32) -> (kind: Option<ChangeKind>)
    ensures
        kind == change_for(ticks, ack),
        kind == Some(ChangeKind::Removed) <==> (ticks.removed > ticks.changed && ticks.removed >= ack),
        kind == Some(ChangeKind::Changed) <==> (ticks.changed > ack && ticks.removed <= ticks.changed),
        kind is None <==> (ticks.removed <= ticks.changed && ticks.changed <= ack) || (ticks.changed < ack && ticks.removed < ack),
{
    if ticks.changed < ack && ticks.removed < ack {
        None
    } else if ticks.removed > ticks.changed {
        Some(ChangeKind::Removed)
    } else if ticks.changed > ack {
        Some(ChangeKind::Changed)
    } else {
        None
    }
}

/// A change of one component of an entity.
#[derive(Clone, Copy, Debug, PartialEq, Eq, Structural)]
pub struct Change {
    pub component: u64,
    pub kind: ChangeKind,
}

/// No component occurs twice in the entries.
pub open spec fn distinct_components(entries: Seq<(u64, ChangeTicks)>) -> bool {
    forall|i: int, j: int|
        0 <= i < entries.len() && 0 <= j < entries.len() && i != j ==> #[trigger] entries[i].0
            != #[trigger] entries[j].0
}

/// The change ticks of every replicated component of an entity, in the order
/// the components were first recorded.
#[derive(Clone, Debug)]
pub struct Replication {
    entries: Vec<(u64, ChangeTicks)>,
}

impl View for Replication {
    type V = Seq<(u64, ChangeTicks)>;

    closed spec fn view(&self) -> Seq<(u64, ChangeTicks)> {
        self.entries@
    }
}

/// The ticks recorded for `component` in `entries`, if any.
pub open spec fn ticks_of(entries: Seq<(u64, ChangeTicks)>, component: u64) -> Option<ChangeTicks>
    decreases entries.len(),
{
    if entries.len() == 0 {
        None
    } else if entries.last().0 == component {
        Some(entries.last().1)
    } else {
        ticks_of(entries.drop_last(), component)
    }
}

/// A position of `component` in `entries`, where it occurs there.
pub open spec fn position_of(entries: Seq<(u64, ChangeTicks)>, component: u64) -> int {
    choose|i: int| 0 <= i < entries.len() && entries[i].0 == component
}

/// The entries after recording `ticks` for `component`: in place if the
/// component is known, at the end otherwise.
pub open spec fn with_ticks(entries: Seq<(u64, ChangeTicks)>, component: u64, ticks: ChangeTicks) -> Seq<(u64, ChangeTicks)> {
    if exists|i: int| 0 <= i < entries.len() && entries[i].0 == component {
        entries.update(position_of(entries, component), (component, ticks))
    } else {
        entries.push((component, ticks))
    }
}

/// Ticks recorded for an unknown component: both 0.
pub open spec fn ticks_or_new(entries: Seq<(u64, ChangeTicks)>, component: u64) -> ChangeTicks {
    match ticks_of(entries, component) {
        Some(t) => t,
        None => ChangeTicks { changed: 0, removed: 0 },
    }
}

/// In entries without repeated components, the ticks of a component are
/// those at its position.
pub proof fn lemma_ticks_of_position(entries: Seq<(u64, ChangeTicks)>, i: int)
    requires
        distinct_components(entries),
        0 <= i < entries.len(),
    ensures
        ticks_of(entries, entries[i].0) == Some(entries[i].1),
    decreases entries.len(),
{
    if i != entries.len() - 1 {
        let prefix = entries.drop_last();
        assert(prefix[i] == entries[i]);
        lemma_ticks_of_position(prefix, i);
    }
}

/// A component that occurs nowhere in the entries has no ticks.
pub proof fn lemma_ticks_of_absent(entries: Seq<(u64, ChangeTicks)>, component: u64)
    requires
        forall|i: int| 0 <= i < entries.len() ==> entries[i].0 != component,
    ensures
        ticks_of(entries, component) is None,
    decreases entries.len(),
{
    if entries.len() > 0 {
        lemma_ticks_of_absent(entries.drop_last(), component);
    }
}

impl Replication {
    /// No component occurs twice.
    pub closed spec fn wf(self) -> bool {
        distinct_components(self.entries@)
    }

    /// Nothing recorded yet.
    pub fn new() -> (r: Replication)
        ensures
            r.wf(),
            r@ == Seq::<(u64, ChangeTicks)>::empty(),
    {
        Replication { entries: Vec::new() }
    }

    /// Position of `component`, if it is recorded.
    fn position(&self, component: u64) -> (p: Option<usize>)
        ensures
            match p {
                Some(i) => i < self@.len() && self@[i as int].0 == component,
                None => forall|i: int| 0 <= i < self@.len() ==> self@[i].0 != component,
            },
    {
        let mut i: usize = 0;
        while i < self.entries.len()
            invariant
                i <= self.entries@.len(),
                forall|j: int| 0 <= j < i ==> self.entries@[j].0 != component,
            decreases self.entries@.len() - i,
        {
            if self.entries[i].0 == component {
                return Some(i);
            }
            i = i + 1;
        }
        None
    }

    /// The ticks recorded for `component`, if any.
    pub fn get(&self, component: u64) -> (t: Option<ChangeTicks>)
        requires
            self.wf(),
        ensures
            t == ticks_of(self@, component),
    {
        match self.position(component) {
            Some(i) => {
                proof {
                    lemma_ticks_of_position(self@, i as int);
                }
                Some(self.entries[i].1)
            },
            None => {
                proof {
                    lemma_ticks_of_absent(self@, component);
                }
                None
            },
        }
    }

    /// Records `ticks` for `component`.
    pub fn insert(&mut self, component: u64, ticks: ChangeTicks)
        requires
            old(self).wf(),
        ensures
            final(self).wf(),
            final(self)@ == with_ticks(old(self)@, component, ticks),
            ticks_of(final(self)@, component) == Some(ticks),
            forall|c: u64| c != component ==> ticks_of(final(self)@, c) == ticks_of(old(self)@, c),
    {
        let ghost before = self@;
        match self.position(component) {
            Some(i) => {
                self.entries.set(i, (component, ticks));
                proof {
                    assert(exists|j: int| 0 <= j < before.len() && before[j].0 == component);
                    let k = choose|j: int| 0 <= j < before.len() && before[j].0 == component;
                    assert(k == i);
                    assert(distinct_components(self@));
                    lemma_ticks_of_position(self@, i as int);
                    assert forall|c: u64| c != component implies ticks_of(self@, c) == ticks_of(before, c) by {
                        if exists|j: int| 0 <= j < before.len() && before[j].0 == c {
                            let j = choose|j: int| 0 <= j < before.len() && before[j].0 == c;
                            lemma_ticks_of_position(before, j);
                            assert(self@[j] == before[j]);
                            lemma_ticks_of_position(self@, j);
                        } else {
                            lemma_ticks_of_absent(before, c);
                            assert forall|j: int| 0 <= j < self@.len() implies self@[j].0 != c by {
                                if j != i {
                                    assert(self@[j] == before[j]);
                                }
                            }
                            lemma_ticks_of_absent(self@, c);
                        }
                    }
                }
            },
            None => {
                self.entries.push((component, ticks));
                proof {
                    assert(!exists|j: int| 0 <= j < before.len() && before[j].0 == component);
                    assert(self@ == before.push((component, ticks)));
                    assert(distinct_components(self@));
                    assert(self@.drop_last() == before);
                    assert forall|c: u64| c != component implies ticks_of(self@, c) == ticks_of(before, c) by {
                        assert(self@.last().0 == component);
                    }
                }
            },
        }
    }

    /// Records that `component` changed on `tick`.
    pub fn mark_changed(&mut self, component: u64, tick: u32)
        requires
            old(self).wf(),
        ensures
            final(self).wf(),
            final(self)@ == with_ticks(
                old(self)@,
                component,
                ChangeTicks { changed: tick, ..ticks_or_new(old(self)@, component) },
            ),
    {
        let current = match self.get(component) {
            Some(t) => t,
            None => ChangeTicks::new(),
        };
        self.insert(component, ChangeTicks { changed: tick, ..current });
    }

    /// Records that `component` was removed on `tick`.
    pub fn mark_removed(&mut self, component: u64, tick: u32)
        requires
            old(self).wf(),
        ensures
            final(self).wf(),
            final(self)@ == with_ticks(
                old(self)@,
                component,
                ChangeTicks { removed: tick, ..ticks_or_new(old(self)@, component) },
            ),
    {
        let current = match self.get(component) {
            Some(t) => t,
            None => ChangeTicks::new(),
        };
        self.insert(component, ChangeTicks { removed: tick, ..current });
    }
}

/// The changes to send about the components in `entries`, in their order, to
/// a client that acknowledged tick `ack`.
pub open spec fn changes_for(entries: Seq<(u64, ChangeTicks)>, ack: u32) -> Seq<Change>
    decreases entries.len(),
{
    if entries.len() == 0 {
        Seq::empty()
    } else {
        let earlier = changes_for(entries.drop_last(), ack);
        match change_for(entries.last().1, ack) {
            Some(kind) => earlier.push(Change { component: entries.last().0, kind }),
            None => earlier,
        }
    }
}

/// A client is sent about a component exactly what it has not
/// acknowledged: nothing once both the change and the removal came before its
/// acknowledgement, the removal when the component was removed after its last
/// change, and the value when it changed after the acknowledgement and was not
/// removed since.
pub proof fn lemma_change_rules(ticks: ChangeTicks, ack: u32)
    ensures
        ticks.changed < ack && ticks.removed < ack ==> change_for(ticks, ack) is None,
        !(ticks.changed < ack && ticks.removed < ack) && ticks.removed > ticks.changed ==> change_for(ticks, ack) == Some(ChangeKind::Removed),
        ticks.changed > ack && ticks.removed <= ticks.changed ==> change_for(ticks, ack) == Some(ChangeKind::Changed),
        change_for(ticks, ack) == Some(ChangeKind::Changed) ==> ticks.changed > ack,
        change_for(ticks, ack) == Some(ChangeKind::Changed) ==> ticks.removed <= ticks.changed,
        change_for(ticks, ack) == Some(ChangeKind::Removed) ==> ticks.removed > ticks.changed,
        change_for(ticks, ack) == Some(ChangeKind::Removed) ==> ticks.removed >= ack,
        ticks.removed <= ticks.changed && ticks.changed <= ack ==> change_for(ticks, ack) is None,
{
}

/// The changes for an entity hold, for every component, the change that
/// [`change_for`] decides, and nothing else.
pub proof fn lemma_changes_for_exact(entries: Seq<(u64, ChangeTicks)>, ack: u32)
    ensures
        forall|i: int|
            0 <= i < entries.len() ==> (change_for(#[trigger] entries[i].1, ack) matches Some(kind)
                ==> changes_for(entries, ack).contains(Change { component: entries[i].0, kind })),
        forall|j: int|
            0 <= j < changes_for(entries, ack).len() ==> exists|i: int|
                0 <= i < entries.len() && entries[i].0 == (#[trigger] changes_for(entries, ack)[j]).component
                    && change_for(entries[i].1, ack) == Some(changes_for(entries, ack)[j].kind),
    decreases entries.len(),
{
    if entries.len() > 0 {
        let prefix = entries.drop_last();
        lemma_changes_for_exact(prefix, ack);
        let earlier = changes_for(prefix, ack);
        let all = changes_for(entries, ack);
        assert forall|i: int|
            0 <= i < entries.len() implies (change_for(#[trigger] entries[i].1, ack) matches Some(kind)
                ==> all.contains(Change { component: entries[i].0, kind })) by {
            if let Some(kind) = change_for(entries[i].1, ack) {
                if i == entries.len() - 1 {
                    assert(entries.last() == entries[i]);
                    assert(all.last() == Change { component: entries[i].0, kind });
                    assert(all[all.len() - 1] == all.last());
                } else {
                    assert(prefix[i] == entries[i]);
                    let w = Change { component: entries[i].0, kind };
                    assert(earlier.contains(w));
                    let k = choose|k: int| 0 <= k < earlier.len() && earlier[k] == w;
                    assert(all[k] == w);
                }
            }
        }
        assert forall|j: int|
            0 <= j < all.len() implies exists|i: int|
                0 <= i < entries.len() && entries[i].0 == (#[trigger] all[j]).component
                    && change_for(entries[i].1, ack) == Some(all[j].kind) by {
            if j < earlier.len() {
                assert(all[j] == earlier[j]);
                let i = choose|i: int|
                    0 <= i < prefix.len() && prefix[i].0 == earlier[j].component
                        && change_for(prefix[i].1, ack) == Some(earlier[j].kind);
                assert(entries[i] == prefix[i]);
            } else {
                let last = entries.len() - 1;
                assert(entries[last] == entries.last());
            }
        }
    }
}

/// A component marked as changed on `tick` is sent with its new value to
/// every client that acknowledged an earlier tick, unless it was removed on a
/// later tick than `tick`.
pub proof fn lemma_marked_change_is_sent(entries: Seq<(u64, ChangeTicks)>, component: u64, tick: u32, ack: u32)
    requires
        ack < tick,
        ticks_or_new(entries, component).removed <= tick,
    ensures
        changes_for(
            with_ticks(entries, component, ChangeTicks { changed: tick, ..ticks_or_new(entries, component) }),
            ack,
        ).contains(Change { component, kind: ChangeKind::Changed }),
{
    let t = ChangeTicks { changed: tick, ..ticks_or_new(entries, component) };
    let after = with_ticks(entries, component, t);
    lemma_changes_for_exact(after, ack);
    if exists|i: int| 0 <= i < entries.len() && entries[i].0 == component {
        let i = position_of(entries, component);
        assert(after[i] == (component, t));
        assert(change_for(after[i].1, ack) == Some(ChangeKind::Changed));
    } else {
        let i = entries.len() as int;
        assert(after[i] == (component, t));
        assert(change_for(after[i].1, ack) == Some(ChangeKind::Changed));
    }
}

/// A component marked as removed on `tick`, after it last changed, is sent
/// as removed to every client that acknowledged an earlier tick.
pub proof fn lemma_marked_removal_is_sent(entries: Seq<(u64, ChangeTicks)>, component: u64, tick: u32, ack: u32)
    requires
        ack < tick,
        ticks_or_new(entries, component).changed < tick,
    ensures
        changes_for(
            with_ticks(entries, component, ChangeTicks { removed: tick, ..ticks_or_new(entries, component) }),
            ack,
        ).contains(Change { component, kind: ChangeKind::Removed }),
{
    let t = ChangeTicks { removed: tick, ..ticks_or_new(entries, component) };
    let after = with_ticks(entries, component, t);
    lemma_changes_for_exact(after, ack);
    if exists|i: int| 0 <= i < entries.len() && entries[i].0 == component {
        let i = position_of(entries, component);
        assert(after[i] == (component, t));
        assert(change_for(after[i].1, ack) == Some(ChangeKind::Removed));
    } else {
        let i = entries.len() as int;
        assert(after[i] == (component, t));
        assert(change_for(after[i].1, ack) == Some(ChangeKind::Removed));
    }
}

/// The changes to send about an entity to a client that acknowledged `ack`.
pub fn entity_changes(replication: &Replication, ack: u32) -> (changes: Vec<Change>)
    ensures
        changes@ == changes_for(replication@, ack),
{
    let mut changes: Vec<Change> = Vec::new();
    let mut i: usize = 0;
    while i < replication.entries.len()
        invariant
            i <= replication@.len(),
            replication.entries@ == replication@,
            changes@ == changes_for(replication@.take(i as int), ack),
        decreases replication@.len() - i,
    {
        let (component, ticks) = replication.entries[i];
        assert(replication@.take(i + 1).drop_last() == replication@.take(i as int));
        match change_to_send(ticks, ack) {
            Some(kind) => changes.push(Change { component, kind }),
            None => {},
        }
        i = i + 1;
    }
    assert(replication@.take(i as int) == replication@);
    changes
}

/// What the server sends one client on a network tick: the tick and, for
/// every replicated entity, the changes the client has not acknowledged.
#[derive(Clone, Debug)]
pub struct ServerUnreliableMessage {
    pub tick: u32,
    pub component_changes: Vec<(u64, Vec<Change>)>,
}

/// The message for a client that acknowledged `ack`, given the replicated
/// entities and their component ticks.
pub open spec fn message_matches(
    message: ServerUnreliableMessage,
    tick: u32,
    entities: Seq<(u64, Replication)>,
    ack: u32,
) -> bool {
    &&& message.tick == tick
    &&& message.component_changes@.len() == entities.len()
    &&& forall|i: int|
        0 <= i < entities.len() ==> {
            &&& (#[trigger] message.component_changes@[i]).0 == entities[i].0
            &&& message.component_changes@[i].1@ == changes_for(entities[i].1@, ack)
        }
}

/// Builds the message for a client that acknowledged tick `ack`.
pub fn message_for(tick: u32, entities: &Vec<(u64, Replication)>, ack: u32) -> (message: ServerUnreliableMessage)
    ensures
        message_matches(message, tick, entities@, ack),
{
    let mut component_changes: Vec<(u64, Vec<Change>)> = Vec::new();
    let mut i: usize = 0;
    while i < entities.len()
        invariant
            i <= entities@.len(),
            component_changes@.len() == i,
            forall|j: int|
                0 <= j < i ==> {
                    &&& (#[trigger] component_changes@[j]).0 == entities@[j].0
                    &&& component_changes@[j].1@ == changes_for(entities@[j].1@, ack)
                },
        decreases entities@.len() - i,
    {
        let changes = entity_changes(&entities[i].1, ack);
        component_changes.push((entities[i].0, changes));
        i = i + 1;
    }
    ServerUnreliableMessage { tick, component_changes }
}

/// Builds the messages of a network tick: one for every client in `acks`
/// (with its acknowledged tick), in their order, when there is at least one
/// replicated entity; none otherwise.
pub fn build_server_messages(
    tick: u32,
    entities: &Vec<(u64, Replication)>,
    acks: &Vec<(u64, u32)>,
) -> (messages: Vec<(u64, ServerUnreliableMessage)>)
    ensures
        entities@.len() == 0 ==> messages@.len() == 0,
        entities@.len() > 0 ==> messages@.len() == acks@.len(),
        entities@.len() > 0 ==> forall|i: int|
            0 <= i < acks@.len() ==> {
                &&& (#[trigger] messages@[i]).0 == acks@[i].0
                &&& message_matches(messages@[i].1, tick, entities@, acks@[i].1)
            },
{
    let mut messages: Vec<(u64, ServerUnreliableMessage)> = Vec::new();
    if entities.len() == 0 {
        return messages;
    }
    let mut i: usize = 0;
    while i < acks.len()
        invariant
            i <= acks@.len(),
            messages@.len() == i,
            forall|j: int|
                0 <= j < i ==> {
                    &&& (#[trigger] messages@[j]).0 == acks@[j].0
                    &&& message_matches(messages@[j].1, tick, entities@, acks@[j].1)
                },
        decreases acks@.len() - i,
    {
        let (client, ack) = acks[i];
        let message = message_for(tick, entities, ack);
        messages.push((client, message));
        i = i + 1;
    }
    messages
}

/// The last server tick acknowledged by each connected client.
#[derive(Clone, Debug)]
pub struct ClientAcks {
    acks: HashMap<u64, u32>,
}

impl View for ClientAcks {
    type V = Map<u64, u32>;

    closed spec fn view(&self) -> Map<u64, u32> {
        self.acks@
    }
}

impl ClientAcks {
    /// No client yet.
    pub fn new() -> (a: ClientAcks)
        ensures
            a@ == Map::<u64, u32>::empty(),
    {
        ClientAcks { acks: HashMap::new() }
    }

    /// A client connected: it has acknowledged nothing (tick 0).
    pub fn connect(&mut self, client: u64)
        ensures
            final(self)@ == old(self)@.insert(client, 0),
    {
        self.acks.insert(client, 0);
    }

    /// A client disconnected: it is forgotten.
    pub fn disconnect(&mut self, client: u64)
        ensures
            final(self)@ == old(self)@.remove(client),
    {
        self.acks.remove(&client);
    }

    /// The tick acknowledged by `client`, if it is known.
    pub fn get(&self, client: u64) -> (ack: Option<u32>)
        ensures
            ack == if self@.contains_key(client) {
                Some(self@[client])
            } else {
                None
            },
    {
        match self.acks.get(&client) {
            Some(a) => Some(*a),
            None => None,
        }
    }

    /// Records the acknowledgements that arrived from `client` this tick:
    /// if any did, the client is known from now on and its acknowledged tick
    /// becomes the highest of what it had and what arrived.
    pub fn record(&mut self, client: u64, received: &Vec<u32>)
        ensures
            received@.len() == 0 ==> final(self)@ == old(self)@,
            received@.len() > 0 ==> final(self)@.contains_key(client),
            received@.len() > 0 && old(self)@.contains_key(client) ==> final(self)@[client] >= old(self)@[client],
            received@.len() > 0 ==> forall|j: int| 0 <= j < received@.len() ==> final(self)@[client] >= received@[j],
            forall|other: u64| other != client ==> final(self)@.contains_key(other) == old(self)@.contains_key(other) && final(self)@[other] == old(self)@[other],
            received@.len() > 0 ==> exists|i: int|
                0 <= i < received@.len() && {
                    &&& forall|j: int| 0 <= j < received@.len() ==> received@[j] <= received@[i]
                    &&& final(self)@ == old(self)@.insert(
                        client,
                        if old(self)@.contains_key(client) && old(self)@[client] >= received@[i] {
                            old(self)@[client]
                        } else {
                            received@[i]
                        },
                    )
                },
    {
        if received.len() == 0 {
            return;
        }
        let mut best: usize = 0;
        let mut i: usize = 1;
        while i < received.len()
            invariant
                1 <= i <= received@.len(),
                best < i,
                forall|j: int| 0 <= j < i ==> received@[j] <= received@[best as int],
            decreases received@.len() - i,
        {
            if received[i] >= received[best] {
                best = i;
            }
            i = i + 1;
        }
        let latest = received[best];
        let current = match self.acks.get(&client) {
            Some(a) => *a,
            None => 0,
        };
        if current < latest {
            self.acks.insert(client, latest);
        } else {
            self.acks.insert(client, current);
        }
        assert(0 <= best < received@.len());
    }

    /// Every client with its acknowledged tick, each once.
    pub fn entries(&self) -> (v: Vec<(u64, u32)>)
        ensures
            v@.len() == self@.dom().len(),
            forall|i: int| 0 <= i < v@.len() ==> self@.contains_key(#[trigger] v@[i].0) && self@[v@[i].0] == v@[i].1,
            forall|i: int, j: int| 0 <= i < v@.len() && 0 <= j < v@.len() && i != j ==> #[trigger] v@[i].0 != #[trigger] v@[j].0,
    {
        let mut v: Vec<(u64, u32)> = Vec::new();
        for (client, ack) in it: self.acks.iter()
            invariant
                it.seq() == vstd::std_specs::hash::spec_hash_map_iter(&self.acks).remaining(),
                it.seq().no_duplicates(),
                v@.len() == it.index(),
                forall|i: int| 0 <= i < v@.len() ==> v@[i] == (*it.seq()[i].0, *it.seq()[i].1),
        {
            v.push((*client, *ack));
        }
        proof {
            let seq = vstd::std_specs::hash::spec_hash_map_iter(&self.acks).remaining();
            assert forall|i: int, j: int| 0 <= i < v@.len() && 0 <= j < v@.len() && i != j implies #[trigger] v@[i].0 != #[trigger] v@[j].0 by {
                if v@[i].0 == v@[j].0 {
                    assert(self@[v@[i].0] == v@[i].1);
                    assert(seq[i] == seq[j]);
                }
            }
        }
        v
    }
}

/// The client's own entity for each server entity it has heard of.
#[derive(Clone, Debug)]
pub struct NetworkEntityMap {
    entities: HashMap<u64, u64>,
}

impl View for NetworkEntityMap {
    type V = Map<u64, u64>;

    closed spec fn view(&self) -> Map<u64, u64> {
        self.entities@
    }
}

impl NetworkEntityMap {
    /// No server entity known yet.
    pub fn new() -> (m: NetworkEntityMap)
        ensures
            m@ == Map::<u64, u64>::empty(),
    {
        NetworkEntityMap { entities: HashMap::new() }
    }

    /// The local entity that stands for `server_entity`, if there is one.
    pub fn get(&self, server_entity: u64) -> (local: Option<u64>)
        ensures
            local == if self@.contains_key(server_entity) {
                Some(self@[server_entity])
            } else {
                None
            },
    {
        match self.entities.get(&server_entity) {
            Some(l) => Some(*l),
            None => None,
        }
    }

    /// The local entity for `server_entity`: the one already bound to it, or
    /// else `spawned`, which is bound to it from now on.
    pub fn resolve(&mut self, server_entity: u64, spawned: u64) -> (local: u64)
        ensures
            old(self)@.contains_key(server_entity) ==> {
                &&& local == old(self)@[server_entity]
                &&& final(self)@ == old(self)@
            },
            !old(self)@.contains_key(server_entity) ==> {
                &&& local == spawned
                &&& final(self)@ == old(self)@.insert(server_entity, spawned)
            },
    {
        match self.entities.get(&server_entity) {
            Some(l) => *l,
            None => {
                self.entities.insert(server_entity, spawned);
                spawned
            },
        }
    }
}

/// What the client does to a component of a local entity on a change from
/// the server.
#[derive(Clone, Copy, Debug, PartialEq, Eq, Structural)]
pub enum ComponentOp {
    /// Overwrite the component the entity already has.
    Apply,
    /// Give the entity the component.
    Add,
    /// Take the component away.
    Remove,
}

/// A new value is applied where the entity has the component and added where
/// it does not; a removal removes it.
pub open spec fn op_for(kind: ChangeKind, present: bool) -> ComponentOp {
    match kind {
        ChangeKind::Changed => if present {
            ComponentOp::Apply
        } else {
            ComponentOp::Add
        },
        ChangeKind::Removed => ComponentOp::Remove,
    }
}

/// Decides what to do with a received change (see [`op_for`]), given
/// whether the local entity has the component.
pub fn component_op(kind: ChangeKind, present: bool) -> (op: ComponentOp)
    ensures
        op == op_for(kind, present),
{
    match kind {
        ChangeKind::Changed => if present {
            ComponentOp::Apply
        } else {
            ComponentOp::Add
        },
        ChangeKind::Removed => ComponentOp::Remove,
    }
}

} // verus!
