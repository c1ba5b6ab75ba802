use std::collections::HashMap;
use vstd::prelude::*;
use vstd::std_specs::iter::IteratorSpec;
use crate::messages::Message;
use crate::text::str_eq;

verus! {

broadcast use vstd::std_specs::hash::group_hash_axioms;

/// The topic names of a list of subscriptions, as character sequences.
pub open spec fn topic_names(topics: Seq<String>) -> Seq<Seq<char>> {
    topics.map_values(|t: String| t@)
}

/// Whether the subscriber `id` of `subs` listens to `topic`.
pub open spec fn listens(subs: Map<u64, Seq<Seq<char>>>, id: u64, topic: Seq<char>) -> bool {
    subs.contains_key(id) && subs[id].contains(topic)
}

/// The subscriptions after client `id` registers for `topics`: its list is
/// replaced, and a registration from a client that is not connected is ignored.
pub open spec fn after_register(subs: Map<u64, Seq<Seq<char>>>, id: u64, topics: Seq<Seq<char>>) -> Map<u64, Seq<Seq<char>>> {
    if subs.contains_key(id) { subs.insert(id, topics) } else { subs }
}

/// `action` and the new subscriptions `after` are what the hub owes for
/// message `msg` from client `id`, given the subscriptions `before`.
pub open spec fn handled(
    before: Map<u64, Seq<Seq<char>>>,
    after: Map<u64, Seq<Seq<char>>>,
    id: u64,
    msg: Message,
    action: HubAction,
) -> bool {
    match msg {
        Message::Register { topics } => {
            &&& action is Registered
            &&& after == after_register(before, id, topic_names(topics@))
        },
        Message::Publish { topic, payload } => {
            &&& after == before
            &&& action.delivers(before, topic, payload)
        },
    }
}

/// Every client in `subs` has an id below `next`.
pub open spec fn ids_below(subs: Map<u64, Seq<Seq<char>>>, next: u64) -> bool {
    forall|id: u64| #[trigger] subs.contains_key(id) ==> id < next
}

/// The topic that shuts the desktop down.
pub open spec fn is_exit_topic(topic: Seq<char>) -> bool {
    topic == "system.exit"@
}

/// A client that has just connected, and so listens to nothing, receives no
/// publication whatever its topic.
pub proof fn law_new_client_hears_nothing(subs: Map<u64, Seq<Seq<char>>>, id: u64, topic: Seq<char>)
    ensures
        !listens(subs.insert(id, Seq::<Seq<char>>::empty()), id, topic),
{
}

/// Once a connected client has registered for `topics`, it receives a
/// publication exactly when the publication's topic is one of `topics`, and
/// what every other client receives is unchanged.
pub proof fn law_registration_decides_delivery(
    subs: Map<u64, Seq<Seq<char>>>,
    id: u64,
    topics: Seq<Seq<char>>,
    other: u64,
    topic: Seq<char>,
)
    requires
        subs.contains_key(id),
    ensures
        listens(after_register(subs, id, topics), id, topic) <==> topics.contains(topic),
        other != id ==> (listens(after_register(subs, id, topics), other, topic) <==> listens(subs, other, topic)),
{
}

/// A later registration replaces an earlier one: registering twice is the
/// same as registering only the second time.
pub proof fn law_registration_replaces(
    subs: Map<u64, Seq<Seq<char>>>,
    id: u64,
    first: Seq<Seq<char>>,
    second: Seq<Seq<char>>,
)
    ensures
        after_register(after_register(subs, id, first), id, second) == after_register(subs, id, second),
{
    if subs.contains_key(id) {
        assert(after_register(after_register(subs, id, first), id, second) =~= after_register(subs, id, second));
    }
}

/// A registration from a client that is not connected changes nothing.
pub proof fn law_unknown_client_registration_ignored(subs: Map<u64, Seq<Seq<char>>>, id: u64, topics: Seq<Seq<char>>)
    requires
        !subs.contains_key(id),
    ensures
        after_register(subs, id, topics) == subs,
{
}

/// A client that has disconnected receives nothing, and what every other
/// client receives is unchanged.
pub proof fn law_disconnected_client_hears_nothing(
    subs: Map<u64, Seq<Seq<char>>>,
    id: u64,
    other: u64,
    topic: Seq<char>,
)
    ensures
        !listens(subs.remove(id), id, topic),
        other != id ==> (listens(subs.remove(id), other, topic) <==> listens(subs, other, topic)),
{
}

/// The subscriptions after `k` clients connect, one after another, to a hub
/// whose next id is `next`: they get the ids `next`, `next + 1`, ... and
/// listen to nothing.
pub open spec fn after_connects(subs: Map<u64, Seq<Seq<char>>>, next: u64, k: nat) -> Map<u64, Seq<Seq<char>>>
    decreases k,
{
    if k == 0 {
        subs
    } else {
        after_connects(subs, next, (k - 1) as nat).insert((next + k - 1) as u64, Seq::<Seq<char>>::empty())
    }
}

/// One more connection extends a run of connections: `k` connections
/// starting at `next`, then one with id `next + k` (as `HubRouter::connect`
/// makes on a router whose next id is `next + k`), is the run of `k + 1`.
/// So the router after `k` calls of `connect` from a next id of `next` is
/// `after_connects(subs, next, k)`.
pub proof fn law_connections_compose(subs: Map<u64, Seq<Seq<char>>>, next: u64, k: nat)
    requires
        next + k <= u64::MAX,
    ensures
        after_connects(after_connects(subs, next, k), (next + k) as u64, 1) == after_connects(subs, next, k + 1),
{
    assert(after_connects(after_connects(subs, next, k), (next + k) as u64, 0) == after_connects(subs, next, k));
}

/// Clients are numbered in the order they connect, and no id is handed out
/// twice: after `k` connections to a hub whose ids are all below `next`, the
/// `i`-th new client has id `next + i` and listens to nothing, every id is
/// below `next + k`, and the clients that were there keep their topics.
pub proof fn law_connections_are_numbered(subs: Map<u64, Seq<Seq<char>>>, next: u64, k: nat)
    requires
        forall|id: u64| #[trigger] subs.contains_key(id) ==> id < next,
        next + k <= u64::MAX,
    ensures
        forall|i: int| 0 <= i < k ==> #[trigger] after_connects(subs, next, k).contains_key((next + i) as u64)
            && after_connects(subs, next, k)[(next + i) as u64] == Seq::<Seq<char>>::empty(),
        forall|id: u64| #[trigger] after_connects(subs, next, k).contains_key(id) ==> id < next + k,
        forall|id: u64| #[trigger] subs.contains_key(id) ==> after_connects(subs, next, k).contains_key(id)
            && after_connects(subs, next, k)[id] == subs[id],
    decreases k,
{
    if k > 0 {
        law_connections_are_numbered(subs, next, (k - 1) as nat);
        let prev = after_connects(subs, next, (k - 1) as nat);
        let cur = after_connects(subs, next, k);
        let fresh = (next + k - 1) as u64;
        assert(cur == prev.insert(fresh, Seq::<Seq<char>>::empty()));
        assert forall|i: int| 0 <= i < k implies #[trigger] cur.contains_key((next + i) as u64)
            && cur[(next + i) as u64] == Seq::<Seq<char>>::empty() by {
            if i < k - 1 {
                assert(prev.contains_key((next + i) as u64));
            }
        }
        assert forall|id: u64| #[trigger] subs.contains_key(id) implies cur.contains_key(id) && cur[id] == subs[id] by {
            assert(prev.contains_key(id));
            assert(id != fresh);
        }
    }
}

/// Does `topics` hold a topic named `topic`?
pub fn contains_topic(topics: &Vec<String>, topic: &String) -> (found: bool)
    ensures
        found == topic_names(topics@).contains(topic@),
{
    let mut i: usize = 0;
    while i < topics.len()
        invariant
            i <= topics.len(),
            forall|j: int| 0 <= j < i ==> topics@[j]@ != topic@,
        decreases topics.len() - i,
    {
        if topics[i] == *topic {
            assert(topic_names(topics@)[i as int] == topic@);
            return true;
        }
        i = i + 1;
    }
    assert forall|j: int| 0 <= j < topic_names(topics@).len() implies topic_names(topics@)[j] != topic@ by {
        assert(topic_names(topics@)[j] == topics@[j]@);
    }
    false
}

/// Who, of the hub's connected clients, listens to what.
pub struct HubRouter {
    subscribers: HashMap<u64, Vec<String>>,
    next_id: u64,
}

impl HubRouter {
    /// The topics of each connected client, by client id.
    pub closed spec fn subscriptions(&self) -> Map<u64, Seq<Seq<char>>> {
        self.subscribers@.map_values(|ts: Vec<String>| topic_names(ts@))
    }

    pub closed spec fn spec_next_id(&self) -> u64 {
        self.next_id
    }

    /// Every connected client has an id below the next one to hand out.
    #[verifier::type_invariant]
    spec fn wf(&self) -> bool {
        forall|id: u64| #[trigger] self.subscribers@.contains_key(id) ==> id < self.next_id
    }

    pub fn new() -> (r: HubRouter)
        ensures
            r.subscriptions() == Map::<u64, Seq<Seq<char>>>::empty(),
            r.spec_next_id() == 0,
    {
        let r = HubRouter { subscribers: HashMap::new(), next_id: 0 };
        assert(r.subscriptions() =~= Map::<u64, Seq<Seq<char>>>::empty());
        r
    }

    /// The clients that listen to `topic`.
    pub fn recipients(&self, topic: &String) -> (ids: Vec<u64>)
        ensures
            ids@.no_duplicates(),
            forall|id: u64| ids@.contains(id) <==> listens(self.subscriptions(), id, topic@),
    {
        let mut ids: Vec<u64> = Vec::new();
        let ghost keys = vstd::std_specs::hash::spec_keys_iter(&self.subscribers).remaining();
        for id in it: self.subscribers.keys()
            invariant
                it.seq() == keys,
                keys.no_duplicates(),
                keys.unref().to_set() == self.subscribers@.dom(),
                ids@.no_duplicates(),
                forall|x: u64| ids@.contains(x) <==> exists|j: int| 0 <= j < it.index() && *keys[j] == x && listens(self.subscriptions(), x, topic@),
        {
            let ghost k = it.index() as int;
            let ghost before = ids@;
            assert(*id == *keys[k]);
            let topics = self.subscribers.get(id).unwrap();
            assert(self.subscriptions()[*id] == topic_names(topics@));
            if contains_topic(topics, topic) {
                assert forall|j: int| 0 <= j < k implies *keys[j] != *id by {
                    assert(keys[j] != keys[k]);
                }
                assert(!before.contains(*id));
                ids.push(*id);
                assert(ids@.last() == *id);
                assert forall|a: int, b: int| 0 <= a < b < ids@.len() implies ids@[a] != ids@[b] by {
                    if b == ids@.len() - 1 {
                        assert(before[a] == ids@[a]);
                    }
                }
            }
            proof {
                assert forall|x: u64| ids@.contains(x) implies exists|j: int| 0 <= j < k + 1 && *keys[j] == x && listens(self.subscriptions(), x, topic@) by {
                    if before.contains(x) {
                    } else {
                        assert(x == *id);
                        assert(*keys[k] == x);
                    }
                }
                assert forall|x: u64| (exists|j: int| 0 <= j < k + 1 && *keys[j] == x && listens(self.subscriptions(), x, topic@)) implies ids@.contains(x) by {
                    let j = choose|j: int| 0 <= j < k + 1 && *keys[j] == x && listens(self.subscriptions(), x, topic@);
                    if j < k {
                        assert(before.contains(x));
                        let i = choose|i: int| 0 <= i < before.len() && before[i] == x;
                        assert(ids@[i] == x);
                    } else {
                        assert(ids@.last() == x);
                    }
                }
            }
        }
        ids
    }

    /// The id the next client gets; every connected client's id is below it.
    pub fn next_id(&self) -> (n: u64)
        ensures
            n == self.spec_next_id(),
            ids_below(self.subscriptions(), n),
    {
        proof {
            use_type_invariant(self);
        }
        self.next_id
    }

    /// Accepts a new client: it gets the next id and listens to nothing yet.
    pub fn connect(&mut self) -> (id: u64)
        requires
            old(self).spec_next_id() < u64::MAX,
        ensures
            id == old(self).spec_next_id(),
            final(self).spec_next_id() == id + 1,
            !old(self).subscriptions().contains_key(id),
            final(self).subscriptions() == after_connects(old(self).subscriptions(), id, 1),
            ids_below(final(self).subscriptions(), final(self).spec_next_id()),
    {
        proof {
            use_type_invariant(&*self);
        }
        let id = self.next_id;
        let mut subscribers: HashMap<u64, Vec<String>> = HashMap::new();
        std::mem::swap(&mut subscribers, &mut self.subscribers);
        let ghost before = subscribers@;
        subscribers.insert(id, Vec::new());
        self.next_id = id + 1;
        self.subscribers = subscribers;
        proof {
            assert(!before.contains_key(id));
            assert(topic_names(Seq::<String>::empty()) =~= Seq::<Seq<char>>::empty());
            assert(self.subscriptions() =~= old(self).subscriptions().insert(id, Seq::<Seq<char>>::empty()));
            assert(after_connects(old(self).subscriptions(), id, 0) == old(self).subscriptions());
            use_type_invariant(&*self);
        }
        id
    }

    /// Replaces the topics of client `id`; ignored when no such client is connected.
    pub fn register(&mut self, id: u64, topics: Vec<String>)
        ensures
            final(self).spec_next_id() == old(self).spec_next_id(),
            final(self).subscriptions() == after_register(old(self).subscriptions(), id, topic_names(topics@)),
            ids_below(final(self).subscriptions(), final(self).spec_next_id()),
    {
        proof {
            use_type_invariant(&*self);
        }
        let ghost names = topic_names(topics@);
        if self.subscribers.contains_key(&id) {
            let mut subscribers: HashMap<u64, Vec<String>> = HashMap::new();
            std::mem::swap(&mut subscribers, &mut self.subscribers);
            subscribers.insert(id, topics);
            self.subscribers = subscribers;
            assert(self.subscriptions() =~= old(self).subscriptions().insert(id, names));
        }
        proof {
            use_type_invariant(&*self);
        }
    }

    /// Forgets client `id` (its connection closed).
    pub fn disconnect(&mut self, id: u64)
        ensures
            final(self).spec_next_id() == old(self).spec_next_id(),
            final(self).subscriptions() == old(self).subscriptions().remove(id),
            ids_below(final(self).subscriptions(), final(self).spec_next_id()),
    {
        proof {
            use_type_invariant(&*self);
        }
        let mut subscribers: HashMap<u64, Vec<String>> = HashMap::new();
        std::mem::swap(&mut subscribers, &mut self.subscribers);
        subscribers.remove(&id);
        self.subscribers = subscribers;
        assert(self.subscriptions() =~= old(self).subscriptions().remove(id));
        proof {
            use_type_invariant(&*self);
        }
    }

    /// Handles one message from client `id`.
    pub fn handle(&mut self, id: u64, msg: Message) -> (action: HubAction)
        ensures
            final(self).spec_next_id() == old(self).spec_next_id(),
            handled(old(self).subscriptions(), final(self).subscriptions(), id, msg, action),
            ids_below(final(self).subscriptions(), final(self).spec_next_id()),
    {
        proof {
            use_type_invariant(&*self);
        }
        match msg {
            Message::Register { topics } => {
                self.register(id, topics);
                HubAction::Registered
            },
            Message::Publish { topic, payload } => {
                let recipients = self.recipients(&topic);
                let shutdown = str_eq(topic.as_str(), "system.exit");
                HubAction::Deliver { recipients, topic, payload, shutdown }
            },
        }
    }
}

impl HubAction {
    /// This action forwards `topic` and `payload` to exactly the clients of
    /// `subs` that listen to `topic`, each once, and shuts the desktop down
    /// exactly when the topic is the exit topic.
    pub open spec fn delivers(self, subs: Map<u64, Seq<Seq<char>>>, topic: String, payload: serde_json::Value) -> bool {
        match self {
            HubAction::Deliver { recipients, topic: t, payload: p, shutdown } => {
                &&& t == topic
                &&& p == payload
                &&& recipients@.no_duplicates()
                &&& (forall|r: u64| recipients@.contains(r) <==> listens(subs, r, topic@))
                &&& shutdown == is_exit_topic(topic@)
            },
            HubAction::Registered => false,
        }
    }
}

/// How long the hub waits, after forwarding the exit topic, before the
/// desktop exits, in milliseconds.
pub const SHUTDOWN_DELAY_MS: u64 = 300;

/// What the hub does after a client message.
pub enum HubAction {
    /// The sender's topics were updated; nothing to send.
    Registered,
    /// Forward `topic` and `payload` to each of `recipients`; when `shutdown`
    /// holds, the desktop exits `SHUTDOWN_DELAY_MS` afterwards.
    Deliver { recipients: Vec<u64>, topic: String, payload: serde_json::Value, shutdown: bool },
}

} // verus!
