//! Network event monitoring
//!
//! Turns routing messages (new/deleted links and addresses) and polled
//! interface listings into `NetworkEvent`s, keeping track of the
//! interfaces seen so far.  Reading the netlink socket or `/sys/class/net`
//! is left to the caller.

use vstd::prelude::*;
use std::collections::HashMap;
use crate::strmap::StrMap;

verus! {

broadcast use vstd::std_specs::hash::group_hash_axioms;

/// Network event types
#[derive(Debug, Clone)]
pub enum NetworkEvent {
    /// Interface added
    InterfaceAdded { index: u32, name: String },
    /// Interface removed
    InterfaceRemoved { index: u32, name: String },
    /// Interface state changed
    InterfaceStateChanged { index: u32, name: String, is_up: bool },
    /// Interface address changed
    InterfaceAddressChanged { index: u32, name: String, address: String },
    /// Link properties changed
    LinkPropertiesChanged { index: u32, name: String },
}

/// A network event with its strings taken as character sequences.
pub enum NetworkEventView {
    Added { index: u32, name: Seq<char> },
    Removed { index: u32, name: Seq<char> },
    StateChanged { index: u32, name: Seq<char>, is_up: bool },
    AddressChanged { index: u32, name: Seq<char>, address: Seq<char> },
    PropertiesChanged { index: u32, name: Seq<char> },
}

impl View for NetworkEvent {
    type V = NetworkEventView;

    open spec fn view(&self) -> NetworkEventView {
        match *self {
            NetworkEvent::InterfaceAdded { index, name } => NetworkEventView::Added {
                index,
                name: name@,
            },
            NetworkEvent::InterfaceRemoved { index, name } => NetworkEventView::Removed {
                index,
                name: name@,
            },
            NetworkEvent::InterfaceStateChanged { index, name, is_up } =>
                NetworkEventView::StateChanged { index, name: name@, is_up },
            NetworkEvent::InterfaceAddressChanged { index, name, address } =>
                NetworkEventView::AddressChanged { index, name: name@, address: address@ },
            NetworkEvent::LinkPropertiesChanged { index, name } =>
                NetworkEventView::PropertiesChanged { index, name: name@ },
        }
    }
}

/// A routing message, as far as the monitor reads it.
#[derive(Debug, Clone)]
pub enum RouteMessage {
    /// A link appeared or changed: its index, its name attribute (if it
    /// has one) and whether it is operationally up.
    NewLink { index: u32, name: Option<String>, is_up: bool },
    /// A link went away.
    DelLink { index: u32 },
    /// An address was added: the link index and the first address
    /// attribute written `ip/prefix`, if there is one.
    NewAddress { index: u32, address: Option<String> },
    /// An address was removed, as for `NewAddress`.
    DelAddress { index: u32, address: Option<String> },
    /// Any other message.
    Other,
}

/// The links known to the monitor: index to name and up state.
pub type KnownLinks = HashMap<u32, (String, bool)>;

/// The event a routing message gives, given the links known before it.
pub open spec fn route_event(known: Map<u32, (String, bool)>, msg: RouteMessage) -> Option<
    NetworkEventView,
> {
    match msg {
        RouteMessage::NewLink { index, name, is_up } => match name {
            Some(n) => if known.contains_key(index) {
                if known[index].1 != is_up {
                    Some(NetworkEventView::StateChanged { index, name: n@, is_up })
                } else {
                    None
                }
            } else {
                Some(NetworkEventView::Added { index, name: n@ })
            },
            None => None,
        },
        RouteMessage::DelLink { index } => if known.contains_key(index) {
            Some(NetworkEventView::Removed { index, name: known[index].0@ })
        } else {
            None
        },
        RouteMessage::NewAddress { index, address } => match address {
            Some(a) => if known.contains_key(index) {
                Some(
                    NetworkEventView::AddressChanged { index, name: known[index].0@, address: a@ },
                )
            } else {
                None
            },
            None => None,
        },
        RouteMessage::DelAddress { index, address } => match address {
            Some(a) => if known.contains_key(index) {
                Some(
                    NetworkEventView::AddressChanged {
                        index,
                        name: known[index].0@,
                        address: "-"@ + a@,
                    },
                )
            } else {
                None
            },
            None => None,
        },
        RouteMessage::Other => None,
    }
}

/// How a routing message changes the known links: a named new link is
/// recorded with its state, a deleted link is forgotten.
pub open spec fn route_known_after(
    known: Map<u32, (String, bool)>,
    msg: RouteMessage,
    after: Map<u32, (String, bool)>,
) -> bool {
    match msg {
        RouteMessage::NewLink { index, name, is_up } => match name {
            Some(n) => {
                &&& after.dom() == known.dom().insert(index)
                &&& after[index].0@ == n@
                &&& after[index].1 == is_up
                &&& forall|k: u32| k != index && known.contains_key(k) ==> after[k] == known[k]
            },
            None => after == known,
        },
        RouteMessage::DelLink { index } => after == known.remove(index),
        _ => after == known,
    }
}

/// Applies one routing message to the known links and returns the event
/// it gives.
pub fn process_route_message(known: &mut KnownLinks, msg: &RouteMessage) -> (r: Option<
    NetworkEvent,
>)
    ensures
        route_known_after(old(known)@, *msg, final(known)@),
        match r {
            Some(ev) => route_event(old(known)@, *msg) == Some(ev@),
            None => route_event(old(known)@, *msg) is None,
        },
{
    match msg {
        RouteMessage::NewLink { index, name, is_up } => match name {
            Some(n) => {
                let ev = match known.get(index) {
                    Some(entry) => {
                        if entry.1 != *is_up {
                            Some(
                                NetworkEvent::InterfaceStateChanged {
                                    index: *index,
                                    name: n.clone(),
                                    is_up: *is_up,
                                },
                            )
                        } else {
                            None
                        }
                    },
                    None => Some(NetworkEvent::InterfaceAdded { index: *index, name: n.clone() }),
                };
                known.insert(*index, (n.clone(), *is_up));
                ev
            },
            None => None,
        },
        RouteMessage::DelLink { index } => match known.remove(index) {
            Some(entry) => Some(NetworkEvent::InterfaceRemoved { index: *index, name: entry.0 }),
            None => None,
        },
        RouteMessage::NewAddress { index, address } => match address {
            Some(a) => match known.get(index) {
                Some(entry) => Some(
                    NetworkEvent::InterfaceAddressChanged {
                        index: *index,
                        name: entry.0.clone(),
                        address: a.clone(),
                    },
                ),
                None => None,
            },
            None => None,
        },
        RouteMessage::DelAddress { index, address } => match address {
            Some(a) => match known.get(index) {
                Some(entry) => {
                    let mut text = "-".to_string();
                    text.append(a.as_str());
                    Some(
                        NetworkEvent::InterfaceAddressChanged {
                            index: *index,
                            name: entry.0.clone(),
                            address: text,
                        },
                    )
                },
                None => None,
            },
            None => None,
        },
        RouteMessage::Other => None,
    }
}

} // verus!

verus! {

/// What a poll saw of one interface: its name and, when its operational
/// state could be read, whether it is up.
pub type PolledInterface = (String, Option<bool>);

/// The counter after one more new interface (it wraps around).
pub open spec fn next_counter(c: u32) -> u32 {
    if c == u32::MAX {
        0
    } else {
        (c + 1) as u32
    }
}

/// One polled interface: a name not seen before is recorded as down and
/// announced with a fresh counter value; a readable state that differs from
/// the recorded one is recorded and announced.
pub open spec fn poll_step(
    known: Map<Seq<char>, bool>,
    counter: u32,
    name: Seq<char>,
    up: Option<bool>,
) -> (Map<Seq<char>, bool>, u32, Seq<NetworkEventView>) {
    let (k1, c1, e1) = if !known.contains_key(name) {
        (
            known.insert(name, false),
            next_counter(counter),
            seq![NetworkEventView::Added { index: next_counter(counter), name }],
        )
    } else {
        (known, counter, Seq::<NetworkEventView>::empty())
    };
    match up {
        Some(u) => if k1[name] != u {
            (k1.insert(name, u), c1, e1.push(NetworkEventView::StateChanged { index: c1, name, is_up: u }))
        } else {
            (k1, c1, e1)
        },
        None => (k1, c1, e1),
    }
}

/// The polled interfaces taken one after the other.
pub open spec fn poll_scan(
    known: Map<Seq<char>, bool>,
    counter: u32,
    obs: Seq<(Seq<char>, Option<bool>)>,
) -> (Map<Seq<char>, bool>, u32, Seq<NetworkEventView>)
    decreases obs.len(),
{
    if obs.len() == 0 {
        (known, counter, Seq::<NetworkEventView>::empty())
    } else {
        let (k, c, e) = poll_scan(known, counter, obs.drop_last());
        let (k2, c2, e2) = poll_step(k, c, obs.last().0, obs.last().1);
        (k2, c2, e + e2)
    }
}

/// The names of a poll.
pub open spec fn polled_names(obs: Seq<(Seq<char>, Option<bool>)>) -> Set<Seq<char>> {
    Set::new(|n: Seq<char>| exists|i: int| 0 <= i < obs.len() && obs[i].0 == n)
}

pub open spec fn polled_view(obs: Seq<PolledInterface>) -> Seq<(Seq<char>, Option<bool>)> {
    obs.map_values(|p: PolledInterface| (p.0@, p.1))
}

pub open spec fn events_view(evs: Seq<NetworkEvent>) -> Seq<NetworkEventView> {
    evs.map_values(|e: NetworkEvent| e@)
}

/// Interface tracking of the polling monitor.
pub struct PollingMonitor {
    known: StrMap<bool>,
    counter: u32,
}

fn polled_contains(obs: &Vec<PolledInterface>, name: &str) -> (r: bool)
    ensures
        r == polled_names(polled_view(obs@)).contains(name@),
{
    let mut i: usize = 0;
    while i < obs.len()
        invariant
            i <= obs@.len(),
            forall|j: int| 0 <= j < i ==> obs@[j].0@ != name@,
        decreases obs@.len() - i,
    {
        if crate::text::eq_str(obs[i].0.as_str(), name) {
            assert(polled_view(obs@)[i as int].0 == name@);
            return true;
        }
        i += 1;
    }
    proof {
        if polled_names(polled_view(obs@)).contains(name@) {
            let j = choose|j: int| 0 <= j < polled_view(obs@).len() && polled_view(obs@)[j].0 == name@;
            assert(obs@[j].0@ == name@);
        }
    }
    false
}

impl PollingMonitor {
    /// Recorded up state of each known interface.
    pub closed spec fn known(&self) -> Map<Seq<char>, bool> {
        self.known@
    }

    /// The counter last handed out.
    pub closed spec fn counter(&self) -> u32 {
        self.counter
    }

    /// A monitor that knows no interface.
    pub fn new() -> (m: Self)
        ensures
            m.known() == Map::<Seq<char>, bool>::empty(),
            m.counter() == 0,
    {
        PollingMonitor { known: StrMap::new(), counter: 0 }
    }

    fn scan(&mut self, obs: &Vec<PolledInterface>, events: &mut Vec<NetworkEvent>)
        requires
            old(events)@.len() == 0,
        ensures
            (final(self).known(), final(self).counter(), events_view(final(events)@)) == poll_scan(
                old(self).known(),
                old(self).counter(),
                polled_view(obs@),
            ),
    {
        let ghost k0 = self.known();
        let ghost c0 = self.counter();
        let mut i: usize = 0;
        while i < obs.len()
            invariant
                i <= obs@.len(),
                (self.known(), self.counter(), events_view(events@)) == poll_scan(
                    k0,
                    c0,
                    polled_view(obs@).take(i as int),
                ),
            decreases obs@.len() - i,
        {
            let ghost pre = polled_view(obs@).take(i as int);
            let ghost ev0 = events_view(events@);
            assert(polled_view(obs@).take(i + 1).drop_last() =~= pre);
            let name = &obs[i].0;
            let up = obs[i].1;
            let ghost st = poll_step(self.known(), self.counter(), name@, up);
            let ghost evs_before = events@;
            if !self.known.contains_key(name.as_str()) {
                self.counter = if self.counter == u32::MAX {
                    0
                } else {
                    self.counter + 1
                };
                self.known.insert(name.as_str(), false);
                events.push(NetworkEvent::InterfaceAdded { index: self.counter, name: name.clone() });
            }
            let ghost evs_mid = events@;
            match up {
                Some(u) => {
                    let cur = self.known.get(name.as_str());
                    match cur {
                        Some(old_up) => {
                            if old_up != u {
                                self.known.insert(name.as_str(), u);
                                events.push(
                                    NetworkEvent::InterfaceStateChanged {
                                        index: self.counter,
                                        name: name.clone(),
                                        is_up: u,
                                    },
                                );
                            }
                        },
                        None => {},
                    }
                },
                None => {},
            }
            proof {
                assert(events_view(events@) =~= ev0 + st.2);
                assert(self.known() =~= st.0);
            }
            i += 1;
        }
        assert(polled_view(obs@).take(obs@.len() as int) =~= polled_view(obs@));
    }

    /// One poll: `obs` lists the interfaces present now.  New interfaces
    /// and changed states are announced in the order of `obs`; then every
    /// known interface that is no longer present is forgotten and
    /// announced as removed, each once, with the counter value reached.
    pub fn poll(&mut self, obs: &Vec<PolledInterface>) -> (events: Vec<NetworkEvent>)
        ensures
            ({
                let (scanned, c, scan_events) = poll_scan(
                    old(self).known(),
                    old(self).counter(),
                    polled_view(obs@),
                );
                let present = polled_names(polled_view(obs@));
                let n = scan_events.len();
                &&& final(self).counter() == c
                &&& final(self).known() == scanned.restrict(present)
                &&& events@.len() >= n
                &&& events_view(events@).take(n as int) == scan_events
                &&& forall|j: int|
                    n <= j < events@.len() ==> ((#[trigger] events@[j])@ matches NetworkEventView::Removed {
                        index,
                        name,
                    } && index == c && scanned.contains_key(name) && !present.contains(name))
                &&& forall|name: Seq<char>|
                    scanned.contains_key(name) && !present.contains(name) ==> exists|j: int|
                        n <= j < events@.len() && (#[trigger] events@[j])@
                            == (NetworkEventView::Removed { index: c, name })
                &&& forall|a: int, b: int|
                    n <= a < events@.len() && n <= b < events@.len() && a != b ==> (
                    #[trigger] events@[a])@ != (#[trigger] events@[b])@
            }),
    {
        let mut events: Vec<NetworkEvent> = Vec::new();
        self.scan(obs, &mut events);
        let ghost scanned = self.known();
        let ghost c = self.counter();
        let ghost ev_scan = events@;
        let ghost n = events@.len() as int;
        let ghost present = polled_names(polled_view(obs@));
        let keys = self.known.keys();
        let ghost mut gone: Set<Seq<char>> = Set::empty();
        let mut i: usize = 0;
        while i < keys.len()
            invariant
                i <= keys@.len(),
                forall|a: int, b: int|
                    0 <= a < keys@.len() && 0 <= b < keys@.len() && a != b ==> #[trigger] keys@[a]@
                        != #[trigger] keys@[b]@,
                forall|k: Seq<char>|
                    #![trigger scanned.contains_key(k)]
                    scanned.contains_key(k) <==> exists|a: int| 0 <= a < keys@.len() && keys@[a]@ == k,
                present == polled_names(polled_view(obs@)),
                self.counter() == c,
                self.known() == scanned.remove_keys(gone),
                forall|k: Seq<char>|
                    #[trigger] gone.contains(k) ==> !present.contains(k) && exists|a: int|
                        0 <= a < i && keys@[a]@ == k,
                forall|a: int|
                    0 <= a < i && !present.contains(#[trigger] keys@[a]@) ==> gone.contains(
                        keys@[a]@,
                    ),
                n <= events@.len(),
                events@.take(n) == ev_scan,
                ev_scan.len() == n,
                forall|j: int|
                    n <= j < events@.len() ==> ((#[trigger] events@[j])@ matches NetworkEventView::Removed {
                        index,
                        name,
                    } && index == c && gone.contains(name)),
                forall|k: Seq<char>|
                    #[trigger] gone.contains(k) ==> exists|j: int|
                        n <= j < events@.len() && events@[j]@ == (NetworkEventView::Removed {
                            index: c,
                            name: k,
                        }),
                forall|x: int, y: int|
                    n <= x < events@.len() && n <= y < events@.len() && x != y ==> (
                    #[trigger] events@[x])@ != (#[trigger] events@[y])@,
            decreases keys@.len() - i,
        {
            let k = &keys[i];
            let ghost before = events@;
            let ghost key = k@;
            assert(!gone.contains(key));
            if !polled_contains(obs, k.as_str()) {
                self.known.remove(k.as_str());
                events.push(NetworkEvent::InterfaceRemoved { index: self.counter, name: k.clone() });
                proof {
                    let last = events@.len() - 1;
                    assert(events@[last]@ == (NetworkEventView::Removed { index: c, name: key }));
                    assert forall|j: int| n <= j < last implies (#[trigger] events@[j])@ != events@[last]@ by {
                        assert(events@[j] == before[j]);
                    }
                    assert(events@.take(n) =~= before.take(n));
                    assert(scanned.remove_keys(gone.insert(key)) =~= scanned.remove_keys(gone).remove(key));
                    gone = gone.insert(key);
                    assert forall|k2: Seq<char>| #[trigger] gone.contains(k2) implies exists|j: int|
                        n <= j < events@.len() && events@[j]@ == (NetworkEventView::Removed {
                            index: c,
                            name: k2,
                        }) by {
                        if k2 != key {
                            let j = choose|j: int| n <= j < before.len() && before[j]@ == (NetworkEventView::Removed {
                                index: c,
                                name: k2,
                            });
                            assert(events@[j] == before[j]);
                        } else {
                            assert(events@[last]@ == (NetworkEventView::Removed { index: c, name: k2 }));
                        }
                    }
                }
            }
            i += 1;
        }
        proof {
            assert forall|k: Seq<char>| scanned.contains_key(k) && !present.contains(k) implies #[trigger] gone.contains(k) by {
                let a = choose|a: int| 0 <= a < keys@.len() && keys@[a]@ == k;
            }
            assert(self.known() =~= scanned.restrict(present));
            assert forall|name: Seq<char>|
                scanned.contains_key(name) && !present.contains(name) implies exists|j: int|
                    n <= j < events@.len() && (#[trigger] events@[j])@
                        == (NetworkEventView::Removed { index: c, name }) by {
                assert(gone.contains(name));
            }
            assert forall|j: int| n <= j < events@.len() implies ((#[trigger] events@[j])@ matches NetworkEventView::Removed {
                        index,
                        name,
                    } && index == c && scanned.contains_key(name) && !present.contains(name)) by {
                if let NetworkEventView::Removed { index, name } = events@[j]@ {
                    assert(gone.contains(name));
                    let a = choose|a: int| 0 <= a < keys@.len() && keys@[a]@ == name;
                }
            }
            assert(events_view(events@).take(n) =~= events_view(events@.take(n)));
        }
        events
    }
}

} // verus!

verus! {

/// A link announced again with the same state reports nothing and leaves
/// the known links as they were.
pub proof fn lemma_new_link_replay(known: Map<u32, (String, bool)>, msg: RouteMessage, after: Map<u32, (String, bool)>)
    requires
        msg matches RouteMessage::NewLink { index, name, is_up } && name is Some,
        route_known_after(known, msg, after),
    ensures
        route_event(after, msg) is None,
{
}

/// A link that is deleted after it was announced is reported removed under
/// the name it was announced with, and forgotten.
pub proof fn lemma_del_after_new(
    known: Map<u32, (String, bool)>,
    index: u32,
    name: String,
    is_up: bool,
    after: Map<u32, (String, bool)>,
)
    requires
        route_known_after(known, RouteMessage::NewLink { index, name: Some(name), is_up }, after),
    ensures
        route_event(after, RouteMessage::DelLink { index }) == Some(
            NetworkEventView::Removed { index, name: name@ },
        ),
        !after.remove(index).contains_key(index),
{
}

proof fn lemma_scan_quiet(known: Map<Seq<char>, bool>, c: u32, obs: Seq<(Seq<char>, Option<bool>)>)
    requires
        forall|i: int|
            0 <= i < obs.len() ==> known.contains_key(#[trigger] obs[i].0) && (obs[i].1 matches Some(
                u,
            ) ==> known[obs[i].0] == u),
    ensures
        poll_scan(known, c, obs) == (known, c, Seq::<NetworkEventView>::empty()),
    decreases obs.len(),
{
    if obs.len() > 0 {
        let init = obs.drop_last();
        assert forall|i: int| 0 <= i < init.len() implies known.contains_key(#[trigger] init[i].0) && (
        init[i].1 matches Some(u) ==> known[init[i].0] == u) by {
            assert(init[i] == obs[i]);
        }
        lemma_scan_quiet(known, c, init);
        assert(obs.last() == obs[obs.len() - 1]);
        assert(Seq::<NetworkEventView>::empty() + Seq::<NetworkEventView>::empty() =~= Seq::<
            NetworkEventView,
        >::empty());
    }
}

/// One polling step records the polled interface (with its state when one
/// was read) and keeps every other known interface as it was.
proof fn lemma_step_records(known: Map<Seq<char>, bool>, c: u32, name: Seq<char>, up: Option<bool>)
    ensures
        poll_step(known, c, name, up).0.contains_key(name),
        up matches Some(u) ==> poll_step(known, c, name, up).0[name] == u,
        forall|n: Seq<char>|
            n != name && #[trigger] known.contains_key(n) ==> poll_step(known, c, name, up).0.contains_key(n)
                && poll_step(known, c, name, up).0[n] == known[n],
{
}

proof fn lemma_scan_records(known: Map<Seq<char>, bool>, c: u32, obs: Seq<(Seq<char>, Option<bool>)>)
    requires
        forall|i: int, j: int| 0 <= i < obs.len() && 0 <= j < obs.len() && i != j ==> #[trigger] obs[i].0 != #[trigger] obs[j].0,
    ensures
        forall|i: int|
            0 <= i < obs.len() ==> poll_scan(known, c, obs).0.contains_key(#[trigger] obs[i].0) && (
            obs[i].1 matches Some(u) ==> poll_scan(known, c, obs).0[obs[i].0] == u),
        forall|n: Seq<char>| known.contains_key(n) ==> #[trigger] poll_scan(known, c, obs).0.contains_key(n),
    decreases obs.len(),
{
    if obs.len() > 0 {
        let init = obs.drop_last();
        assert forall|i: int, j: int| 0 <= i < init.len() && 0 <= j < init.len() && i != j implies #[trigger] init[i].0 != #[trigger] init[j].0 by {
            assert(init[i] == obs[i]);
            assert(init[j] == obs[j]);
        }
        lemma_scan_records(known, c, init);
        let before = poll_scan(known, c, init);
        let k = before.0;
        let last = obs.len() - 1;
        let name = obs[last].0;
        let up = obs[last].1;
        assert(obs.last() == obs[last]);
        let after = poll_step(k, before.1, name, up).0;
        assert(poll_scan(known, c, obs).0 == after);
        lemma_step_records(k, before.1, name, up);
        assert forall|i: int| 0 <= i < obs.len() implies after.contains_key(#[trigger] obs[i].0) && (
            obs[i].1 matches Some(u) ==> after[obs[i].0] == u) by {
            if i < last {
                assert(init[i] == obs[i]);
                assert(obs[i].0 != name);
                assert(k.contains_key(init[i].0));
            }
        }
        assert forall|n: Seq<char>| known.contains_key(n) implies #[trigger] after.contains_key(n) by {
            assert(k.contains_key(n));
        }
    }
}

/// Polling again when nothing changed reports nothing: after a poll of
/// interfaces with distinct names, a second poll of the same interfaces
/// finds every one of them known with the state it has, and no known
/// interface missing.
pub proof fn lemma_poll_twice(known: Map<Seq<char>, bool>, c: u32, obs: Seq<(Seq<char>, Option<bool>)>)
    requires
        forall|i: int, j: int| 0 <= i < obs.len() && 0 <= j < obs.len() && i != j ==> #[trigger] obs[i].0 != #[trigger] obs[j].0,
    ensures
        ({
            let (k1, c1, e1) = poll_scan(known, c, obs);
            let k = k1.restrict(polled_names(obs));
            &&& poll_scan(k, c1, obs) == (k, c1, Seq::<NetworkEventView>::empty())
            &&& k.restrict(polled_names(obs)) == k
        }),
{
    let (k1, c1, e1) = poll_scan(known, c, obs);
    let k = k1.restrict(polled_names(obs));
    lemma_scan_records(known, c, obs);
    assert forall|i: int|
        0 <= i < obs.len() implies k.contains_key(#[trigger] obs[i].0) && (obs[i].1 matches Some(
            u,
        ) ==> k[obs[i].0] == u) by {
        assert(polled_names(obs).contains(obs[i].0));
    }
    lemma_scan_quiet(k, c1, obs);
    assert(k.restrict(polled_names(obs)) =~= k);
}

} // verus!
