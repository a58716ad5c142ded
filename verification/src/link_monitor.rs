//! Network link state monitoring
//!
//! Tracks the link state (up/down) of the interfaces it is told to watch,
//! reports each change once, and decides whether a change starts or stops
//! the DHCP client of the interface.  Observing links and running the DHCP
//! client is left to the caller.

use vstd::prelude::*;
use crate::strmap::StrMap;
use crate::network_monitor::{NetworkEvent, NetworkEventView};

verus! {

/// Link state
#[derive(Debug, Clone, Copy, PartialEq, Eq, Structural)]
pub enum LinkState {
    /// Link is down
    Down,
    /// Link is up (carrier detected)
    Up,
    /// Link state unknown
    Unknown,
}

/// Link state change event
#[derive(Debug, Clone)]
pub struct LinkStateEvent {
    /// Interface name
    pub interface: String,
    /// New link state
    pub state: LinkState,
    /// Previous link state
    pub previous_state: LinkState,
}

/// Configuration for an interface
#[derive(Debug, Clone)]
pub struct InterfaceConfig {
    /// Interface name
    pub interface: String,
    /// Whether to auto-start DHCP when link comes up
    pub auto_dhcp: bool,
}

/// What a link change asks of the DHCP client of the interface.
#[derive(Debug, Clone, Copy, PartialEq, Eq, Structural)]
pub enum DhcpAction {
    /// Leave it as it is.
    Keep,
    /// Start it (the link came up).
    Start,
    /// Release the lease and stop it (the link went down).
    Stop,
}

/// The link state a query of the interface gives: `Some(up)` when the
/// query succeeded, `None` when it failed.
pub open spec fn state_of_query(q: Option<bool>) -> LinkState {
    match q {
        Some(true) => LinkState::Up,
        Some(false) => LinkState::Down,
        None => LinkState::Unknown,
    }
}

/// The link state of a query result.
pub fn link_state_of(q: Option<bool>) -> (s: LinkState)
    ensures
        s == state_of_query(q),
{
    match q {
        Some(true) => LinkState::Up,
        Some(false) => LinkState::Down,
        None => LinkState::Unknown,
    }
}

/// The state recorded for an interface, `Unknown` when none is.
pub open spec fn recorded(states: Map<Seq<char>, LinkState>, name: Seq<char>) -> LinkState {
    if states.contains_key(name) {
        states[name]
    } else {
        LinkState::Unknown
    }
}

/// The DHCP action for a change of `name` from `prev` to `state`: only a
/// change between down and up, on an interface configured for automatic
/// DHCP, starts or stops the client.
pub open spec fn dhcp_action_for(
    configs: Map<Seq<char>, bool>,
    name: Seq<char>,
    state: LinkState,
    prev: LinkState,
) -> DhcpAction {
    if configs.contains_key(name) && configs[name] {
        if state == LinkState::Up && prev == LinkState::Down {
            DhcpAction::Start
        } else if state == LinkState::Down && prev == LinkState::Up {
            DhcpAction::Stop
        } else {
            DhcpAction::Keep
        }
    } else {
        DhcpAction::Keep
    }
}

/// A reported change: interface, new state, previous state.
pub type Change = (Seq<char>, LinkState, LinkState);

/// The monitor after an observation `state` of a watched interface: the
/// state is recorded, and reported only when it differs from the recorded
/// one.
pub open spec fn observe(
    states: Map<Seq<char>, LinkState>,
    name: Seq<char>,
    state: LinkState,
) -> (Map<Seq<char>, LinkState>, Option<Change>) {
    let prev = recorded(states, name);
    if state != prev {
        (states.insert(name, state), Some((name, state, prev)))
    } else {
        (states, None)
    }
}

/// The monitor after a network event: state changes of watched interfaces
/// are observed, a removed interface loses its recorded state, everything
/// else is ignored.
pub open spec fn on_event(
    states: Map<Seq<char>, LinkState>,
    configs: Map<Seq<char>, bool>,
    e: NetworkEventView,
) -> (Map<Seq<char>, LinkState>, Option<Change>) {
    match e {
        NetworkEventView::StateChanged { index: _, name, is_up } => if configs.contains_key(name) {
            observe(states, name, if is_up { LinkState::Up } else { LinkState::Down })
        } else {
            (states, None)
        },
        NetworkEventView::Removed { index: _, name } => (states.remove(name), None),
        _ => (states, None),
    }
}

/// The change a link event reports.
pub open spec fn event_change(e: LinkStateEvent) -> Change {
    (e.interface@, e.state, e.previous_state)
}

/// What a monitor step reports: the change, if any, and its DHCP action.
pub open spec fn reported(
    r: Option<(LinkStateEvent, DhcpAction)>,
    configs: Map<Seq<char>, bool>,
    change: Option<Change>,
) -> bool {
    match change {
        Some(ch) => r matches Some((ev, act)) && event_change(ev) == ch && act == dhcp_action_for(
            configs,
            ch.0,
            ch.1,
            ch.2,
        ),
        None => r is None,
    }
}

/// Link states and configurations of the watched interfaces.
pub struct LinkMonitorState {
    link_states: StrMap<LinkState>,
    interface_configs: StrMap<bool>,
}

impl LinkMonitorState {
    /// Recorded link state of each interface.
    pub closed spec fn states(&self) -> Map<Seq<char>, LinkState> {
        self.link_states@
    }

    /// Watched interfaces and whether each starts DHCP automatically.
    pub closed spec fn configs(&self) -> Map<Seq<char>, bool> {
        self.interface_configs@
    }

    /// A monitor that watches nothing.
    pub fn new() -> (m: Self)
        ensures
            m.states() == Map::<Seq<char>, LinkState>::empty(),
            m.configs() == Map::<Seq<char>, bool>::empty(),
    {
        LinkMonitorState { link_states: StrMap::new(), interface_configs: StrMap::new() }
    }

    /// Add an interface to monitor, with the link state it has now.
    pub fn add_interface(&mut self, config: &InterfaceConfig, state: LinkState)
        ensures
            final(self).states() == old(self).states().insert(config.interface@, state),
            final(self).configs() == old(self).configs().insert(config.interface@, config.auto_dhcp),
    {
        self.link_states.insert(config.interface.as_str(), state);
        self.interface_configs.insert(config.interface.as_str(), config.auto_dhcp);
    }

    /// Remove an interface from monitoring
    pub fn remove_interface(&mut self, interface: &str)
        ensures
            final(self).states() == old(self).states().remove(interface@),
            final(self).configs() == old(self).configs().remove(interface@),
    {
        self.link_states.remove(interface);
        self.interface_configs.remove(interface);
    }

    /// Whether the interface is watched.
    pub fn is_monitored(&self, interface: &str) -> (r: bool)
        ensures
            r == self.configs().contains_key(interface@),
    {
        self.interface_configs.contains_key(interface)
    }

    /// The watched interfaces.
    pub fn monitored_interfaces(&self) -> (r: Vec<String>)
        ensures
            forall|k: Seq<char>|
                #![trigger self.configs().contains_key(k)]
                self.configs().contains_key(k) <==> exists|i: int| 0 <= i < r@.len() && r@[i]@ == k,
            forall|i: int, j: int|
                0 <= i < r@.len() && 0 <= j < r@.len() && i != j ==> #[trigger] r@[i]@
                    != #[trigger] r@[j]@,
    {
        self.interface_configs.keys()
    }

    /// The recorded link state of an interface (`Unknown` when none is).
    pub fn recorded_state(&self, interface: &str) -> (s: LinkState)
        ensures
            s == recorded(self.states(), interface@),
    {
        match self.link_states.get(interface) {
            Some(s) => s,
            None => LinkState::Unknown,
        }
    }

    /// Get current link states
    pub fn get_link_states(&self) -> (r: Vec<(String, LinkState)>)
        ensures
            forall|i: int|
                0 <= i < r@.len() ==> self.states().contains_key(#[trigger] r@[i].0@)
                    && self.states()[r@[i].0@] == r@[i].1,
            forall|k: Seq<char>|
                #![trigger self.states().contains_key(k)]
                self.states().contains_key(k) ==> exists|i: int| 0 <= i < r@.len() && r@[i].0@ == k,
    {
        self.link_states.to_vec()
    }

    /// The DHCP action a reported change asks for.
    pub fn state_change_action(&self, event: &LinkStateEvent) -> (a: DhcpAction)
        ensures
            a == dhcp_action_for(
                self.configs(),
                event.interface@,
                event.state,
                event.previous_state,
            ),
    {
        match self.interface_configs.get(event.interface.as_str()) {
            None => DhcpAction::Keep,
            Some(auto_dhcp) => {
                if !auto_dhcp {
                    DhcpAction::Keep
                } else {
                    match event.state {
                        LinkState::Up => if event.previous_state == LinkState::Down {
                            DhcpAction::Start
                        } else {
                            DhcpAction::Keep
                        },
                        LinkState::Down => if event.previous_state == LinkState::Up {
                            DhcpAction::Stop
                        } else {
                            DhcpAction::Keep
                        },
                        LinkState::Unknown => DhcpAction::Keep,
                    }
                }
            },
        }
    }

    fn record(&mut self, interface: &str, state: LinkState) -> (r: Option<(LinkStateEvent, DhcpAction)>)
        ensures
            final(self).states() == observe(old(self).states(), interface@, state).0,
            final(self).configs() == old(self).configs(),
            reported(r, old(self).configs(), observe(old(self).states(), interface@, state).1),
    {
        let previous_state = self.recorded_state(interface);
        if state != previous_state {
            self.link_states.insert(interface, state);
            let event = LinkStateEvent {
                interface: interface.to_string(),
                state,
                previous_state,
            };
            let action = self.state_change_action(&event);
            Some((event, action))
        } else {
            None
        }
    }

    /// Check an interface whose link state was just read (polling mode):
    /// a state different from the recorded one is recorded and reported,
    /// with the DHCP action it asks for.
    pub fn check_interface(&mut self, interface: &str, current_state: LinkState) -> (r: Option<
        (LinkStateEvent, DhcpAction),
    >)
        ensures
            final(self).states() == observe(old(self).states(), interface@, current_state).0,
            final(self).configs() == old(self).configs(),
            reported(r, old(self).configs(), observe(old(self).states(), interface@, current_state).1),
    {
        self.record(interface, current_state)
    }

    /// Handle a network event: a state change of a watched interface is
    /// recorded and reported as `check_interface` does; the removal of an
    /// interface drops its recorded state; other events change nothing.
    pub fn handle_network_event(&mut self, event: &NetworkEvent) -> (r: Option<
        (LinkStateEvent, DhcpAction),
    >)
        ensures
            final(self).states() == on_event(old(self).states(), old(self).configs(), event@).0,
            final(self).configs() == old(self).configs(),
            reported(r, old(self).configs(), on_event(old(self).states(), old(self).configs(), event@).1),
    {
        match event {
            NetworkEvent::InterfaceStateChanged { index: _, name, is_up } => {
                if !self.interface_configs.contains_key(name.as_str()) {
                    return None;
                }
                let new_state = if *is_up {
                    LinkState::Up
                } else {
                    LinkState::Down
                };
                self.record(name.as_str(), new_state)
            },
            NetworkEvent::InterfaceRemoved { index: _, name } => {
                self.link_states.remove(name.as_str());
                None
            },
            _ => None,
        }
    }
}

} // verus!

verus! {

/// After an observation, the recorded state of the interface is the
/// observed one, and a change is reported exactly when the observed state
/// differs from the state recorded before.
pub proof fn lemma_observe_records(states: Map<Seq<char>, LinkState>, name: Seq<char>, s: LinkState)
    ensures
        recorded(observe(states, name, s).0, name) == s,
        observe(states, name, s).1 is Some <==> s != recorded(states, name),
        forall|other: Seq<char>|
            other != name ==> recorded(observe(states, name, s).0, other) == recorded(states, other),
{
}

/// Observing the same state twice reports at most once: the second
/// observation changes nothing and reports nothing.
pub proof fn lemma_observe_twice(states: Map<Seq<char>, LinkState>, name: Seq<char>, s: LinkState)
    ensures
        observe(observe(states, name, s).0, name, s).1 is None,
        observe(observe(states, name, s).0, name, s).0 == observe(states, name, s).0,
{
}

/// Only a change between down and up, on an interface configured for
/// automatic DHCP, acts on the DHCP client: up from down starts it, down
/// from up stops it.
pub proof fn lemma_dhcp_action(
    configs: Map<Seq<char>, bool>,
    name: Seq<char>,
    state: LinkState,
    prev: LinkState,
)
    ensures
        dhcp_action_for(configs, name, state, prev) == DhcpAction::Start <==> (configs.contains_key(
            name,
        ) && configs[name] && state == LinkState::Up && prev == LinkState::Down),
        dhcp_action_for(configs, name, state, prev) == DhcpAction::Stop <==> (configs.contains_key(
            name,
        ) && configs[name] && state == LinkState::Down && prev == LinkState::Up),
{
}

/// A state change of an interface that is not watched changes nothing and
/// reports nothing.
pub proof fn lemma_unwatched_ignored(
    states: Map<Seq<char>, LinkState>,
    configs: Map<Seq<char>, bool>,
    e: NetworkEventView,
)
    requires
        e matches NetworkEventView::StateChanged { index, name, is_up } && !configs.contains_key(name),
    ensures
        on_event(states, configs, e) == (states, None::<Change>),
{
}

/// A state change of a watched interface records the new state; replaying
/// the same event reports nothing more.
pub proof fn lemma_event_replay(
    states: Map<Seq<char>, LinkState>,
    configs: Map<Seq<char>, bool>,
    e: NetworkEventView,
)
    requires
        e is StateChanged,
    ensures
        on_event(on_event(states, configs, e).0, configs, e).1 is None,
        on_event(on_event(states, configs, e).0, configs, e).0 == on_event(states, configs, e).0,
{
}

} // verus!
