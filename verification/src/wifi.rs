use vstd::prelude::*;

verus! {

/// Pause after a failed connection attempt, in milliseconds.
pub const RECONNECT_DELAY_MS: u64 = 5000;

/// Seed of the network stack from two 32-bit random words: `low` fills the
/// low half and `high` the high half.
pub fn net_seed(low: u32, high: u32) -> (seed: u64)
    ensures
        seed == low as int + high as int * 0x1_0000_0000,
{
    let lo = low as u64;
    let hi = high as u64;
    let seed = lo | (hi << 32u64);
    assert(seed == lo + hi * 0x1_0000_0000) by (bit_vector)
        requires
            lo <= 0xffff_ffff,
            hi <= 0xffff_ffff,
            seed == lo | (hi << 32u64),
    ;
    seed
}

/// The seed gives back both random words: the low 32 bits are `low`, the
/// high 32 bits are `high`.
pub proof fn lemma_net_seed_halves(low: u32, high: u32, seed: u64)
    requires
        seed == low as int + high as int * 0x1_0000_0000,
    ensures
        seed as u32 == low,
        seed >> 32u64 == high,
{
    let l = low as u64;
    let h = high as u64;
    assert(seed == l + h * 0x1_0000_0000);
    assert(seed as u32 == l as u32 && seed >> 32u64 == h) by (bit_vector)
        requires
            l <= 0xffff_ffff,
            h <= 0xffff_ffff,
            seed == l + h * 0x1_0000_0000,
    ;
}

/// Where the station's connection loop stands.
#[derive(Clone, Copy, Debug, PartialEq, Eq, Structural)]
pub enum LinkState {
    /// A connection attempt is under way.
    Connecting,
    /// Connected: waiting for a disconnection or an access-point event.
    Connected,
    /// The last attempt failed: waiting before the next one.
    Backoff,
}

/// What the Wi-Fi controller reported.
#[derive(Clone, Copy, Debug, PartialEq, Eq, Structural)]
pub enum LinkEvent {
    /// The connection attempt succeeded.
    ConnectSucceeded,
    /// The connection attempt failed.
    ConnectFailed,
    /// The station was disconnected.
    StationDisconnected,
    /// Waiting for a disconnection failed.
    DisconnectWaitFailed,
    /// A station connected to or left the access point, or waiting for
    /// such an event failed.
    AccessPointEvent,
    /// The pause after a failed attempt is over.
    BackoffElapsed,
}

/// The work the firmware must do next.
#[derive(Clone, Copy, Debug, PartialEq, Eq, Structural)]
pub enum LinkAction {
    /// Start a connection attempt.
    Connect,
    /// Wait for a disconnection or an access-point event.
    WatchEvents,
    /// Sleep for the given number of milliseconds.
    Sleep(u64),
}

/// The action that goes with each state.
pub open spec fn action_of(state: LinkState) -> LinkAction {
    match state {
        LinkState::Connecting => LinkAction::Connect,
        LinkState::Connected => LinkAction::WatchEvents,
        LinkState::Backoff => LinkAction::Sleep(RECONNECT_DELAY_MS),
    }
}

/// The state after `event` in `state`. An event that cannot come in a
/// state leaves the state as it is.
pub open spec fn next_link_state(state: LinkState, event: LinkEvent) -> LinkState {
    match (state, event) {
        (LinkState::Connecting, LinkEvent::ConnectSucceeded) => LinkState::Connected,
        (LinkState::Connecting, LinkEvent::ConnectFailed) => LinkState::Backoff,
        (LinkState::Connected, LinkEvent::StationDisconnected) => LinkState::Connecting,
        (LinkState::Backoff, LinkEvent::BackoffElapsed) => LinkState::Connecting,
        _ => state,
    }
}

/// Keeps the station connected: connects, watches the link while it is up,
/// reconnects when it drops and pauses after a failed attempt.
pub struct LinkSupervisor {
    pub state: LinkState,
}

impl LinkSupervisor {
    /// A supervisor that starts with a connection attempt.
    pub fn new() -> (res: LinkSupervisor)
        ensures
            res.state == LinkState::Connecting,
    {
        LinkSupervisor { state: LinkState::Connecting }
    }

    /// The action of the current state; for a new supervisor, a connection
    /// attempt.
    pub fn action(&self) -> (action: LinkAction)
        ensures
            action == action_of(self.state),
    {
        match self.state {
            LinkState::Connecting => LinkAction::Connect,
            LinkState::Connected => LinkAction::WatchEvents,
            LinkState::Backoff => LinkAction::Sleep(RECONNECT_DELAY_MS),
        }
    }

    /// Takes in what the controller reported and answers with the next
    /// action.
    pub fn on_event(&mut self, event: LinkEvent) -> (action: LinkAction)
        ensures
            final(self).state == next_link_state(old(self).state, event),
            action == action_of(final(self).state),
    {
        let next = match (self.state, event) {
            (LinkState::Connecting, LinkEvent::ConnectSucceeded) => LinkState::Connected,
            (LinkState::Connecting, LinkEvent::ConnectFailed) => LinkState::Backoff,
            (LinkState::Connected, LinkEvent::StationDisconnected) => LinkState::Connecting,
            (LinkState::Backoff, LinkEvent::BackoffElapsed) => LinkState::Connecting,
            (s, _) => s,
        };
        self.state = next;
        self.action()
    }
}

/// The whole transition table of the link supervisor: a connection attempt
/// ends connected on success and pausing on failure, a connected link is
/// left only on a disconnection, which starts a new attempt, and a pause
/// ends only when it has elapsed, with a new attempt. Each state asks for
/// its own work: an attempt, watching the link, or a pause of 5000 ms.
pub proof fn lemma_link_transition_table(event: LinkEvent)
    ensures
        next_link_state(LinkState::Connecting, event) == (if event == LinkEvent::ConnectSucceeded {
            LinkState::Connected
        } else if event == LinkEvent::ConnectFailed {
            LinkState::Backoff
        } else {
            LinkState::Connecting
        }),
        next_link_state(LinkState::Connected, event) == (if event
            == LinkEvent::StationDisconnected {
            LinkState::Connecting
        } else {
            LinkState::Connected
        }),
        next_link_state(LinkState::Backoff, event) == (if event == LinkEvent::BackoffElapsed {
            LinkState::Connecting
        } else {
            LinkState::Backoff
        }),
        action_of(LinkState::Connecting) == LinkAction::Connect,
        action_of(LinkState::Connected) == LinkAction::WatchEvents,
        action_of(LinkState::Backoff) == LinkAction::Sleep(5000),
{
}

/// A failed attempt is always followed by a pause of five seconds and then a
/// new attempt; a dropped link is always followed by a new attempt.
pub proof fn lemma_link_always_retries()
    ensures
        next_link_state(LinkState::Connecting, LinkEvent::ConnectFailed) == LinkState::Backoff,
        action_of(LinkState::Backoff) == LinkAction::Sleep(5000),
        next_link_state(LinkState::Backoff, LinkEvent::BackoffElapsed) == LinkState::Connecting,
        next_link_state(LinkState::Connected, LinkEvent::StationDisconnected)
            == LinkState::Connecting,
        action_of(LinkState::Connecting) == LinkAction::Connect,
{
}

/// While connected, nothing but a disconnection leaves the connected state.
pub proof fn lemma_connected_until_disconnected(event: LinkEvent)
    requires
        event != LinkEvent::StationDisconnected,
    ensures
        next_link_state(LinkState::Connected, event) == LinkState::Connected,
{
}

} // verus!
