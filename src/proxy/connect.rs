use vstd::prelude::*;

verus! {

/// The authority (`host:port`) of a request target, where the target parses as
/// a URI that has one.
pub uninterp spec fn authority_of(target: Seq<char>) -> Option<Seq<char>>;

/// Relies on hyper::Uri's parser (the `http` crate's `Uri::from_str` and
/// `Uri::authority`): the authority depends on the text alone, and a target
/// that is empty or begins with `/` parses to no authority or not at all.
#[verifier::external_body]
fn uri_authority(target: &str) -> (r: Option<String>)
    ensures
        match r {
            Some(a) => authority_of(target@) == Some(a@),
            None => authority_of(target@) is None,
        },
        target@.len() == 0 || target@[0] == '/' ==> r is None,
{
    target.parse::<hyper::Uri>().ok().and_then(|u| u.authority().map(|a| a.to_string()))
}

/// How the proxy answers a `CONNECT`.
#[derive(Debug)]
pub struct ConnectReply {
    pub status: u16,
    pub body: String,
    /// Where to open the tunnel once the connection is upgraded.
    pub tunnel_to: Option<String>,
}

pub open spec fn bad_target_text() -> Seq<char> {
    "CONNECT must be to a socket address"@
}

/// Answers a `CONNECT` whose target has the given authority: `200` with an
/// empty body and a tunnel to that authority, or `400` with a diagnostic body
/// and no tunnel where there is none.
pub fn reply_for(authority: Option<String>) -> (r: ConnectReply)
    ensures
        match authority {
            Some(a) => r.status == 200 && r.body@.len() == 0 && r.tunnel_to == Some(a),
            None => r.status == 400 && r.body@ == bad_target_text() && r.tunnel_to is None,
        },
{
    match authority {
        Some(a) => ConnectReply { status: 200, body: String::new(), tunnel_to: Some(a) },
        None => {
            proof {
                reveal_strlit("CONNECT must be to a socket address");
            }
            ConnectReply {
                status: 400,
                body: "CONNECT must be to a socket address".to_owned(),
                tunnel_to: None,
            }
        },
    }
}

/// Answers a `CONNECT` to `target`.
pub fn handle(target: &str) -> (r: ConnectReply)
    ensures
        match authority_of(target@) {
            Some(a) => r.status == 200 && r.body@.len() == 0 && r.tunnel_to is Some
                && r.tunnel_to->0@ == a,
            None => r.status == 400 && r.body@ == bad_target_text() && r.tunnel_to is None,
        },
        target@.len() == 0 || target@[0] == '/' ==> r.status == 400,
{
    reply_for(uri_authority(target))
}

/// The phases of one tunnel.
#[derive(Debug, PartialEq, Eq, Structural, Clone, Copy)]
pub enum TunnelState {
    /// `200` has been sent; the client connection is not yet upgraded.
    AwaitingUpgrade,
    /// The connection is upgraded; the target is being dialled.
    Connecting,
    /// Bytes flow both ways.
    Relaying,
    /// Both sides are closed.
    Closed,
}

/// What happened to a tunnel.
#[derive(Debug, PartialEq, Eq, Structural, Clone, Copy)]
pub enum TunnelEvent {
    Upgraded,
    UpgradeFailed,
    TargetConnected,
    TargetUnreachable,
    RelayFinished,
    RelayFailed,
}

/// What the relay task does next.
#[derive(Debug, PartialEq, Eq, Structural, Clone, Copy)]
pub enum TunnelAction {
    /// Open a connection to the tunnel's target.
    OpenTarget,
    /// Copy bytes both ways until one side ends.
    Relay,
    /// Close both sides.
    Close,
    /// Log the failure, then close both sides.
    LogAndClose,
    /// Nothing to do.
    Wait,
}

/// The transition table of a tunnel. An event that does not belong to the
/// state leaves it as it is.
pub open spec fn tunnel_step(s: TunnelState, e: TunnelEvent) -> (TunnelState, TunnelAction) {
    match (s, e) {
        (TunnelState::AwaitingUpgrade, TunnelEvent::Upgraded) => (TunnelState::Connecting, TunnelAction::OpenTarget),
        (TunnelState::AwaitingUpgrade, TunnelEvent::UpgradeFailed) => (TunnelState::Closed, TunnelAction::LogAndClose),
        (TunnelState::Connecting, TunnelEvent::TargetConnected) => (TunnelState::Relaying, TunnelAction::Relay),
        (TunnelState::Connecting, TunnelEvent::TargetUnreachable) => (TunnelState::Closed, TunnelAction::LogAndClose),
        (TunnelState::Relaying, TunnelEvent::RelayFinished) => (TunnelState::Closed, TunnelAction::Close),
        (TunnelState::Relaying, TunnelEvent::RelayFailed) => (TunnelState::Closed, TunnelAction::LogAndClose),
        _ => (s, TunnelAction::Wait),
    }
}

/// Advances a tunnel by one event.
pub fn step(s: TunnelState, e: TunnelEvent) -> (r: (TunnelState, TunnelAction))
    ensures
        r == tunnel_step(s, e),
        s == TunnelState::Closed ==> r.0 == TunnelState::Closed && r.1 == TunnelAction::Wait,
        r.0 == TunnelState::Relaying ==> s == TunnelState::Connecting || s == TunnelState::Relaying,
{
    match (s, e) {
        (TunnelState::AwaitingUpgrade, TunnelEvent::Upgraded) => (TunnelState::Connecting, TunnelAction::OpenTarget),
        (TunnelState::AwaitingUpgrade, TunnelEvent::UpgradeFailed) => (TunnelState::Closed, TunnelAction::LogAndClose),
        (TunnelState::Connecting, TunnelEvent::TargetConnected) => (TunnelState::Relaying, TunnelAction::Relay),
        (TunnelState::Connecting, TunnelEvent::TargetUnreachable) => (TunnelState::Closed, TunnelAction::LogAndClose),
        (TunnelState::Relaying, TunnelEvent::RelayFinished) => (TunnelState::Closed, TunnelAction::Close),
        (TunnelState::Relaying, TunnelEvent::RelayFailed) => (TunnelState::Closed, TunnelAction::LogAndClose),
        _ => (s, TunnelAction::Wait),
    }
}

/// The state a tunnel reaches from `s` through `events`, in order.
pub open spec fn tunnel_run(s: TunnelState, events: Seq<TunnelEvent>) -> TunnelState
    decreases events.len(),
{
    if events.len() == 0 {
        s
    } else {
        tunnel_run(tunnel_step(s, events[0]).0, events.drop_first())
    }
}

/// A closed tunnel stays closed, whatever happens after.
pub proof fn lemma_closed_stays_closed(events: Seq<TunnelEvent>)
    ensures
        tunnel_run(TunnelState::Closed, events) == TunnelState::Closed,
    decreases events.len(),
{
    if events.len() > 0 {
        lemma_closed_stays_closed(events.drop_first());
    }
}

/// A tunnel relays bytes only after the client connection was upgraded and the
/// target was reached.
pub proof fn lemma_relay_needs_upgrade_and_target(events: Seq<TunnelEvent>)
    requires
        tunnel_run(TunnelState::AwaitingUpgrade, events) == TunnelState::Relaying,
    ensures
        events.contains(TunnelEvent::Upgraded),
        events.contains(TunnelEvent::TargetConnected),
    decreases events.len(),
{
    let first = events[0];
    let rest = events.drop_first();
    let next = tunnel_step(TunnelState::AwaitingUpgrade, first).0;
    if next == TunnelState::AwaitingUpgrade {
        lemma_relay_needs_upgrade_and_target(rest);
        assert(events[rest.index_of(TunnelEvent::Upgraded) + 1] == TunnelEvent::Upgraded);
        assert(events[rest.index_of(TunnelEvent::TargetConnected) + 1] == TunnelEvent::TargetConnected);
    } else if next == TunnelState::Closed {
        lemma_closed_stays_closed(rest);
    } else {
        assert(first == TunnelEvent::Upgraded);
        assert(events[0] == TunnelEvent::Upgraded);
        lemma_connecting_relay_needs_target(rest);
        assert(events[rest.index_of(TunnelEvent::TargetConnected) + 1] == TunnelEvent::TargetConnected);
    }
}

proof fn lemma_connecting_relay_needs_target(events: Seq<TunnelEvent>)
    requires
        tunnel_run(TunnelState::Connecting, events) == TunnelState::Relaying,
    ensures
        events.contains(TunnelEvent::TargetConnected),
    decreases events.len(),
{
    let first = events[0];
    let rest = events.drop_first();
    let next = tunnel_step(TunnelState::Connecting, first).0;
    if next == TunnelState::Connecting {
        lemma_connecting_relay_needs_target(rest);
        assert(events[rest.index_of(TunnelEvent::TargetConnected) + 1] == TunnelEvent::TargetConnected);
    } else if next == TunnelState::Closed {
        lemma_closed_stays_closed(rest);
    } else {
        assert(events[0] == TunnelEvent::TargetConnected);
    }
}

} // verus!
