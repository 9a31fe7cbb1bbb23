use onryou::proxy::connect::{self, TunnelAction, TunnelEvent, TunnelState};
use onryou::proxy::post::EnvelopeError;
use onryou::proxy::{envelope_error, handle_request, status_of, ProxyError, Route};

#[test]
fn connect_goes_to_tunnel() {
    assert_eq!(handle_request(b"CONNECT"), Route::Tunnel);
}

#[test]
fn post_goes_to_interceptor() {
    assert_eq!(handle_request(b"POST"), Route::Intercept);
}

#[test]
fn other_methods_pass_through() {
    assert_eq!(handle_request(b"GET"), Route::Passthrough);
    assert_eq!(handle_request(b"PUT"), Route::Passthrough);
    assert_eq!(handle_request(b"post"), Route::Passthrough);
    assert_eq!(handle_request(b""), Route::Passthrough);
}

#[test]
fn error_statuses() {
    assert_eq!(status_of(ProxyError::TargetParse), 400);
    assert_eq!(status_of(ProxyError::UpstreamConnect), 502);
    assert_eq!(status_of(ProxyError::UpstreamHandshake), 502);
    assert_eq!(status_of(ProxyError::BodyRead), 502);
    assert_eq!(status_of(ProxyError::JsonParse), 502);
    assert_eq!(status_of(ProxyError::MalformedEnvelope), 502);
}

#[test]
fn envelope_errors_map_to_request_errors() {
    assert_eq!(envelope_error(EnvelopeError::NotJson), ProxyError::JsonParse);
    assert_eq!(envelope_error(EnvelopeError::MissingAction), ProxyError::MalformedEnvelope);
    assert_eq!(envelope_error(EnvelopeError::ActionNotString), ProxyError::MalformedEnvelope);
}

#[test]
fn connect_to_relative_path_is_bad_request() {
    let r = connect::handle("/relative/path");
    assert_eq!(r.status, 400);
    assert_eq!(r.body, "CONNECT must be to a socket address");
    assert!(r.tunnel_to.is_none());
}

#[test]
fn connect_to_empty_target_is_bad_request() {
    let r = connect::handle("");
    assert_eq!(r.status, 400);
    assert!(r.tunnel_to.is_none());
}

#[test]
fn connect_to_authority_opens_tunnel() {
    let r = connect::handle("example.com:443");
    assert_eq!(r.status, 200);
    assert_eq!(r.body, "");
    assert_eq!(r.tunnel_to, Some("example.com:443".to_string()));
}

#[test]
fn connect_takes_authority_out_of_absolute_uri() {
    let r = connect::handle("http://example.com:80/some/path");
    assert_eq!(r.status, 200);
    assert_eq!(r.tunnel_to, Some("example.com:80".to_string()));
}

#[test]
fn reply_for_without_authority() {
    let r = connect::reply_for(None);
    assert_eq!(r.status, 400);
    let r = connect::reply_for(Some("h:1".to_string()));
    assert_eq!(r.status, 200);
    assert_eq!(r.tunnel_to, Some("h:1".to_string()));
}

#[test]
fn tunnel_runs_through_its_phases() {
    let (s, a) = connect::step(TunnelState::AwaitingUpgrade, TunnelEvent::Upgraded);
    assert_eq!((s, a), (TunnelState::Connecting, TunnelAction::OpenTarget));
    let (s, a) = connect::step(s, TunnelEvent::TargetConnected);
    assert_eq!((s, a), (TunnelState::Relaying, TunnelAction::Relay));
    let (s, a) = connect::step(s, TunnelEvent::RelayFinished);
    assert_eq!((s, a), (TunnelState::Closed, TunnelAction::Close));
    let (s, a) = connect::step(s, TunnelEvent::Upgraded);
    assert_eq!((s, a), (TunnelState::Closed, TunnelAction::Wait));
}

#[test]
fn tunnel_failures_close_with_log() {
    assert_eq!(
        connect::step(TunnelState::AwaitingUpgrade, TunnelEvent::UpgradeFailed),
        (TunnelState::Closed, TunnelAction::LogAndClose)
    );
    assert_eq!(
        connect::step(TunnelState::Connecting, TunnelEvent::TargetUnreachable),
        (TunnelState::Closed, TunnelAction::LogAndClose)
    );
    assert_eq!(
        connect::step(TunnelState::Relaying, TunnelEvent::RelayFailed),
        (TunnelState::Closed, TunnelAction::LogAndClose)
    );
    assert_eq!(
        connect::step(TunnelState::AwaitingUpgrade, TunnelEvent::RelayFinished),
        (TunnelState::AwaitingUpgrade, TunnelAction::Wait)
    );
}
