use vireon_php::builder::{connect_plan, pool_size};
use vireon_php::client::stream_request;
use vireon_php::config::{
    build_identity, build_reconnect, build_tls_verify, ordinal_to_policy, DeliveryPolicy, ReconnectChoice, TlsChoice,
    TLS_DANGER_ACCEPT_INVALID, TLS_PINNED, TLS_STRICT,
};

#[test]
fn policy_ordinals() {
    assert_eq!(ordinal_to_policy(0), DeliveryPolicy::ReliableOrdered);
    assert_eq!(ordinal_to_policy(1), DeliveryPolicy::ReliableUnordered);
    assert_eq!(ordinal_to_policy(2), DeliveryPolicy::RealtimeDropOld);
    assert_eq!(ordinal_to_policy(3), DeliveryPolicy::LatestOnly);
    assert_eq!(ordinal_to_policy(99), DeliveryPolicy::LatestOnly);
    assert_eq!(ordinal_to_policy(-1), DeliveryPolicy::LatestOnly);
}

#[test]
fn tls_modes() {
    assert_eq!((TLS_DANGER_ACCEPT_INVALID, TLS_STRICT, TLS_PINNED), (1, 2, 3));
    assert!(matches!(build_tls_verify(0, None), TlsChoice::Tofu));
    assert!(matches!(build_tls_verify(7, Some("x".to_string())), TlsChoice::Tofu));
    assert!(matches!(build_tls_verify(1, None), TlsChoice::DangerAcceptInvalid));
    match build_tls_verify(2, Some("ca.pem".to_string())) {
        TlsChoice::Strict { ca } => assert_eq!(ca, "ca.pem"),
        _ => panic!("strict expected"),
    }
    match build_tls_verify(2, None) {
        TlsChoice::Strict { ca } => assert_eq!(ca, ""),
        _ => panic!("strict expected"),
    }
    match build_tls_verify(3, Some("pin.der".to_string())) {
        TlsChoice::Pinned { cert_path } => assert_eq!(cert_path, Some("pin.der".to_string())),
        _ => panic!("pinned expected"),
    }
    match build_tls_verify(3, None) {
        TlsChoice::Pinned { cert_path } => assert_eq!(cert_path, None),
        _ => panic!("pinned expected"),
    }
}

#[test]
fn reconnect_choices() {
    assert!(matches!(build_reconnect(false, 5), ReconnectChoice::Disabled));
    assert!(matches!(build_reconnect(true, 5), ReconnectChoice::Enabled { max_attempts: 5, resubscribe: true }));
    assert!(matches!(build_reconnect(true, 0), ReconnectChoice::Enabled { max_attempts: 1, resubscribe: true }));
    assert!(matches!(build_reconnect(true, -3), ReconnectChoice::Enabled { max_attempts: 1, resubscribe: true }));
}

#[test]
fn identity_needs_both_paths() {
    let id = build_identity(Some("c.pem".to_string()), Some("k.pem".to_string())).unwrap();
    assert_eq!(id.cert, "c.pem");
    assert_eq!(id.key, "k.pem");
    assert!(build_identity(Some("c.pem".to_string()), None).is_none());
    assert!(build_identity(None, Some("k.pem".to_string())).is_none());
    assert!(build_identity(None, None).is_none());
}

#[test]
fn connect_plan_from_arguments() {
    let plan = connect_plan(
        Some(b"127.0.0.1:4433"), 2, Some(b"ca.pem"), Some(b"vireon.local"), 1024, 0, 64, 1, 0,
        Some(b"c.pem"), Some(b"k.pem"),
    );
    assert_eq!(plan.addr, "127.0.0.1:4433");
    assert_eq!(plan.sni, Some("vireon.local".to_string()));
    assert!(matches!(plan.tls, TlsChoice::Strict { ref ca } if ca == "ca.pem"));
    let id = plan.identity.unwrap();
    assert_eq!((id.cert.as_str(), id.key.as_str()), ("c.pem", "k.pem"));
    assert!(matches!(plan.reconnect, ReconnectChoice::Enabled { max_attempts: 1, resubscribe: true }));
    assert_eq!(plan.max_message_size, Some(1024));
    assert_eq!(plan.subscriber_buffer, None);
    assert_eq!(plan.cmd_channel_cap, Some(64));
}

#[test]
fn connect_plan_with_null_arguments() {
    let plan = connect_plan(None, 0, None, None, 0, 0, 0, 0, 3, Some(b"c.pem"), None);
    assert_eq!(plan.addr, "");
    assert_eq!(plan.sni, None);
    assert!(matches!(plan.tls, TlsChoice::Tofu));
    assert!(plan.identity.is_none());
    assert!(matches!(plan.reconnect, ReconnectChoice::Disabled));
    assert_eq!(plan.max_message_size, None);
    assert_eq!(plan.cmd_channel_cap, None);
}

#[test]
fn pool_sizes() {
    assert_eq!(pool_size(4), 4);
    assert_eq!(pool_size(1), 1);
    assert_eq!(pool_size(0), 1);
    assert_eq!(pool_size(-2), 1);
}

#[test]
fn stream_requests() {
    let r = stream_request(1, Some(b"orders"));
    assert_eq!(r.policy, DeliveryPolicy::ReliableUnordered);
    assert_eq!(r.topic, Some("orders".to_string()));
    let r = stream_request(5, Some(b""));
    assert_eq!(r.policy, DeliveryPolicy::LatestOnly);
    assert_eq!(r.topic, None);
    assert_eq!(stream_request(0, None).topic, None);
}
