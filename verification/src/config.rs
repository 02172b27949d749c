//! C arguments to connection settings: the delivery-policy ordinal, the TLS
//! mode, the reconnect switch and the client identity.
use vstd::prelude::*;

verus! {

/// How a stream delivers its messages.
#[derive(PartialEq, Eq, Structural, Clone, Copy, Debug)]
pub enum DeliveryPolicy {
    ReliableOrdered,
    ReliableUnordered,
    RealtimeDropOld,
    LatestOnly,
}

/// The policy that ordinal `ord` stands for: `0`, `1`, `2` as listed, any
/// other value `LatestOnly`.
pub open spec fn policy_of(ord: i32) -> DeliveryPolicy {
    if ord == 0 {
        DeliveryPolicy::ReliableOrdered
    } else if ord == 1 {
        DeliveryPolicy::ReliableUnordered
    } else if ord == 2 {
        DeliveryPolicy::RealtimeDropOld
    } else {
        DeliveryPolicy::LatestOnly
    }
}

/// Maps the caller's delivery-policy ordinal to the policy.
pub fn ordinal_to_policy(ord: i32) -> (policy: DeliveryPolicy)
    ensures
        policy == policy_of(ord),
        ord == 0 ==> policy == DeliveryPolicy::ReliableOrdered,
        ord == 1 ==> policy == DeliveryPolicy::ReliableUnordered,
        ord == 2 ==> policy == DeliveryPolicy::RealtimeDropOld,
        (ord < 0 || ord > 2) ==> policy == DeliveryPolicy::LatestOnly,
{
    match ord {
        0 => DeliveryPolicy::ReliableOrdered,
        1 => DeliveryPolicy::ReliableUnordered,
        2 => DeliveryPolicy::RealtimeDropOld,
        _ => DeliveryPolicy::LatestOnly,
    }
}

/// TLS mode: accept any certificate.
pub const TLS_DANGER_ACCEPT_INVALID: i32 = 1;
/// TLS mode: verify against a CA file.
pub const TLS_STRICT: i32 = 2;
/// TLS mode: accept exactly one pinned certificate.
pub const TLS_PINNED: i32 = 3;

/// How the server certificate is checked.
pub enum TlsChoice {
    /// Trust on first use (every mode other than the three below).
    Tofu,
    DangerAcceptInvalid,
    /// Verify against the CA file at `ca` (empty when no path was given).
    Strict { ca: String },
    /// Accept the DER certificate read from `cert_path`; a missing path or an
    /// unreadable file gives an empty certificate.
    Pinned { cert_path: Option<String> },
}

/// The text of an optional path, empty when there is none.
pub open spec fn path_or_empty(path: Option<String>) -> Seq<char> {
    match path {
        Some(p) => p@,
        None => Seq::<char>::empty(),
    }
}

/// Whether `tls` is the choice for `mode` and `path`: `2` strict against the
/// path (empty if none), `3` pinned to the path, `1` accept-invalid, any
/// other mode trust-on-first-use.
pub open spec fn is_tls_choice(mode: i32, path: Option<String>, tls: TlsChoice) -> bool {
    if mode == TLS_STRICT {
        tls matches TlsChoice::Strict { ca } && ca@ == path_or_empty(path)
    } else if mode == TLS_PINNED {
        tls == TlsChoice::Pinned { cert_path: path }
    } else if mode == TLS_DANGER_ACCEPT_INVALID {
        tls is DangerAcceptInvalid
    } else {
        tls is Tofu
    }
}

/// Builds the TLS choice from the caller's mode and optional path.
pub fn build_tls_verify(mode: i32, path: Option<String>) -> (tls: TlsChoice)
    ensures
        is_tls_choice(mode, path, tls),
        mode == 2 && path is Some ==> (tls matches TlsChoice::Strict { ca } && ca == path->0),
        mode == 2 && path is None ==> (tls matches TlsChoice::Strict { ca } && ca@.len() == 0),
        mode == 3 ==> tls == (TlsChoice::Pinned { cert_path: path }),
        mode == 1 ==> tls is DangerAcceptInvalid,
        (mode < 1 || mode > 3) ==> tls is Tofu,
{
    if mode == TLS_STRICT {
        let ca = match path {
            Some(p) => p,
            None => String::new(),
        };
        TlsChoice::Strict { ca }
    } else if mode == TLS_PINNED {
        TlsChoice::Pinned { cert_path: path }
    } else if mode == TLS_DANGER_ACCEPT_INVALID {
        TlsChoice::DangerAcceptInvalid
    } else {
        TlsChoice::Tofu
    }
}

/// Whether and how often the client reconnects. The back-off durations are
/// floating point and are taken from the caller's seconds outside this
/// library.
pub enum ReconnectChoice {
    Disabled,
    Enabled { max_attempts: u32, resubscribe: bool },
}

/// The reconnect choice: disabled unless `enabled`, else `max_attempts`
/// raised to at least one, resubscribing after each reconnect.
pub open spec fn reconnect_of(enabled: bool, max_attempts: i32) -> ReconnectChoice {
    if !enabled {
        ReconnectChoice::Disabled
    } else {
        ReconnectChoice::Enabled {
            max_attempts: if max_attempts < 1 { 1u32 } else { max_attempts as u32 },
            resubscribe: true,
        }
    }
}

/// Builds the reconnect choice from the caller's switch and attempt count.
pub fn build_reconnect(enabled: bool, max_attempts: i32) -> (choice: ReconnectChoice)
    ensures
        choice == reconnect_of(enabled, max_attempts),
        !enabled ==> choice is Disabled,
        enabled && max_attempts >= 1 ==> choice == (ReconnectChoice::Enabled {
            max_attempts: max_attempts as u32,
            resubscribe: true,
        }),
        enabled && max_attempts < 1 ==> choice == (ReconnectChoice::Enabled {
            max_attempts: 1,
            resubscribe: true,
        }),
{
    if !enabled {
        return ReconnectChoice::Disabled;
    }
    let attempts: u32 = if max_attempts < 1 { 1 } else { max_attempts as u32 };
    ReconnectChoice::Enabled { max_attempts: attempts, resubscribe: true }
}

/// The certificate and key files that identify the client.
pub struct IdentityPaths {
    pub cert: String,
    pub key: String,
}

/// The identity made of `cert` and `key`: present exactly when both are.
pub open spec fn identity_of(cert: Option<String>, key: Option<String>) -> Option<IdentityPaths> {
    match (cert, key) {
        (Some(c), Some(k)) => Some(IdentityPaths { cert: c, key: k }),
        _ => None,
    }
}

/// Builds the client identity from the two optional paths.
pub fn build_identity(cert: Option<String>, key: Option<String>) -> (identity: Option<IdentityPaths>)
    ensures
        identity == identity_of(cert, key),
        identity is Some <==> cert is Some && key is Some,
        identity is Some ==> identity->0.cert == cert->0 && identity->0.key == key->0,
{
    match (cert, key) {
        (Some(c), Some(k)) => Some(IdentityPaths { cert: c, key: k }),
        _ => None,
    }
}

/// Law: each delivery-policy ordinal stands for the policy the C API lists
/// (`0` reliable ordered, `1` reliable unordered, `2` realtime drop-old,
/// `3` and every other value latest-only).
pub proof fn law_policy_ordinals(ord: i32)
    ensures
        ord == 0 ==> policy_of(ord) == DeliveryPolicy::ReliableOrdered,
        ord == 1 ==> policy_of(ord) == DeliveryPolicy::ReliableUnordered,
        ord == 2 ==> policy_of(ord) == DeliveryPolicy::RealtimeDropOld,
        (ord < 0 || ord > 2) ==> policy_of(ord) == DeliveryPolicy::LatestOnly,
{
}

/// Law: TLS mode `1` accepts any certificate, `2` verifies against the
/// given path (empty if none), `3` pins the given path, and any other mode
/// trusts on first use.
pub proof fn law_tls_modes(mode: i32, path: Option<String>, tls: TlsChoice)
    requires
        is_tls_choice(mode, path, tls),
    ensures
        mode == 1 ==> tls is DangerAcceptInvalid,
        mode == 2 ==> (tls matches TlsChoice::Strict { ca } && (path is Some ==> ca@ == (path->0)@) && (
        path is None ==> ca@.len() == 0)),
        mode == 3 ==> tls == (TlsChoice::Pinned { cert_path: path }),
        (mode < 1 || mode > 3) ==> tls is Tofu,
{
}

/// Law: an enabled reconnect keeps the caller's attempt count when it is
/// positive and raises it to one otherwise, always resubscribing; a
/// disabled one carries no count.
pub proof fn law_reconnect_attempts(enabled: bool, max_attempts: i32)
    ensures
        !enabled ==> reconnect_of(enabled, max_attempts) is Disabled,
        enabled && max_attempts >= 1 ==> reconnect_of(enabled, max_attempts) == (ReconnectChoice::Enabled {
            max_attempts: max_attempts as u32,
            resubscribe: true,
        }),
        enabled && max_attempts < 1 ==> reconnect_of(enabled, max_attempts) == (ReconnectChoice::Enabled {
            max_attempts: 1,
            resubscribe: true,
        }),
{
}

/// Law: a client identity is made exactly when both paths are given, and
/// then holds them unchanged.
pub proof fn law_identity_needs_both(cert: Option<String>, key: Option<String>)
    ensures
        identity_of(cert, key) is Some <==> cert is Some && key is Some,
        identity_of(cert, key) is Some ==> identity_of(cert, key)->0.cert == cert->0 && identity_of(
            cert,
            key,
        )->0.key == key->0,
{
}

} // verus!
