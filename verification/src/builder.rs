//! The connection settings that `vireon_connect` and `vireon_pool_connect`
//! derive from their C arguments.
use vstd::prelude::*;

use crate::config::{
    build_identity, build_reconnect, build_tls_verify, is_tls_choice, reconnect_of,
    IdentityPaths, ReconnectChoice, TlsChoice,
};
use crate::string_h::{c_arg_bytes, c_arg_text, cstr_to_option, cstr_to_string, utf8_lossy_text};

verus! {

/// Everything a connection is built from, except the idle timeout and the
/// reconnect back-off, which the caller gives in floating-point seconds.
pub struct ConnectPlan {
    pub addr: String,
    pub sni: Option<String>,
    pub tls: TlsChoice,
    pub identity: Option<IdentityPaths>,
    pub reconnect: ReconnectChoice,
    /// `None` keeps the default; a zero argument means the default.
    pub max_message_size: Option<usize>,
    pub subscriber_buffer: Option<usize>,
    pub cmd_channel_cap: Option<usize>,
}

/// The text of a nullable C string argument, as `cstr_to_option` reads it.
pub open spec fn c_arg_option(bytes: Option<Seq<u8>>) -> Option<Seq<char>> {
    match bytes {
        Some(b) => Some(utf8_lossy_text(b)),
        None => None,
    }
}

/// The view of an optional string.
pub open spec fn option_text(text: Option<String>) -> Option<Seq<char>> {
    match text {
        Some(t) => Some(t@),
        None => None,
    }
}

/// A size argument: `0` keeps the default, anything else is the size.
pub open spec fn size_setting(size: u64) -> Option<usize> {
    if size > 0 {
        Some(size as usize)
    } else {
        None
    }
}

/// Whether `plan` is what the connect arguments give.
pub open spec fn is_connect_plan(
    addr: Option<Seq<u8>>,
    tls_mode: i32,
    tls_path: Option<Seq<u8>>,
    sni: Option<Seq<u8>>,
    max_msg_size: u64,
    subscriber_buffer: u64,
    cmd_channel_cap: u64,
    reconnect_enabled: i32,
    reconnect_max_attempts: i32,
    identity_cert: Option<Seq<u8>>,
    identity_key: Option<Seq<u8>>,
    plan: ConnectPlan,
) -> bool {
    &&& plan.addr@ == c_arg_text(addr)
    &&& option_text(plan.sni) == c_arg_option(sni)
    &&& exists|path: Option<String>|
        option_text(path) == c_arg_option(tls_path) && #[trigger] is_tls_choice(tls_mode, path, plan.tls)
    &&& (match plan.identity {
        Some(id) => identity_cert is Some && identity_key is Some
            && Some(id.cert@) == c_arg_option(identity_cert)
            && Some(id.key@) == c_arg_option(identity_key),
        None => identity_cert is None || identity_key is None,
    })
    &&& plan.reconnect == reconnect_of(reconnect_enabled != 0, reconnect_max_attempts)
    &&& plan.max_message_size == size_setting(max_msg_size)
    &&& plan.subscriber_buffer == size_setting(subscriber_buffer)
    &&& plan.cmd_channel_cap == size_setting(cmd_channel_cap)
}

fn size_argument(size: u64) -> (setting: Option<usize>)
    ensures
        setting == size_setting(size),
{
    if size > 0 {
        Some(size as usize)
    } else {
        None
    }
}

/// Turns the C connect arguments into connection settings (the part of
/// building the SDK client builder that decides).
pub fn connect_plan(
    addr: Option<&[u8]>,
    tls_mode: i32,
    tls_path: Option<&[u8]>,
    sni: Option<&[u8]>,
    max_msg_size: u64,
    subscriber_buffer: u64,
    cmd_channel_cap: u64,
    reconnect_enabled: i32,
    reconnect_max_attempts: i32,
    identity_cert: Option<&[u8]>,
    identity_key: Option<&[u8]>,
) -> (plan: ConnectPlan)
    ensures
        is_connect_plan(
            c_arg_bytes(addr),
            tls_mode,
            c_arg_bytes(tls_path),
            c_arg_bytes(sni),
            max_msg_size,
            subscriber_buffer,
            cmd_channel_cap,
            reconnect_enabled,
            reconnect_max_attempts,
            c_arg_bytes(identity_cert),
            c_arg_bytes(identity_key),
            plan,
        ),
        addr is None ==> plan.addr@.len() == 0,
        addr is Some ==> plan.addr@ == utf8_lossy_text((addr->0)@),
        sni is None ==> plan.sni is None,
        sni is Some ==> (plan.sni is Some && (plan.sni->0)@ == utf8_lossy_text((sni->0)@)),
        tls_mode == 1 ==> plan.tls is DangerAcceptInvalid,
        tls_mode == 2 && tls_path is Some ==> (plan.tls matches TlsChoice::Strict { ca } && ca@
            == utf8_lossy_text((tls_path->0)@)),
        tls_mode == 2 && tls_path is None ==> (plan.tls matches TlsChoice::Strict { ca } && ca@.len()
            == 0),
        tls_mode == 3 && tls_path is None ==> (plan.tls matches TlsChoice::Pinned { cert_path }
            && cert_path is None),
        tls_mode == 3 && tls_path is Some ==> (plan.tls matches TlsChoice::Pinned { cert_path }
            && cert_path is Some && (cert_path->0)@ == utf8_lossy_text((tls_path->0)@)),
        (tls_mode < 1 || tls_mode > 3) ==> plan.tls is Tofu,
        plan.identity is Some <==> identity_cert is Some && identity_key is Some,
        plan.identity is Some ==> (plan.identity->0).cert@ == utf8_lossy_text((identity_cert->0)@),
        plan.identity is Some ==> (plan.identity->0).key@ == utf8_lossy_text((identity_key->0)@),
        reconnect_enabled == 0 ==> plan.reconnect is Disabled,
        reconnect_enabled != 0 && reconnect_max_attempts >= 1 ==> plan.reconnect == (
        ReconnectChoice::Enabled { max_attempts: reconnect_max_attempts as u32, resubscribe: true }),
        reconnect_enabled != 0 && reconnect_max_attempts < 1 ==> plan.reconnect == (
        ReconnectChoice::Enabled { max_attempts: 1, resubscribe: true }),
        max_msg_size == 0 ==> plan.max_message_size is None,
        max_msg_size > 0 ==> plan.max_message_size == Some(max_msg_size as usize),
        subscriber_buffer == 0 ==> plan.subscriber_buffer is None,
        subscriber_buffer > 0 ==> plan.subscriber_buffer == Some(subscriber_buffer as usize),
        cmd_channel_cap == 0 ==> plan.cmd_channel_cap is None,
        cmd_channel_cap > 0 ==> plan.cmd_channel_cap == Some(cmd_channel_cap as usize),
{
    let addr = cstr_to_string(addr);
    let tls_path_text = cstr_to_option(tls_path);
    let ghost path = tls_path_text;
    let sni = cstr_to_option(sni);
    let tls = build_tls_verify(tls_mode, tls_path_text);
    let cert = cstr_to_option(identity_cert);
    let key = cstr_to_option(identity_key);
    let identity = build_identity(cert, key);
    let reconnect = build_reconnect(reconnect_enabled != 0, reconnect_max_attempts);
    let plan = ConnectPlan {
        addr,
        sni,
        tls,
        identity,
        reconnect,
        max_message_size: size_argument(max_msg_size),
        subscriber_buffer: size_argument(subscriber_buffer),
        cmd_channel_cap: size_argument(cmd_channel_cap),
    };
    assert(option_text(path) == c_arg_option(c_arg_bytes(tls_path)) && is_tls_choice(tls_mode, path, plan.tls));
    plan
}

/// The number of pool connections for the caller's `n`: at least one.
pub fn pool_size(n: i32) -> (size: usize)
    ensures
        size == (if n < 1 { 1 } else { n as int }),
{
    if n < 1 {
        1
    } else {
        n as usize
    }
}

/// Law: a size argument of `0` keeps the SDK default and any other value
/// is the size itself.
pub proof fn law_size_settings(size: u64)
    ensures
        size == 0 ==> size_setting(size) is None,
        size > 0 ==> size_setting(size) == Some(size as usize),
{
}

/// Law: an optional C string argument reads as nothing when null and as
/// the lossy decoding of its own bytes otherwise.
pub proof fn law_optional_arg_reads_its_bytes(bytes: Seq<u8>)
    ensures
        c_arg_option(None).is_none(),
        c_arg_option(Some(bytes)) == Some(utf8_lossy_text(bytes)),
{
}

} // verus!
