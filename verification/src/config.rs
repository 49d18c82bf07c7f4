//! Settings of the service and the small decisions that are taken on them at
//! start-up and while the broker connection is kept alive.

use crate::text::strip_suffix;
use vstd::prelude::*;
use vstd::string::StringExecFns;

verus! {

/// The number of records that the cache holds unless told otherwise.
pub const DEFAULT_CACHE_SIZE: usize = 100;

/// Where the service listens unless told otherwise.
pub const DEFAULT_LISTEN_ADDR: &'static str = "0.0.0.0:8080";

/// Where the metrics are served unless told otherwise.
pub const DEFAULT_METRICS_LISTEN_ADDR: &'static str = "0.0.0.0:9090";

/// The delay before the first attempt to reconnect to the broker, in
/// milliseconds.
pub const MQTT_INITIAL_BACKOFF_MS: u64 = 100;

/// The longest delay between two attempts to reconnect, in milliseconds.
pub const MQTT_MAX_BACKOFF_MS: u64 = 30_000;

/// A repository prefix without one trailing `/`.
pub open spec fn normalized_prefix(val: Seq<char>) -> Seq<char> {
    if val.len() > 0 && val.last() == '/' {
        val.drop_last()
    } else {
        val
    }
}

/// Strips one trailing `/` from a repository prefix. This never fails.
pub fn normalize_repository_prefix(val: &str) -> (r: Result<String, String>)
    ensures
        r matches Ok(prefix) && prefix@ == normalized_prefix(val@),
{
    proof {
        reveal_strlit("/");
    }
    match strip_suffix(val, "/") {
        Some(rest) => {
            assert(val@ =~= rest@ + "/"@);
            assert(val@.drop_last() =~= rest@);
            Ok(String::from_str(rest))
        },
        None => {
            proof {
                if val@.len() > 0 && val@.last() == '/' {
                    assert("/"@ =~= val@.subrange(val@.len() - 1, val@.len() as int));
                    assert("/"@.is_suffix_of(val@));
                }
            }
            Ok(String::from_str(val))
        },
    }
}

/// Two to the power of `n`.
pub open spec fn pow2(n: nat) -> nat
    decreases n,
{
    if n == 0 {
        1
    } else {
        2 * pow2((n - 1) as nat)
    }
}

/// The delay before the next attempt to reconnect after `errors` failures
/// in a row, in milliseconds: the initial delay, doubled with each failure
/// after the first, and never above the longest delay.
pub open spec fn backoff_ms(errors: u32) -> nat {
    let doublings: nat = if errors == 0 {
        0
    } else {
        (errors - 1) as nat
    };
    let delay = MQTT_INITIAL_BACKOFF_MS as nat * pow2(doublings);
    if delay < MQTT_MAX_BACKOFF_MS as nat {
        delay
    } else {
        MQTT_MAX_BACKOFF_MS as nat
    }
}

/// Powers of two grow.
pub proof fn lemma_pow2_grows(a: nat, b: nat)
    requires
        a <= b,
    ensures
        pow2(a) <= pow2(b),
        pow2(a) >= 1,
    decreases b,
{
    if a < b {
        lemma_pow2_grows(a, (b - 1) as nat);
    } else if a > 0 {
        lemma_pow2_grows((a - 1) as nat, (b - 1) as nat);
    }
}

/// The delay before the next attempt to reconnect to the broker after
/// `errors` failures in a row.
pub fn mqtt_backoff_ms(errors: u32) -> (delay: u64)
    ensures
        delay == backoff_ms(errors),
        MQTT_INITIAL_BACKOFF_MS <= delay <= MQTT_MAX_BACKOFF_MS,
{
    let doublings: u32 = if errors == 0 {
        0
    } else {
        errors - 1
    };
    let mut delay: u64 = MQTT_INITIAL_BACKOFF_MS;
    let mut done: u32 = 0;
    while done < doublings && delay < MQTT_MAX_BACKOFF_MS
        invariant
            done <= doublings,
            delay == MQTT_INITIAL_BACKOFF_MS as nat * pow2(done as nat),
            delay < 2 * MQTT_MAX_BACKOFF_MS,
        decreases doublings - done,
    {
        delay = delay * 2;
        done += 1;
    }
    proof {
        lemma_pow2_grows(done as nat, doublings as nat);
        lemma_pow2_grows(0, done as nat);
        assert(MQTT_INITIAL_BACKOFF_MS as nat * pow2(done as nat) <= MQTT_INITIAL_BACKOFF_MS as nat
            * pow2(doublings as nat)) by (nonlinear_arith)
            requires
                pow2(done as nat) <= pow2(doublings as nat),
        ;
        assert(MQTT_INITIAL_BACKOFF_MS as nat * pow2(done as nat) >= MQTT_INITIAL_BACKOFF_MS as nat)
            by (nonlinear_arith)
            requires
                pow2(done as nat) >= 1,
        ;
    }
    if delay < MQTT_MAX_BACKOFF_MS {
        delay
    } else {
        MQTT_MAX_BACKOFF_MS
    }
}

/// What one poll of the broker connection brought.
#[derive(Clone, Copy, Debug, PartialEq, Eq, Structural)]
pub enum PollOutcome {
    /// The broker acknowledged the connection.
    Connected,
    /// Any other traffic.
    Other,
    /// The connection failed.
    Failed,
}

/// What is worth a line in the log after a poll.
#[derive(Clone, Copy, Debug, PartialEq, Eq, Structural)]
pub enum PollNote {
    Nothing,
    /// The connection is back after this many failures.
    Restored(u32),
    /// The first failure in a row.
    FirstError,
    /// A further failure in a row.
    StillDisconnected,
}

/// What to do after a poll of the broker connection.
#[derive(Clone, Copy, Debug, PartialEq, Eq, Structural)]
pub struct Reconnect {
    /// The failures in a row, this poll included.
    pub errors: u32,
    /// How long to sleep before the next poll, if at all, in milliseconds.
    pub sleep_ms: Option<u64>,
    pub note: PollNote,
}

/// The reaction to a poll, given the failures in a row before it. An
/// acknowledged connection resets the count; a failure raises it, without
/// overflow, and asks for the delay that goes with the new count.
pub open spec fn reconnect_plan(errors: u32, outcome: PollOutcome) -> Reconnect {
    match outcome {
        PollOutcome::Connected => Reconnect {
            errors: 0,
            sleep_ms: None,
            note: if errors > 0 {
                PollNote::Restored(errors)
            } else {
                PollNote::Nothing
            },
        },
        PollOutcome::Other => Reconnect { errors, sleep_ms: None, note: PollNote::Nothing },
        PollOutcome::Failed => {
            let raised: u32 = if errors == u32::MAX {
                u32::MAX
            } else {
                (errors + 1) as u32
            };
            Reconnect {
                errors: raised,
                sleep_ms: Some(backoff_ms(raised) as u64),
                note: if raised == 1 {
                    PollNote::FirstError
                } else {
                    PollNote::StillDisconnected
                },
            }
        },
    }
}

/// Decides what follows a poll of the broker connection.
pub fn after_poll(errors: u32, outcome: PollOutcome) -> (r: Reconnect)
    ensures
        r == reconnect_plan(errors, outcome),
{
    match outcome {
        PollOutcome::Connected => Reconnect {
            errors: 0,
            sleep_ms: None,
            note: if errors > 0 {
                PollNote::Restored(errors)
            } else {
                PollNote::Nothing
            },
        },
        PollOutcome::Other => Reconnect { errors, sleep_ms: None, note: PollNote::Nothing },
        PollOutcome::Failed => {
            let raised: u32 = if errors == u32::MAX {
                u32::MAX
            } else {
                errors + 1
            };
            Reconnect {
                errors: raised,
                sleep_ms: Some(mqtt_backoff_ms(raised)),
                note: if raised == 1 {
                    PollNote::FirstError
                } else {
                    PollNote::StillDisconnected
                },
            }
        },
    }
}

/// How the connection to the broker is secured.
#[derive(Clone, Copy, Debug, PartialEq, Eq, Structural)]
pub enum TlsPlan {
    /// No certificate authority is configured: plain transport.
    Plain,
    /// The broker is checked against the certificate authority.
    ServerOnly,
    /// As `ServerOnly`, but only one of client certificate and client key is
    /// configured: it is ignored, which deserves a warning.
    ServerOnlyIncomplete,
    /// The broker is checked and the client presents its certificate.
    Mutual,
}

/// What secures the connection to the broker: the certificate authority
/// that the broker is checked against and, for mutual TLS, the client's
/// certificate and key.
#[derive(Debug)]
pub struct TlsConfig {
    pub ca_cert: Vec<u8>,
    pub client_auth: Option<(Vec<u8>, Vec<u8>)>,
}

/// TLS is used exactly when a certificate authority is configured, and the
/// client authenticates exactly when both its certificate and its key are.
pub open spec fn tls_plan(has_ca: bool, has_cert: bool, has_key: bool) -> TlsPlan {
    if !has_ca {
        TlsPlan::Plain
    } else if has_cert && has_key {
        TlsPlan::Mutual
    } else if has_cert || has_key {
        TlsPlan::ServerOnlyIncomplete
    } else {
        TlsPlan::ServerOnly
    }
}

/// Decides how the connection to the broker is secured, from which of the
/// three paths are configured.
pub fn plan_tls(has_ca: bool, has_cert: bool, has_key: bool) -> (plan: TlsPlan)
    ensures
        plan == tls_plan(has_ca, has_cert, has_key),
{
    if !has_ca {
        TlsPlan::Plain
    } else if has_cert && has_key {
        TlsPlan::Mutual
    } else if has_cert || has_key {
        TlsPlan::ServerOnlyIncomplete
    } else {
        TlsPlan::ServerOnly
    }
}

impl TlsPlan {
    /// Whether the certificate authority is to be read.
    pub fn uses_tls(&self) -> (r: bool)
        ensures
            r == !(*self is Plain),
    {
        match self {
            TlsPlan::Plain => false,
            _ => true,
        }
    }

    /// Whether the client's certificate and key are to be read.
    pub fn uses_client_auth(&self) -> (r: bool)
        ensures
            r == (*self is Mutual),
    {
        match self {
            TlsPlan::Mutual => true,
            _ => false,
        }
    }
}

/// Whether the broker is given credentials: only for a user name that is
/// not empty.
pub fn uses_credentials(username: &str) -> (r: bool)
    ensures
        r == (username@.len() > 0),
{
    !username.is_empty()
}

} // verus!
