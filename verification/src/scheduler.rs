//! The reconciliation scheduler.
//!
//! One tick resolves the current public IP and reconciles the provider's
//! record with it; ticks repeat on a fixed interval, forever. The scheduler
//! itself performs no I/O: it is a state machine from phase and event to
//! next phase and requested action. The caller performs each action —
//! the startup zone lookup, the IP fetch, the reconcile call, the interval
//! sleep — and feeds the outcome back in as the next event.
//!
//! A failed zone lookup before the first cycle is fatal: every later cycle
//! would repeat it, so the machine stops. Every failure during a
//! steady-state tick — transport, a malformed IP body, a provider error, an
//! ambiguous record listing — merely ends that tick: the machine sleeps out
//! the interval and attempts the next tick as scheduled.

use crate::errors::DdnsError;
use crate::ip::{parse_ipv4, parse_ipv4_spec};
use crate::record::DesiredState;
use vstd::prelude::*;

verus! {

/// The configuration fixed at startup and never mutated afterwards.
#[derive(Debug, PartialEq)]
pub struct Config {
    /// The fully-qualified name whose A record is kept in step.
    pub domain: String,
    /// Whether the provider should proxy traffic to the record.
    pub proxied: bool,
    /// The number of seconds between the end of one tick and the next.
    pub interval_secs: u64,
}

impl Clone for Config {
    fn clone(&self) -> (r: Self)
        ensures
            r == *self,
    {
        Config {
            domain: self.domain.clone(),
            proxied: self.proxied,
            interval_secs: self.interval_secs,
        }
    }
}

/// Where the scheduler stands between two events.
#[derive(Clone, Copy, Debug, PartialEq, Eq, Structural)]
pub enum Phase {
    /// Before the first cycle: the zone lookup that validates the
    /// configuration is outstanding.
    Starting,
    /// A public-IP fetch is outstanding.
    FetchingIp,
    /// A reconcile call is outstanding.
    Reconciling,
    /// Waiting out the interval until the next tick.
    Sleeping,
    /// Terminated: the configuration failed validation before the first
    /// cycle. No normal operation reaches this phase.
    Stopped,
}

/// What the environment reports back to the scheduler.
#[derive(Debug, PartialEq)]
pub enum Event {
    /// The startup zone lookup found exactly one zone for the apex domain.
    ZoneFound,
    /// The startup zone lookup did not settle on a zone.
    ZoneMissing,
    /// The public-IP service answered; `body` is the untrusted response
    /// text.
    IpFetched { body: String },
    /// The public-IP fetch failed in transport.
    IpFetchFailed,
    /// The reconcile call brought the provider in line.
    ReconcileOk,
    /// The reconcile call failed; `error` says how.
    ReconcileFailed { error: DdnsError },
    /// The interval sleep elapsed.
    SleepElapsed,
}

/// What the scheduler asks the environment to do next.
#[derive(Debug, PartialEq)]
pub enum Action {
    /// Fetch the current public IP.
    FetchIp,
    /// Reconcile the provider's record with `desired`.
    Reconcile { desired: DesiredState },
    /// Sleep for `seconds`, then report `SleepElapsed`. `failure` is the
    /// error that ended the tick early, if any; it is worth logging, and the
    /// tick is otherwise a no-op.
    Sleep { seconds: u64, failure: Option<DdnsError> },
    /// Terminate: startup validation failed with `error`.
    Stop { error: DdnsError },
    /// Nothing: the event does not belong to the current phase.
    Ignore,
}

/// The transition table of the scheduler.
pub open spec fn step_spec(config: Config, phase: Phase, event: Event) -> (Phase, Action) {
    match (phase, event) {
        (Phase::Starting, Event::ZoneFound) => (Phase::FetchingIp, Action::FetchIp),
        (Phase::Starting, Event::ZoneMissing) => (
            Phase::Stopped,
            Action::Stop { error: DdnsError::NotFoundError },
        ),
        (Phase::FetchingIp, Event::IpFetched { body }) => match parse_ipv4_spec(body@) {
            Some(ip) => (
                Phase::Reconciling,
                Action::Reconcile {
                    desired: DesiredState {
                        domain: config.domain,
                        content: ip,
                        proxied: config.proxied,
                    },
                },
            ),
            None => (
                Phase::Sleeping,
                Action::Sleep {
                    seconds: config.interval_secs,
                    failure: Some(DdnsError::FormatError),
                },
            ),
        },
        (Phase::FetchingIp, Event::IpFetchFailed) => (
            Phase::Sleeping,
            Action::Sleep { seconds: config.interval_secs, failure: Some(DdnsError::NetworkError) },
        ),
        (Phase::Reconciling, Event::ReconcileOk) => (
            Phase::Sleeping,
            Action::Sleep { seconds: config.interval_secs, failure: None },
        ),
        (Phase::Reconciling, Event::ReconcileFailed { error }) => (
            Phase::Sleeping,
            Action::Sleep { seconds: config.interval_secs, failure: Some(error) },
        ),
        (Phase::Sleeping, Event::SleepElapsed) => (Phase::FetchingIp, Action::FetchIp),
        (_, _) => (phase, Action::Ignore),
    }
}

/// The scheduler: the configuration and the phase it stands in.
#[derive(Debug, PartialEq)]
pub struct Scheduler {
    pub config: Config,
    pub phase: Phase,
}

impl Scheduler {
    /// A scheduler that has not validated its configuration yet.
    pub fn new(config: Config) -> (s: Scheduler)
        ensures
            s.config == config,
            s.phase == Phase::Starting,
    {
        Scheduler { config, phase: Phase::Starting }
    }

    /// Feeds one event in; moves to the next phase and returns the action
    /// the environment must perform next, exactly as the transition table
    /// says. The configuration never changes.
    pub fn step(&mut self, event: Event) -> (action: Action)
        ensures
            final(self).config == old(self).config,
            (final(self).phase, action) == step_spec(old(self).config, old(self).phase, event),
    {
        match (self.phase, event) {
            (Phase::Starting, Event::ZoneFound) => {
                self.phase = Phase::FetchingIp;
                Action::FetchIp
            },
            (Phase::Starting, Event::ZoneMissing) => {
                self.phase = Phase::Stopped;
                Action::Stop { error: DdnsError::NotFoundError }
            },
            (Phase::FetchingIp, Event::IpFetched { body }) => match parse_ipv4(body.as_str()) {
                Ok(ip) => {
                    self.phase = Phase::Reconciling;
                    Action::Reconcile {
                        desired: DesiredState {
                            domain: self.config.domain.clone(),
                            content: ip,
                            proxied: self.config.proxied,
                        },
                    }
                },
                Err(_) => {
                    self.phase = Phase::Sleeping;
                    Action::Sleep {
                        seconds: self.config.interval_secs,
                        failure: Some(DdnsError::FormatError),
                    }
                },
            },
            (Phase::FetchingIp, Event::IpFetchFailed) => {
                self.phase = Phase::Sleeping;
                Action::Sleep {
                    seconds: self.config.interval_secs,
                    failure: Some(DdnsError::NetworkError),
                }
            },
            (Phase::Reconciling, Event::ReconcileOk) => {
                self.phase = Phase::Sleeping;
                Action::Sleep { seconds: self.config.interval_secs, failure: None }
            },
            (Phase::Reconciling, Event::ReconcileFailed { error }) => {
                self.phase = Phase::Sleeping;
                Action::Sleep { seconds: self.config.interval_secs, failure: Some(error) }
            },
            (Phase::Sleeping, Event::SleepElapsed) => {
                self.phase = Phase::FetchingIp;
                Action::FetchIp
            },
            (_, _) => Action::Ignore,
        }
    }
}

/// The resilience law: a transport failure while fetching the IP on one
/// tick, or a failed reconcile call, only puts the scheduler to sleep for
/// the configured interval; when the sleep elapses the next tick is
/// attempted as scheduled — not immediately, and not skipped.
pub proof fn lemma_transient_failure_retries(config: Config, e: DdnsError)
    ensures
        ({
            let (p1, a1) = step_spec(config, Phase::FetchingIp, Event::IpFetchFailed);
            let (p2, a2) = step_spec(config, p1, Event::SleepElapsed);
            &&& p1 == Phase::Sleeping
            &&& a1 == Action::Sleep {
                seconds: config.interval_secs,
                failure: Some(DdnsError::NetworkError),
            }
            &&& p2 == Phase::FetchingIp
            &&& a2 == Action::FetchIp
        }),
        ({
            let (p1, a1) = step_spec(config, Phase::Reconciling, Event::ReconcileFailed { error: e });
            let (p2, a2) = step_spec(config, p1, Event::SleepElapsed);
            &&& p1 == Phase::Sleeping
            &&& a1 == Action::Sleep { seconds: config.interval_secs, failure: Some(e) }
            &&& p2 == Phase::FetchingIp
            &&& a2 == Action::FetchIp
        }),
{
}

/// The malformed-IP law: a response body that does not parse as a
/// dotted-quad IPv4 literal ends the tick with a `FormatError`, and no
/// reconcile call is attempted that cycle.
pub proof fn lemma_malformed_ip_no_reconcile(config: Config, body: String)
    requires
        parse_ipv4_spec(body@) is None,
    ensures
        ({
            let (p, a) = step_spec(config, Phase::FetchingIp, Event::IpFetched { body });
            &&& p == Phase::Sleeping
            &&& a == Action::Sleep {
                seconds: config.interval_secs,
                failure: Some(DdnsError::FormatError),
            }
            &&& !(a is Reconcile)
        }),
{
}

} // verus!
