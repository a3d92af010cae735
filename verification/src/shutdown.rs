//! Graceful shutdown configuration: when a shutdown is triggered and how long
//! application and connection I/O may continue once it is.
use vstd::prelude::*;
use vstd::std_specs::cmp::{PartialEqSpec, PartialEqSpecImpl};

use std::time::Duration;

use crate::sig::Sig;
use crate::sig_set::SigSet;

verus! {

/// The whole seconds held by a `Duration` (what `Duration::as_secs` returns).
pub uninterp spec fn duration_secs(d: Duration) -> u64;

/// The fractional part of a `Duration` in nanoseconds (what `Duration::subsec_nanos` returns).
pub uninterp spec fn duration_subsec_nanos(d: Duration) -> u32;

/// Calls `std::time::Duration::from_secs`. Its documentation says that it
/// creates a duration of the given number of whole seconds: `as_secs` of the
/// result is `secs` and `subsec_nanos` is zero.
#[verifier::external_body]
fn duration_from_secs(secs: u64) -> (d: Duration)
    ensures
        duration_secs(d) == secs,
        duration_subsec_nanos(d) == 0,
{
    Duration::from_secs(secs)
}

/// Graceful shutdown configuration.
///
/// `ctrlc` and `signals` control _when_ a shutdown is triggered; `grace` and
/// `mercy` control _how_ it proceeds. Once triggered, application I/O may make
/// progress for at most `grace` seconds before connection-level shutdown starts;
/// connections then get at most `mercy` more seconds before they are terminated.
#[derive(Debug)]
pub struct ShutdownConfig {
    /// Whether `ctrl-c` (`SIGINT`) initiates a server shutdown. Default: `true`.
    pub ctrlc: bool,
    /// The signals that trigger a shutdown. Default: `{ Sig::Term }`.
    pub signals: SigSet,
    /// The grace period in seconds. Default: `2`.
    pub grace: u32,
    /// The mercy period in seconds. Default: `3`.
    pub mercy: u32,
    /// Whether to force termination of an async runtime that refuses to
    /// cooperatively shut down. Default: `true`.
    pub force: bool,
    /// Construct this structure with update syntax from `Default::default()`.
    pub __non_exhaustive: (),
}

/// The signals that trigger a shutdown under a configuration: the configured
/// signals, plus `SIGINT` when `ctrlc` is set. `None` when nothing triggers one.
pub open spec fn spec_trigger_signals(ctrlc: bool, signals: Set<Sig>) -> Option<Set<Sig>> {
    if !ctrlc && signals.is_empty() {
        None
    } else if ctrlc {
        Some(signals.insert(Sig::Int))
    } else {
        Some(signals)
    }
}

/// The signals that trigger a shutdown where no signal set can be configured
/// (platforms other than Unix): `SIGINT` when `ctrlc` is set, otherwise none.
pub open spec fn spec_ctrlc_trigger_signals(ctrlc: bool) -> Option<Set<Sig>> {
    if ctrlc {
        Some(set![Sig::Int])
    } else {
        None
    }
}

impl Default for ShutdownConfig {
    fn default() -> (config: Self)
        ensures
            config.ctrlc,
            config.signals@ == set![Sig::Term],
            config.grace == 2,
            config.mercy == 3,
            config.force,
    {
        let mut signals = SigSet::new();
        signals.insert(Sig::Term);
        assert(signals@ =~= set![Sig::Term]);
        ShutdownConfig { ctrlc: true, signals, grace: 2, mercy: 3, force: true, __non_exhaustive: () }
    }
}

impl ShutdownConfig {
    /// The grace period as a `Duration` of `grace` whole seconds.
    pub fn grace(&self) -> (d: Duration)
        ensures
            duration_secs(d) == self.grace,
            duration_subsec_nanos(d) == 0,
    {
        duration_from_secs(self.grace as u64)
    }

    /// The mercy period as a `Duration` of `mercy` whole seconds.
    pub fn mercy(&self) -> (d: Duration)
        ensures
            duration_secs(d) == self.mercy,
            duration_subsec_nanos(d) == 0,
    {
        duration_from_secs(self.mercy as u64)
    }

    /// The signals to listen for to trigger a shutdown: `None` when `ctrlc` is
    /// off and no signal is configured; otherwise the configured signals, with
    /// `Sig::Int` added when `ctrlc` is on.
    pub fn trigger_signals(&self) -> (r: Option<SigSet>)
        ensures
            r matches Some(s) ==> Some(s@) == spec_trigger_signals(self.ctrlc, self.signals@),
            r is None <==> spec_trigger_signals(self.ctrlc, self.signals@) is None,
            r is None <==> (!self.ctrlc && self.signals@.is_empty()),
            r matches Some(s) ==> self.signals@.subset_of(s@),
            r matches Some(s) ==> (s@.contains(Sig::Int) <==> (self.ctrlc || self.signals@.contains(Sig::Int))),
            r matches Some(s) ==> forall|x: Sig| #[trigger] s@.contains(x) ==> self.signals@.contains(x) || x == Sig::Int,
    {
        if !self.ctrlc && self.signals.is_empty() {
            return None;
        }
        let mut signals = self.signals.clone();
        if self.ctrlc {
            signals.insert(Sig::Int);
        }
        Some(signals)
    }

    /// The signals to listen for to trigger a shutdown on platforms without
    /// configurable signals (other than Unix), where `signals` is ignored: only
    /// `Sig::Int` when `ctrlc` is on, and `None` when it is off.
    pub fn ctrlc_trigger_signals(&self) -> (r: Option<SigSet>)
        ensures
            r matches Some(s) ==> Some(s@) == spec_ctrlc_trigger_signals(self.ctrlc),
            r is None <==> spec_ctrlc_trigger_signals(self.ctrlc) is None,
            r is None <==> !self.ctrlc,
            r matches Some(s) ==> s@.contains(Sig::Int) && forall|x: Sig| #[trigger] s@.contains(x) ==> x == Sig::Int,
    {
        if !self.ctrlc {
            return None;
        }
        let mut signals = SigSet::new();
        signals.insert(Sig::Int);
        assert(signals@ =~= set![Sig::Int]);
        Some(signals)
    }
}

/// Which signals trigger a shutdown: none at all exactly when ctrl-c is off and
/// no signal is configured; otherwise every configured signal does, `SIGINT`
/// does exactly when ctrl-c is on or it is configured, and no other signal does.
/// In particular, with ctrl-c on, `SIGINT` always triggers, whatever is configured.
pub proof fn lemma_trigger_signals_cover_configuration(ctrlc: bool, signals: Set<Sig>)
    ensures
        spec_trigger_signals(ctrlc, signals) is None <==> (!ctrlc && signals.is_empty()),
        spec_trigger_signals(ctrlc, signals) matches Some(t) ==> {
            &&& signals.subset_of(t)
            &&& t.contains(Sig::Int) <==> (ctrlc || signals.contains(Sig::Int))
            &&& forall|x: Sig| #[trigger] t.contains(x) ==> signals.contains(x) || x == Sig::Int
        },
        ctrlc ==> (spec_trigger_signals(ctrlc, signals) matches Some(t) && t.contains(Sig::Int)
            && signals.subset_of(t)),
        !ctrlc && !signals.is_empty() ==> spec_trigger_signals(ctrlc, signals) == Some(signals),
{
}

/// Two shutdown configurations are equal exactly when they agree on ctrl-c, on
/// the signal sets (as sets), on grace, on mercy and on force. Equality is
/// symmetric, and configurations that differ in any one of these are not equal.
pub proof fn lemma_shutdown_config_eq_fields(a: ShutdownConfig, b: ShutdownConfig)
    ensures
        PartialEqSpec::eq_spec(&a, &b) <==> (a.ctrlc == b.ctrlc && (forall|x: Sig| a.signals@.contains(x) <==> b.signals@.contains(x))
            && a.grace == b.grace && a.mercy == b.mercy && a.force == b.force),
        PartialEqSpec::eq_spec(&a, &b) == PartialEqSpec::eq_spec(&b, &a),
        PartialEqSpec::eq_spec(&a, &a),
        a.grace != b.grace ==> !PartialEqSpec::eq_spec(&a, &b),
        a.mercy != b.mercy ==> !PartialEqSpec::eq_spec(&a, &b),
        a.ctrlc != b.ctrlc ==> !PartialEqSpec::eq_spec(&a, &b),
        a.force != b.force ==> !PartialEqSpec::eq_spec(&a, &b),
{
    if forall|x: Sig| a.signals@.contains(x) <==> b.signals@.contains(x) {
        assert(a.signals@ =~= b.signals@);
    }
}

/// The longest that an uncooperative client can stall a shutdown, `grace`
/// plus `mercy` seconds, is representable as a `Duration` without overflow:
/// the whole seconds of the grace and mercy durations add up within `u64`,
/// and their nanoseconds add up to less than one second.
pub proof fn lemma_stall_bound_representable(config: ShutdownConfig, grace: Duration, mercy: Duration)
    requires
        duration_secs(grace) == config.grace,
        duration_subsec_nanos(grace) == 0,
        duration_secs(mercy) == config.mercy,
        duration_subsec_nanos(mercy) == 0,
    ensures
        duration_secs(grace) + duration_secs(mercy) == config.grace + config.mercy,
        duration_secs(grace) + duration_secs(mercy) <= u64::MAX,
        duration_subsec_nanos(grace) + duration_subsec_nanos(mercy) < 1_000_000_000,
{
}

impl Clone for ShutdownConfig {
    fn clone(&self) -> (copy: Self)
        ensures
            copy.ctrlc == self.ctrlc,
            copy.signals@ == self.signals@,
            copy.grace == self.grace,
            copy.mercy == self.mercy,
            copy.force == self.force,
    {
        ShutdownConfig {
            ctrlc: self.ctrlc,
            signals: self.signals.clone(),
            grace: self.grace,
            mercy: self.mercy,
            force: self.force,
            __non_exhaustive: (),
        }
    }
}

impl PartialEq for ShutdownConfig {
    fn eq(&self, other: &Self) -> (same: bool) {
        self.ctrlc == other.ctrlc && self.signals == other.signals && self.grace == other.grace
            && self.mercy == other.mercy && self.force == other.force
    }
}

impl PartialEqSpecImpl for ShutdownConfig {
    open spec fn obeys_eq_spec() -> bool {
        true
    }

    open spec fn eq_spec(&self, other: &ShutdownConfig) -> bool {
        &&& self.ctrlc == other.ctrlc
        &&& self.signals@ == other.signals@
        &&& self.grace == other.grace
        &&& self.mercy == other.mercy
        &&& self.force == other.force
    }
}

} // verus!
