use rocketkit::shutdown::ShutdownConfig;
use rocketkit::sig::Sig;
use rocketkit::sig_set::SigSet;

fn set_of(sigs: &[Sig]) -> SigSet {
    let mut set = SigSet::new();
    for sig in sigs {
        set.insert(*sig);
    }
    set
}

#[test]
fn default_config_values() {
    let config = ShutdownConfig::default();
    assert!(config.ctrlc);
    assert_eq!(config.grace, 2);
    assert_eq!(config.mercy, 3);
    assert!(config.force);
    assert_eq!(config.signals.len(), 1);
    assert!(config.signals.contains(&Sig::Term));
}

#[test]
fn grace_and_mercy_are_whole_seconds() {
    let config = ShutdownConfig { grace: 10, mercy: 5, ..Default::default() };
    assert_eq!(config.grace().as_secs(), 10);
    assert_eq!(config.grace().subsec_nanos(), 0);
    assert_eq!(config.mercy().as_secs(), 5);
    assert_eq!(config.mercy().subsec_nanos(), 0);
    let default = ShutdownConfig::default();
    assert_eq!(default.grace(), std::time::Duration::from_secs(2));
    assert_eq!(default.mercy(), std::time::Duration::from_secs(3));
}

#[test]
fn programmatic_config_keeps_fields() {
    let config = ShutdownConfig {
        ctrlc: false,
        signals: set_of(&[Sig::Term, Sig::Hup]),
        grace: 10,
        mercy: 5,
        force: true,
        ..Default::default()
    };
    assert!(!config.ctrlc);
    assert_eq!(config.grace, 10);
    assert_eq!(config.mercy, 5);
    assert!(config.force);
    assert_eq!(config.signals.len(), 2);
    assert!(config.signals.contains(&Sig::Term));
    assert!(config.signals.contains(&Sig::Hup));
}

#[test]
fn no_triggers_without_ctrlc_and_signals() {
    let config = ShutdownConfig { ctrlc: false, signals: SigSet::new(), ..Default::default() };
    assert!(config.trigger_signals().is_none());
}

#[test]
fn ctrlc_adds_sigint() {
    let config = ShutdownConfig::default();
    let triggers = config.trigger_signals().unwrap();
    assert_eq!(triggers, set_of(&[Sig::Term, Sig::Int]));
    assert_eq!(triggers.len(), 2);
}

#[test]
fn ctrlc_alone_triggers_only_sigint() {
    let config = ShutdownConfig { signals: SigSet::new(), ..Default::default() };
    assert_eq!(config.trigger_signals().unwrap(), set_of(&[Sig::Int]));
}

#[test]
fn ctrlc_with_sigint_configured_adds_nothing() {
    let config = ShutdownConfig { signals: set_of(&[Sig::Int, Sig::Usr1]), ..Default::default() };
    assert_eq!(config.trigger_signals().unwrap(), set_of(&[Sig::Int, Sig::Usr1]));
}

#[test]
fn without_ctrlc_the_configured_signals_trigger() {
    let config = ShutdownConfig { ctrlc: false, signals: set_of(&[Sig::Hup]), ..Default::default() };
    let triggers = config.trigger_signals().unwrap();
    assert_eq!(triggers, set_of(&[Sig::Hup]));
    assert!(!triggers.contains(&Sig::Int));
}

#[test]
fn config_equality_and_clone() {
    let a = ShutdownConfig::default();
    let b = a.clone();
    assert_eq!(a, b);
    let c = ShutdownConfig { mercy: 4, ..Default::default() };
    assert_ne!(a, c);
    let d = ShutdownConfig { signals: set_of(&[Sig::Hup]), ..Default::default() };
    assert_ne!(a, d);
}

#[test]
fn ctrlc_only_triggers_ignore_configured_signals() {
    let config = ShutdownConfig::default();
    assert_eq!(config.ctrlc_trigger_signals().unwrap(), set_of(&[Sig::Int]));
    let off = ShutdownConfig { ctrlc: false, ..Default::default() };
    assert!(off.ctrlc_trigger_signals().is_none());
    let hup = ShutdownConfig { signals: set_of(&[Sig::Hup]), ..Default::default() };
    assert_eq!(hup.ctrlc_trigger_signals().unwrap(), set_of(&[Sig::Int]));
}

#[test]
fn stall_bound_is_grace_plus_mercy() {
    let config = ShutdownConfig::default();
    assert_eq!(config.grace() + config.mercy(), std::time::Duration::from_secs(5));
    let max = ShutdownConfig { grace: u32::MAX, mercy: u32::MAX, ..Default::default() };
    let total = max.grace().checked_add(max.mercy()).unwrap();
    assert_eq!(total.as_secs(), 2 * u32::MAX as u64);
    assert_eq!(total.subsec_nanos(), 0);
}
