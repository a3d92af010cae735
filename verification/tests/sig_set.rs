use rocketkit::sig::Sig;
use rocketkit::sig_set::SigSet;

#[test]
fn empty_set() {
    let set = SigSet::new();
    assert!(set.is_empty());
    assert_eq!(set.len(), 0);
    assert!(!set.contains(&Sig::Term));
    assert!(set.to_vec().is_empty());
}

#[test]
fn insert_reports_freshness() {
    let mut set = SigSet::new();
    assert!(set.insert(Sig::Term));
    assert!(!set.insert(Sig::Term));
    assert!(set.insert(Sig::Hup));
    assert_eq!(set.len(), 2);
    assert!(!set.is_empty());
    assert!(set.contains(&Sig::Term));
    assert!(set.contains(&Sig::Hup));
    assert!(!set.contains(&Sig::Int));
    let listed = set.to_vec();
    assert_eq!(listed.len(), 2);
    assert!(listed.contains(&Sig::Term));
    assert!(listed.contains(&Sig::Hup));
}

#[test]
fn equality_ignores_insertion_order() {
    let mut a = SigSet::new();
    a.insert(Sig::Usr1);
    a.insert(Sig::Usr2);
    let mut b = SigSet::new();
    b.insert(Sig::Usr2);
    b.insert(Sig::Usr1);
    b.insert(Sig::Usr2);
    assert_eq!(a, b);
    b.insert(Sig::Quit);
    assert_ne!(a, b);
    let mut c = SigSet::new();
    c.insert(Sig::Usr1);
    c.insert(Sig::Quit);
    assert_ne!(a, c);
}

#[test]
fn clone_keeps_signals() {
    let mut a = SigSet::new();
    a.insert(Sig::Pipe);
    a.insert(Sig::Chld);
    let b = a.clone();
    assert_eq!(a, b);
    let listed = b.to_vec();
    assert_eq!(listed.len(), 2);
    assert!(listed.contains(&Sig::Pipe));
    assert!(listed.contains(&Sig::Chld));
}
