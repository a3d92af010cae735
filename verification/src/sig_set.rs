//! A finite set of shutdown signals.
use vstd::prelude::*;

use vstd::std_specs::cmp::{PartialEqSpec, PartialEqSpecImpl};

use crate::sig::Sig;

verus! {

/// A set of signals: each signal occurs in it at most once.
#[derive(Debug)]
pub struct SigSet {
    sigs: Vec<Sig>,
}

impl View for SigSet {
    type V = Set<Sig>;

    closed spec fn view(&self) -> Set<Sig> {
        self.sigs@.to_set()
    }
}

impl SigSet {
    /// No signal is stored twice.
    #[verifier::type_invariant]
    closed spec fn inv(self) -> bool {
        self.sigs@.no_duplicates()
    }

    /// Creates an empty set.
    pub fn new() -> (s: SigSet)
        ensures
            s@ == Set::<Sig>::empty(),
    {
        let s = SigSet { sigs: Vec::new() };
        assert(s@ =~= Set::<Sig>::empty());
        s
    }

    /// Returns `true` if `sig` is in the set.
    pub fn contains(&self, sig: &Sig) -> (b: bool)
        ensures
            b == self@.contains(*sig),
    {
        let mut i: usize = 0;
        while i < self.sigs.len()
            invariant
                i <= self.sigs@.len(),
                forall|j: int| 0 <= j < i ==> self.sigs@[j] != *sig,
            decreases self.sigs@.len() - i,
        {
            if self.sigs[i] == *sig {
                assert(self.sigs@.to_set().contains(self.sigs@[i as int]));
                return true;
            }
            i = i + 1;
        }
        proof {
            if self.sigs@.to_set().contains(*sig) {
                let k = choose|k: int| 0 <= k < self.sigs@.len() && self.sigs@[k] == *sig;
                assert(self.sigs@[k] == *sig);
            }
        }
        false
    }

    /// Adds `sig` to the set. Returns `true` if it was not in the set before.
    pub fn insert(&mut self, sig: Sig) -> (fresh: bool)
        ensures
            final(self)@ == old(self)@.insert(sig),
            fresh == !old(self)@.contains(sig),
    {
        if self.contains(&sig) {
            assert(self@.insert(sig) =~= self@);
            false
        } else {
            proof {
                use_type_invariant(&*self);
            }
            let ghost before = self.sigs@;
            let mut sigs: Vec<Sig> = Vec::new();
            std::mem::swap(&mut sigs, &mut self.sigs);
            sigs.push(sig);
            self.sigs = sigs;
            assert(self.sigs@ == before.push(sig));
            assert(self.sigs@.to_set() =~= before.to_set().insert(sig)) by {
                assert forall|x: Sig| self.sigs@.to_set().contains(x) implies before.to_set().insert(sig).contains(x) by {
                    let k = choose|k: int| 0 <= k < self.sigs@.len() && self.sigs@[k] == x;
                    if k < before.len() {
                        assert(before[k] == x);
                    }
                }
                assert forall|x: Sig| before.to_set().insert(sig).contains(x) implies self.sigs@.to_set().contains(x) by {
                    if x == sig {
                        assert(self.sigs@[before.len() as int] == sig);
                    } else {
                        let k = choose|k: int| 0 <= k < before.len() && before[k] == x;
                        assert(self.sigs@[k] == x);
                    }
                }
            }
            true
        }
    }

    /// The number of signals in the set.
    pub fn len(&self) -> (n: usize)
        ensures
            self@.finite(),
            n == self@.len(),
    {
        proof {
            use_type_invariant(self);
            self.sigs@.unique_seq_to_set();
        }
        self.sigs.len()
    }

    /// Returns `true` if the set has no signals.
    pub fn is_empty(&self) -> (b: bool)
        ensures
            b == (self@ == Set::<Sig>::empty()),
    {
        proof {
            self.sigs@.lemma_cardinality_of_empty_set_is_0();
            if self.sigs@.len() > 0 {
                assert(self.sigs@.to_set().contains(self.sigs@[0]));
            }
        }
        assert(self.sigs@.len() == 0 ==> self@ =~= Set::<Sig>::empty());
        self.sigs.len() == 0
    }

    /// The signals of the set, each once.
    pub fn to_vec(&self) -> (v: Vec<Sig>)
        ensures
            v@.no_duplicates(),
            v@.to_set() == self@,
    {
        proof {
            use_type_invariant(self);
        }
        let mut v: Vec<Sig> = Vec::new();
        let mut i: usize = 0;
        while i < self.sigs.len()
            invariant
                i <= self.sigs@.len(),
                v@ == self.sigs@.subrange(0, i as int),
            decreases self.sigs@.len() - i,
        {
            v.push(self.sigs[i]);
            i = i + 1;
            assert(v@ =~= self.sigs@.subrange(0, i as int));
        }
        assert(v@ =~= self.sigs@);
        v
    }
}

impl Clone for SigSet {
    fn clone(&self) -> (copy: Self)
        ensures
            copy@ == self@,
    {
        SigSet { sigs: self.to_vec() }
    }
}

impl PartialEq for SigSet {
    /// Two sets are equal when they hold the same signals, in whatever order they were added.
    fn eq(&self, other: &Self) -> (same: bool) {
        proof {
            use_type_invariant(self);
            use_type_invariant(other);
            self.sigs@.unique_seq_to_set();
            other.sigs@.unique_seq_to_set();
        }
        if self.sigs.len() != other.sigs.len() {
            return false;
        }
        let mut i: usize = 0;
        while i < self.sigs.len()
            invariant
                i <= self.sigs@.len(),
                forall|j: int| 0 <= j < i ==> other@.contains(#[trigger] self.sigs@[j]),
            decreases self.sigs@.len() - i,
        {
            if !other.contains(&self.sigs[i]) {
                assert(self@.contains(self.sigs@[i as int]));
                return false;
            }
            i = i + 1;
        }
        proof {
            assert forall|x: Sig| self@.contains(x) implies other@.contains(x) by {
                let k = choose|k: int| 0 <= k < self.sigs@.len() && self.sigs@[k] == x;
                assert(other@.contains(self.sigs@[k]));
            }
            vstd::set_lib::lemma_subset_equality(self@, other@);
        }
        true
    }
}

impl PartialEqSpecImpl for SigSet {
    open spec fn obeys_eq_spec() -> bool {
        true
    }

    open spec fn eq_spec(&self, other: &SigSet) -> bool {
        self@ == other@
    }
}

/// Two signal sets are equal exactly when they hold the same signals: every
/// signal in either set is in the other. Equality is therefore symmetric, and a
/// set is never equal to a strict superset of it.
pub proof fn lemma_sig_set_eq_same_signals(a: SigSet, b: SigSet)
    ensures
        PartialEqSpec::eq_spec(&a, &b) <==> (forall|x: Sig| a@.contains(x) <==> b@.contains(x)),
        PartialEqSpec::eq_spec(&a, &b) == PartialEqSpec::eq_spec(&b, &a),
        PartialEqSpec::eq_spec(&a, &a),
        (exists|x: Sig| b@.contains(x) && !a@.contains(x)) ==> !PartialEqSpec::eq_spec(&a, &b),
        (exists|x: Sig| a@.contains(x) && !b@.contains(x)) ==> !PartialEqSpec::eq_spec(&a, &b),
{
    if forall|x: Sig| a@.contains(x) <==> b@.contains(x) {
        assert(a@ =~= b@);
    }
}

} // verus!
