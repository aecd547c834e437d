//! The registry of protocol factories, one per protocol.

use vstd::prelude::*;
use crate::table::{distinct_keys, key_map, lemma_key_lookup, lemma_key_push, lemma_key_update};
use crate::types::ProtocolKind;

verus! {

/// The protocols in `kinds`, in the order FTP, FTPS, SFTP.
pub open spec fn supported_kinds(kinds: Set<ProtocolKind>) -> Seq<ProtocolKind> {
    (if kinds.contains(ProtocolKind::Ftp) { seq![ProtocolKind::Ftp] } else { seq![] })
        + (if kinds.contains(ProtocolKind::Ftps) { seq![ProtocolKind::Ftps] } else { seq![] })
        + (if kinds.contains(ProtocolKind::Sftp) { seq![ProtocolKind::Sftp] } else { seq![] })
}

/// The rank by which protocols are listed.
pub open spec fn protocol_rank(kind: ProtocolKind) -> int {
    match kind {
        ProtocolKind::Ftp => 0,
        ProtocolKind::Ftps => 1,
        ProtocolKind::Sftp => 2,
    }
}

/// Holds one factory per registered protocol.
pub struct ProtocolRegistry<F> {
    factories: Vec<(ProtocolKind, F)>,
}

impl<F> View for ProtocolRegistry<F> {
    type V = Map<ProtocolKind, F>;

    closed spec fn view(&self) -> Map<ProtocolKind, F> {
        key_map(self.factories@)
    }
}

impl<F> ProtocolRegistry<F> {
    #[verifier::type_invariant]
    spec fn distinct(&self) -> bool {
        distinct_keys(self.factories@)
    }

    /// A registry with no protocol.
    pub fn new() -> (r: ProtocolRegistry<F>)
        ensures
            r@ == Map::<ProtocolKind, F>::empty(),
    {
        let r = ProtocolRegistry { factories: Vec::new() };
        assert(r@ =~= Map::<ProtocolKind, F>::empty());
        r
    }

    fn position(&self, protocol: ProtocolKind) -> (r: Option<usize>)
        ensures
            match r {
                Some(i) => i < self.factories@.len() && self.factories@[i as int].0 == protocol,
                None => !self@.contains_key(protocol),
            },
    {
        let mut i: usize = 0;
        while i < self.factories.len()
            invariant
                i <= self.factories@.len(),
                forall|j: int| 0 <= j < i ==> self.factories@[j].0 != protocol,
            decreases self.factories.len() - i,
        {
            if self.factories[i].0 == protocol {
                return Some(i);
            }
            i = i + 1;
        }
        None
    }

    /// Registers `factory` for `protocol`, replacing any factory registered
    /// for it before.
    pub fn register(&mut self, protocol: ProtocolKind, factory: F)
        ensures
            final(self)@ == old(self)@.insert(protocol, factory),
    {
        proof {
            use_type_invariant(&*self);
        }
        let ghost before = self.factories@;
        let found = self.position(protocol);
        let mut entries: Vec<(ProtocolKind, F)> = Vec::new();
        std::mem::swap(&mut entries, &mut self.factories);
        assert(entries@ == before);
        match found {
            Some(i) => {
                proof {
                    lemma_key_update(before, i as int, factory);
                }
                entries.set(i, (protocol, factory));
                self.factories = entries;
            },
            None => {
                proof {
                    lemma_key_push(before, protocol, factory);
                }
                entries.push((protocol, factory));
                self.factories = entries;
            },
        }
    }

    /// The factory registered for `protocol`, if any.
    pub fn get(&self, protocol: ProtocolKind) -> (r: Option<&F>)
        ensures
            match r {
                Some(f) => self@.contains_key(protocol) && *f == self@[protocol],
                None => !self@.contains_key(protocol),
            },
    {
        proof {
            use_type_invariant(self);
        }
        match self.position(protocol) {
            Some(i) => {
                proof {
                    lemma_key_lookup(self.factories@, i as int);
                }
                Some(&self.factories[i].1)
            },
            None => None,
        }
    }

    /// Whether a factory is registered for `protocol`.
    pub fn contains(&self, protocol: ProtocolKind) -> (r: bool)
        ensures
            r == self@.contains_key(protocol),
    {
        proof {
            use_type_invariant(self);
        }
        match self.position(protocol) {
            Some(i) => {
                proof {
                    lemma_key_lookup(self.factories@, i as int);
                }
                true
            },
            None => false,
        }
    }

    /// The registered protocols, each once, in the order FTP, FTPS, SFTP.
    pub fn supported(&self) -> (r: Vec<ProtocolKind>)
        ensures
            r@ == supported_kinds(self@.dom()),
    {
        let mut r: Vec<ProtocolKind> = Vec::new();
        if self.contains(ProtocolKind::Ftp) {
            r.push(ProtocolKind::Ftp);
        }
        if self.contains(ProtocolKind::Ftps) {
            r.push(ProtocolKind::Ftps);
        }
        if self.contains(ProtocolKind::Sftp) {
            r.push(ProtocolKind::Sftp);
        }
        assert(r@ =~= supported_kinds(self@.dom()));
        r
    }
}

/// The list that `supported` gives is sorted by rank and names every
/// registered protocol exactly once.
pub proof fn lemma_supported_sorted_and_complete(kinds: Set<ProtocolKind>)
    ensures
        forall|i: int, j: int|
            0 <= i < j < supported_kinds(kinds).len() ==> protocol_rank(supported_kinds(kinds)[i])
                < protocol_rank(supported_kinds(kinds)[j]),
        forall|k: ProtocolKind| kinds.contains(k) <==> supported_kinds(kinds).contains(k),
{
    let s = supported_kinds(kinds);
    assert forall|k: ProtocolKind| kinds.contains(k) <==> s.contains(k) by {
        if kinds.contains(k) {
            match k {
                ProtocolKind::Ftp => assert(s[0] == k),
                ProtocolKind::Ftps => {
                    let i: int = if kinds.contains(ProtocolKind::Ftp) { 1 } else { 0 };
                    assert(s[i] == k);
                },
                ProtocolKind::Sftp => {
                    assert(s[s.len() - 1] == k);
                },
            }
        }
    };
}

} // verus!
