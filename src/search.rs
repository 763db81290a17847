use vstd::prelude::*;

use crate::crypto::{address_of_secret, private_key_to_address};
use crate::matching::{accepts, address_matches};
use crate::models::FoundAddress;

verus! {

/// Why a search cannot start.
#[derive(Debug, Clone, Copy, PartialEq, Eq, Structural)]
pub enum ConfigError {
    /// Zero matches were asked for.
    ZeroTarget,
}

/// A secret key together with the address derived from it.
pub struct Candidate {
    private_key: [u8; 32],
    address: String,
}

impl Candidate {
    #[verifier::type_invariant]
    spec fn derived(self) -> bool {
        address_of_secret(self.private_key@) == Some(self.address@)
    }

    pub closed spec fn spec_private_key(self) -> Seq<u8> {
        self.private_key@
    }

    pub closed spec fn spec_address(self) -> Seq<char> {
        self.address@
    }

    /// The candidate of a secret key, or `None` where the key is invalid.
    pub fn derive(private_key: [u8; 32]) -> (r: Option<Candidate>)
        ensures
            match r {
                Some(c) => c.spec_private_key() == private_key@ && address_of_secret(private_key@)
                    == Some(c.spec_address()),
                None => address_of_secret(private_key@) is None,
            },
    {
        match private_key_to_address(&private_key) {
            Some(address) => Some(Candidate { private_key, address }),
            None => None,
        }
    }

    pub fn address(&self) -> (r: &str)
        ensures
            r@ == self.spec_address(),
    {
        self.address.as_str()
    }

    pub fn into_found(self) -> (r: FoundAddress)
        ensures
            r.private_key@ == self.spec_private_key(),
            r.address@ == self.spec_address(),
            address_of_secret(r.private_key@) == Some(r.address@),
    {
        proof {
            use_type_invariant(&self);
        }
        FoundAddress { private_key: self.private_key, address: self.address }
    }
}

/// What a worker does after one attempt.
#[derive(Debug, Clone, Copy, PartialEq, Eq, Structural)]
pub enum WorkerStep {
    /// The candidate did not match: go on searching.
    Continue,
    /// The candidate was committed as result number `count`; `last` says that it met the target.
    Committed { count: usize, last: bool },
    /// The target was already met: the candidate is dropped and the worker stops.
    Stop,
}

/// A copy of the search's counters at one moment.
#[derive(Debug, Clone, Copy, PartialEq, Eq, Structural)]
pub struct Snapshot {
    pub committed: usize,
    pub checked: u64,
    pub target: usize,
}

/// Every result's address is derived from its key and satisfies the criteria.
pub open spec fn all_accepted(
    results: Seq<FoundAddress>,
    prefix: Option<String>,
    suffix: Option<String>,
) -> bool {
    forall|i: int|
        0 <= i < results.len() ==> {
            let r = #[trigger] results[i];
            &&& address_of_secret(r.private_key@) == Some(r.address@)
            &&& accepts(r.address@, prefix, suffix)
        }
}

pub open spec fn next_checked(c: u64) -> u64 {
    if c < u64::MAX {
        (c + 1) as u64
    } else {
        c
    }
}

/// The state that the workers of one search share: the committed results, in
/// order of commit, the number of candidates checked, the target, the criteria,
/// and whether the search was aborted.
pub struct SearchState {
    results: Vec<FoundAddress>,
    target: usize,
    checked: u64,
    prefix: Option<String>,
    suffix: Option<String>,
    aborted: bool,
}

impl SearchState {
    #[verifier::type_invariant]
    spec fn inv(self) -> bool {
        &&& 1 <= self.target
        &&& self.results@.len() <= self.target
        &&& all_accepted(self.results@, self.prefix, self.suffix)
    }

    pub closed spec fn spec_results(self) -> Seq<FoundAddress> {
        self.results@
    }

    pub closed spec fn spec_target(self) -> nat {
        self.target as nat
    }

    pub closed spec fn spec_checked(self) -> u64 {
        self.checked
    }

    pub closed spec fn spec_prefix(self) -> Option<String> {
        self.prefix
    }

    pub closed spec fn spec_suffix(self) -> Option<String> {
        self.suffix
    }

    pub closed spec fn spec_aborted(self) -> bool {
        self.aborted
    }

    /// A fresh state for a search for `target` matches; a target of zero is refused.
    pub fn new(target: usize, prefix: Option<String>, suffix: Option<String>) -> (r: Result<
        SearchState,
        ConfigError,
    >)
        ensures
            target == 0 <==> r is Err,
            r is Err ==> r == Err::<SearchState, ConfigError>(ConfigError::ZeroTarget),
            r matches Ok(s) ==> {
                &&& s.spec_results() == Seq::<FoundAddress>::empty()
                &&& s.spec_target() == target
                &&& s.spec_checked() == 0
                &&& s.spec_prefix() == prefix
                &&& s.spec_suffix() == suffix
                &&& !s.spec_aborted()
            },
    {
        if target == 0 {
            return Err(ConfigError::ZeroTarget);
        }
        Ok(SearchState { results: Vec::new(), target, checked: 0, prefix, suffix, aborted: false })
    }

    pub fn target(&self) -> (r: usize)
        ensures
            r == self.spec_target(),
    {
        self.target
    }

    pub fn committed(&self) -> (r: usize)
        ensures
            r == self.spec_results().len(),
            r <= self.spec_target(),
    {
        proof {
            use_type_invariant(self);
        }
        self.results.len()
    }

    pub fn checked(&self) -> (r: u64)
        ensures
            r == self.spec_checked(),
    {
        self.checked
    }

    /// Whether the target has been met (the workers' early check).
    pub fn is_done(&self) -> (r: bool)
        ensures
            r == (self.spec_results().len() >= self.spec_target()),
    {
        self.results.len() >= self.target
    }

    /// Whether workers should stop: the target is met or the search was aborted.
    pub fn should_stop(&self) -> (r: bool)
        ensures
            r == (self.spec_results().len() >= self.spec_target() || self.spec_aborted()),
    {
        self.aborted || self.results.len() >= self.target
    }

    pub fn is_aborted(&self) -> (r: bool)
        ensures
            r == self.spec_aborted(),
    {
        self.aborted
    }

    /// Aborts the search: from now on nothing more is committed.
    pub fn abort(&mut self)
        ensures
            final(self).spec_aborted(),
            final(self).spec_results() == old(self).spec_results(),
            final(self).spec_checked() == old(self).spec_checked(),
            final(self).spec_target() == old(self).spec_target(),
            final(self).spec_prefix() == old(self).spec_prefix(),
            final(self).spec_suffix() == old(self).spec_suffix(),
    {
        proof {
            use_type_invariant(&*self);
        }
        self.aborted = true;
    }

    /// The counters as they stand.
    pub fn snapshot(&self) -> (r: Snapshot)
        ensures
            r.committed == self.spec_results().len(),
            r.checked == self.spec_checked(),
            r.target == self.spec_target(),
            r.committed <= r.target,
    {
        proof {
            use_type_invariant(self);
        }
        Snapshot { committed: self.results.len(), checked: self.checked, target: self.target }
    }

    /// Counts one more checked candidate; the count stops at `u64::MAX`.
    pub fn record_checked(&mut self)
        ensures
            final(self).spec_checked() == next_checked(old(self).spec_checked()),
            final(self).spec_results() == old(self).spec_results(),
            final(self).spec_aborted() == old(self).spec_aborted(),
            final(self).spec_target() == old(self).spec_target(),
            final(self).spec_prefix() == old(self).spec_prefix(),
            final(self).spec_suffix() == old(self).spec_suffix(),
    {
        proof {
            use_type_invariant(&*self);
        }
        self.checked = self.checked.saturating_add(1);
    }

    /// Appends `found` if fewer than `target` results are committed and the search
    /// is not aborted, as one step; returns whether it did.
    pub fn try_commit(&mut self, found: FoundAddress) -> (r: bool)
        requires
            address_of_secret(found.private_key@) == Some(found.address@),
            accepts(found.address@, old(self).spec_prefix(), old(self).spec_suffix()),
        ensures
            r == (!old(self).spec_aborted() && old(self).spec_results().len() < old(
                self,
            ).spec_target()),
            r ==> final(self).spec_results() == old(self).spec_results().push(found),
            !r ==> final(self).spec_results() == old(self).spec_results(),
            final(self).spec_checked() == old(self).spec_checked(),
            final(self).spec_aborted() == old(self).spec_aborted(),
            final(self).spec_target() == old(self).spec_target(),
            final(self).spec_prefix() == old(self).spec_prefix(),
            final(self).spec_suffix() == old(self).spec_suffix(),
    {
        proof {
            use_type_invariant(&*self);
        }
        if self.aborted || self.results.len() >= self.target {
            return false;
        }
        let mut results: Vec<FoundAddress> = Vec::new();
        std::mem::swap(&mut results, &mut self.results);
        results.push(found);
        assert(all_accepted(results@, self.prefix, self.suffix)) by {
            assert forall|i: int| 0 <= i < results@.len() implies {
                &&& address_of_secret(#[trigger] results@[i].private_key@) == Some(
                    results@[i].address@,
                )
                &&& accepts(results@[i].address@, self.prefix, self.suffix)
            } by {
                if i < results@.len() - 1 {
                    assert(results@[i] == old(self).spec_results()[i]);
                }
            }
        }
        self.results = results;
        true
    }

    /// One attempt of a worker: counts the candidate, and commits it if it satisfies
    /// the criteria, the target is not yet met and the search is not aborted.
    pub fn record_attempt(&mut self, candidate: Option<Candidate>) -> (r: WorkerStep)
        ensures
            final(self).spec_checked() == next_checked(old(self).spec_checked()),
            final(self).spec_aborted() == old(self).spec_aborted(),
            final(self).spec_target() == old(self).spec_target(),
            final(self).spec_prefix() == old(self).spec_prefix(),
            final(self).spec_suffix() == old(self).spec_suffix(),
            match candidate {
                Some(c) if accepts(c.spec_address(), old(self).spec_prefix(), old(self).spec_suffix()) => {
                    let n = old(self).spec_results().len();
                    if n < old(self).spec_target() && !old(self).spec_aborted() {
                        &&& final(self).spec_results().len() == n + 1
                        &&& final(self).spec_results().last().private_key@ == c.spec_private_key()
                        &&& final(self).spec_results().last().address@ == c.spec_address()
                        &&& final(self).spec_results().drop_last() == old(self).spec_results()
                        &&& r == WorkerStep::Committed { count: (n + 1) as usize, last: n + 1 == old(self).spec_target() }
                    } else {
                        &&& final(self).spec_results() == old(self).spec_results()
                        &&& r == WorkerStep::Stop
                    }
                },
                _ => {
                    &&& final(self).spec_results() == old(self).spec_results()
                    &&& r == WorkerStep::Continue
                },
            },
    {
        self.record_checked();
        match candidate {
            None => WorkerStep::Continue,
            Some(c) => {
                if !address_matches(c.address(), &self.prefix, &self.suffix) {
                    return WorkerStep::Continue;
                }
                let found = c.into_found();
                if self.try_commit(found) {
                    proof {
                        use_type_invariant(&*self);
                    }
                    let count = self.results.len();
                    WorkerStep::Committed { count, last: count == self.target }
                } else {
                    WorkerStep::Stop
                }
            },
        }
    }

    /// The committed results, in order of commit: never more than the target,
    /// each derived from its key and accepted by the criteria.
    pub fn into_results(self) -> (r: Vec<FoundAddress>)
        ensures
            r@ == self.spec_results(),
            r@.len() <= self.spec_target(),
            self.spec_results().len() >= self.spec_target() ==> r@.len() == self.spec_target(),
            all_accepted(r@, self.spec_prefix(), self.spec_suffix()),
    {
        proof {
            use_type_invariant(&self);
        }
        self.results
    }
}

} // verus!
