//! The last public address seen for each family.
//!
//! The cache lives in memory only. It is a hint that lets a pass stop early
//! when the address has not moved; losing it costs one extra provider call
//! and never a wrong update.

use vstd::prelude::*;
use crate::addr::{IpAddress, Ipv4, Ipv6};

verus! {

/// The addresses last observed, one slot per family.
#[derive(Clone, Copy, Debug, PartialEq, Eq, Structural)]
pub struct LookupCache {
    v4: Option<Ipv4>,
    v6: Option<Ipv6>,
}

/// What an observation meant for the slot it was written to.
#[derive(Debug, PartialEq, Eq, Structural)]
pub enum UpdateResult<T> {
    /// Nothing had been observed before.
    Initialized,
    /// The address differs from the previous one, which is handed back.
    Updated(T),
    /// The address is the one already held.
    Unchanged,
}

/// What observing `seen` means for a slot that holds `prev`.
pub open spec fn observe<T>(prev: Option<T>, seen: T) -> UpdateResult<T> {
    match prev {
        None => UpdateResult::Initialized,
        Some(old) => if old == seen {
            UpdateResult::Unchanged
        } else {
            UpdateResult::Updated(old)
        },
    }
}

impl<T> UpdateResult<T> {
    /// Whether the caller has to go on and reconcile: true unless the address
    /// is unchanged.
    pub open spec fn must_proceed(self) -> bool {
        !(self is Unchanged)
    }
}

impl LookupCache {
    /// The IPv4 slot.
    pub closed spec fn v4(self) -> Option<Ipv4> {
        self.v4
    }

    /// The IPv6 slot.
    pub closed spec fn v6(self) -> Option<Ipv6> {
        self.v6
    }

    /// The cache that has observed nothing.
    pub closed spec fn empty() -> LookupCache {
        LookupCache { v4: None, v6: None }
    }

    /// The cache after `addr` was observed: the slot of its family holds it,
    /// the other slot is as it was.
    pub closed spec fn saw(self, addr: IpAddress) -> LookupCache {
        match addr {
            IpAddress::V4(a) => LookupCache { v4: Some(a), v6: self.v6 },
            IpAddress::V6(a) => LookupCache { v4: self.v4, v6: Some(a) },
        }
    }

    /// A cache that has observed nothing.
    pub fn new() -> (cache: LookupCache)
        ensures
            cache == LookupCache::empty(),
            cache.v4() is None,
            cache.v6() is None,
    {
        LookupCache { v4: None, v6: None }
    }

    /// Records `v4` as the current IPv4 address and reports how it relates to
    /// the previous observation. The IPv6 slot is left alone.
    pub fn update_v4(&mut self, v4: &Ipv4) -> (res: UpdateResult<Ipv4>)
        ensures
            res == observe(old(self).v4(), *v4),
            *final(self) == old(self).saw(IpAddress::V4(*v4)),
            final(self).v4() == Some(*v4),
            final(self).v6() == old(self).v6(),
    {
        let res = match self.v4 {
            None => UpdateResult::Initialized,
            Some(prev) => if prev == *v4 {
                UpdateResult::Unchanged
            } else {
                UpdateResult::Updated(prev)
            },
        };
        self.v4 = Some(*v4);
        res
    }

    /// Records `v6` as the current IPv6 address and reports how it relates to
    /// the previous observation. The IPv4 slot is left alone.
    pub fn update_v6(&mut self, v6: &Ipv6) -> (res: UpdateResult<Ipv6>)
        ensures
            res == observe(old(self).v6(), *v6),
            *final(self) == old(self).saw(IpAddress::V6(*v6)),
            final(self).v6() == Some(*v6),
            final(self).v4() == old(self).v4(),
    {
        let res = match self.v6 {
            None => UpdateResult::Initialized,
            Some(prev) => if prev == *v6 {
                UpdateResult::Unchanged
            } else {
                UpdateResult::Updated(prev)
            },
        };
        self.v6 = Some(*v6);
        res
    }
}

impl Default for LookupCache {
    fn default() -> (cache: LookupCache)
        ensures
            cache == LookupCache::empty(),
            cache.v4() is None,
            cache.v6() is None,
    {
        LookupCache::new()
    }
}

/// Two cycles observe the IPv4 addresses `first` and `second`. The second
/// observation reports `Unchanged` if the two are the same address, and
/// otherwise `Updated` with `first`, the previous value, exposed; whatever
/// the cache held before the first. The IPv6 slot is as it was.
pub proof fn lemma_second_observation_v4(cache: LookupCache, first: Ipv4, second: Ipv4)
    ensures
        observe(cache.saw(IpAddress::V4(first)).v4(), second) == if first == second {
            UpdateResult::Unchanged
        } else {
            UpdateResult::Updated(first)
        },
        observe(cache.saw(IpAddress::V4(first)).v4(), second).must_proceed() <==> first != second,
        cache.saw(IpAddress::V4(first)).v6() == cache.v6(),
{
}

/// Two cycles observe the IPv6 addresses `first` and `second`. The second
/// observation reports `Unchanged` if the two are the same address, and
/// otherwise `Updated` with `first`, the previous value, exposed; whatever
/// the cache held before the first. The IPv4 slot is as it was.
pub proof fn lemma_second_observation_v6(cache: LookupCache, first: Ipv6, second: Ipv6)
    ensures
        observe(cache.saw(IpAddress::V6(first)).v6(), second) == if first == second {
            UpdateResult::Unchanged
        } else {
            UpdateResult::Updated(first)
        },
        observe(cache.saw(IpAddress::V6(first)).v6(), second).must_proceed() <==> first != second,
        cache.saw(IpAddress::V6(first)).v4() == cache.v4(),
{
}

/// The first observation of either family after the start of the process
/// reports `Initialized`, so the caller proceeds.
pub proof fn lemma_first_observation(v4: Ipv4, v6: Ipv6)
    ensures
        observe(LookupCache::empty().v4(), v4) == UpdateResult::<Ipv4>::Initialized,
        observe(LookupCache::empty().v6(), v6) == UpdateResult::<Ipv6>::Initialized,
        observe(LookupCache::empty().v4(), v4).must_proceed(),
        observe(LookupCache::empty().v6(), v6).must_proceed(),
{
}

} // verus!
