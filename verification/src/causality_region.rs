//! Causality regions: isolation domains for entity writes.
//!
//! All chain-native and subgraph-derived writes share the reserved
//! `ONCHAIN` region. Every offchain data source is assigned a fresh
//! region at creation, so that its writes are causally isolated from
//! every other region.

use vstd::prelude::*;

verus! {

/// The integer identifier of the reserved on-chain region.
pub const ONCHAIN_REGION_ID: i32 = 0;

/// An isolation domain for entity writes. Regions partition writes so
/// that effects with different determinism guarantees are never
/// causally merged.
#[derive(Clone, Copy, Debug, PartialEq, Eq, Hash, Structural)]
pub struct CausalityRegion {
    /// The raw region identifier, as persisted in stored records.
    pub id: i32,
}

impl CausalityRegion {
    /// The identifier this region carries.
    pub open spec fn spec_id(&self) -> i32 {
        self.id
    }

    /// The reserved region shared by all chain-native and
    /// subgraph-derived writes.
    pub open spec fn spec_onchain() -> CausalityRegion {
        CausalityRegion { id: ONCHAIN_REGION_ID }
    }

    /// True of the reserved on-chain region and of no other.
    pub open spec fn is_onchain(&self) -> bool {
        self.spec_id() == ONCHAIN_REGION_ID
    }

    /// Returns the reserved on-chain region.
    pub fn onchain() -> (r: CausalityRegion)
        ensures
            r == CausalityRegion::spec_onchain(),
    {
        CausalityRegion { id: ONCHAIN_REGION_ID }
    }

    /// The region's identifier, as stored in a dynamic data source
    /// record.
    pub fn id(&self) -> (r: i32)
        ensures
            r == self.spec_id(),
    {
        self.id
    }

    /// Rebuilds a region from a stored identifier.
    pub fn from_id(id: i32) -> (r: CausalityRegion)
        ensures
            r.spec_id() == id,
    {
        CausalityRegion { id }
    }
}

/// An allocator of fresh causality regions. One lives per deployment;
/// each offchain data source created at runtime draws its region here.
#[derive(Clone, Copy, Debug, PartialEq, Eq, Structural)]
pub struct CausalityRegionSeq {
    /// The identifier the next allocation will carry.
    pub next_id: i32,
}

impl CausalityRegionSeq {
    /// The allocator never hands out the reserved on-chain region.
    pub open spec fn wf(&self) -> bool {
        self.spec_next_id() > ONCHAIN_REGION_ID
    }

    /// The identifier the next allocation will carry.
    pub open spec fn spec_next_id(&self) -> i32 {
        self.next_id
    }

    /// The region a well-formed allocator hands out next.
    pub open spec fn spec_next_region(&self) -> CausalityRegion {
        CausalityRegion { id: self.spec_next_id() }
    }

    /// A fresh allocator whose first region is the successor of
    /// `ONCHAIN`.
    pub fn new() -> (r: CausalityRegionSeq)
        ensures
            r.wf(),
            r.spec_next_id() == ONCHAIN_REGION_ID + 1,
    {
        CausalityRegionSeq { next_id: ONCHAIN_REGION_ID + 1 }
    }

    /// Resumes allocation after a restart, from the largest stored
    /// region identifier.
    pub fn from_highest(highest: i32) -> (r: CausalityRegionSeq)
        requires
            highest < i32::MAX,
        ensures
            r.wf(),
            r.spec_next_id() == if highest >= ONCHAIN_REGION_ID {
                highest + 1
            } else {
                ONCHAIN_REGION_ID + 1
            },
    {
        if highest >= ONCHAIN_REGION_ID {
            CausalityRegionSeq { next_id: highest + 1 }
        } else {
            CausalityRegionSeq { next_id: ONCHAIN_REGION_ID + 1 }
        }
    }

    /// Allocates a fresh region, distinct from `ONCHAIN` and from every
    /// region this allocator handed out before.
    pub fn next_region(&mut self) -> (r: CausalityRegion)
        requires
            old(self).wf(),
            old(self).spec_next_id() < i32::MAX,
        ensures
            final(self).wf(),
            r == old(self).spec_next_region(),
            !r.is_onchain(),
            final(self).spec_next_id() == old(self).spec_next_id() + 1,
    {
        let r = CausalityRegion { id: self.next_id };
        self.next_id = self.next_id + 1;
        r
    }
}

/// Regions drawn from one well-formed allocator are pairwise distinct,
/// and none of them is the reserved on-chain region: the allocator only
/// moves forward, so two draws at different states never collide.
pub proof fn lemma_fresh_regions_distinct(s0: CausalityRegionSeq, s1: CausalityRegionSeq)
    requires
        s0.wf(),
        s1.wf(),
        s0.spec_next_id() < s1.spec_next_id(),
    ensures
        s0.spec_next_region() != s1.spec_next_region(),
        !s0.spec_next_region().is_onchain(),
        !s1.spec_next_region().is_onchain(),
{
}

} // verus!
