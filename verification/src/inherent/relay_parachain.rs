//! The parachains inherent of a relay chain block, as block building in tests
//! provides it: no bitfields, no backed candidates and no disputes, on top of
//! the parent header.

use crate::builder::parachain::FudgeParaBuild;
use vstd::prelude::*;

verus! {

/// Provides an empty parachains inherent on top of `parent_head`.
pub struct DummyInherent<HDR> {
    parent_head: HDR,
}

impl<HDR> DummyInherent<HDR> {
    /// The header the inherent builds on.
    pub closed spec fn parent(&self) -> HDR {
        self.parent_head
    }

    /// An inherent on top of `parent_head`.
    pub fn new(parent_head: HDR) -> (r: Self)
        ensures
            r.parent() == parent_head,
    {
        Self { parent_head }
    }

    /// The header the inherent builds on.
    pub fn parent_head(&self) -> (r: &HDR)
        ensures
            *r == self.parent(),
    {
        &self.parent_head
    }
}

/// Provides the parachains inherent of a relay chain block from the parachain
/// blocks built for it and the candidates already backed.
pub struct Inherent<HDR, Client, Candidate> {
    para_builds: Vec<FudgeParaBuild>,
    backed_candidates: Vec<Candidate>,
    parent_head: HDR,
    relay: Client,
}

impl<HDR, Client, Candidate> Inherent<HDR, Client, Candidate> {
    /// The header the inherent builds on.
    pub closed spec fn parent(&self) -> HDR {
        self.parent_head
    }

    /// The parachain blocks the inherent was given.
    pub closed spec fn builds(&self) -> Seq<FudgeParaBuild> {
        self.para_builds@
    }

    /// The backed candidates the inherent was given.
    pub closed spec fn candidates(&self) -> Seq<Candidate> {
        self.backed_candidates@
    }

    /// The relay chain client the inherent was given.
    pub closed spec fn client(&self) -> Client {
        self.relay
    }

    /// An inherent on top of `parent_head` for the given parachain blocks and
    /// backed candidates.
    pub fn new(
        relay: Client,
        parent_head: HDR,
        para_builds: Vec<FudgeParaBuild>,
        backed_candidates: Vec<Candidate>,
    ) -> (r: Self)
        ensures
            r.parent() == parent_head,
            r.builds() == para_builds@,
            r.candidates() == backed_candidates@,
            r.client() == relay,
    {
        Self { relay, para_builds, backed_candidates, parent_head }
    }

    /// The header the inherent builds on.
    pub fn parent_head(&self) -> (r: &HDR)
        ensures
            *r == self.parent(),
    {
        &self.parent_head
    }
}

} // verus!
