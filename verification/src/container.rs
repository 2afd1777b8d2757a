//! Execution-unit lifecycle model.
//!
//! A [`Container`] owns the identity and lifecycle record of one isolated
//! execution unit of a connector image. The container-engine calls
//! themselves (pull, create, start, stop, remove) are made by the caller
//! that drives the operation; after each completed engine step the caller
//! records it here, and the recorded lifecycle can only move forward:
//! empty, prepared, created (an id is assigned), started, removed. The
//! counters of created and torn-down units let callers state that every
//! unit they create is released exactly once.

use vstd::prelude::*;

verus! {

/// Lifecycle stages of one execution unit.
#[derive(Debug, Clone, Copy, PartialEq, Eq, Structural)]
pub enum Phase {
    /// Constructed; no engine resources are held.
    Empty,
    /// The image is present locally.
    Prepared,
    /// The unit exists in the engine and holds an id.
    Created,
    /// The unit runs with its output stream attached.
    Started,
    /// Compute and volumes have been released.
    Removed,
}

/// Mathematical model of a [`Container`].
pub struct ContainerView {
    /// The image repository the unit runs.
    pub image_name: Seq<char>,
    /// The image tag.
    pub image_tag: Seq<char>,
    /// The engine-assigned id, present from creation on.
    pub unit_id: Option<Seq<char>>,
    /// How far the lifecycle has advanced.
    pub phase: Phase,
    /// How many units this record created (0 or 1).
    pub created: nat,
    /// How many times the created unit was torn down (0 or 1).
    pub torn_down: nat,
}

impl ContainerView {
    /// The lifecycle record is consistent: at most one unit is created, it
    /// is torn down at most once, an id exists exactly while a unit does,
    /// and the teardown count reaches one exactly at removal.
    pub open spec fn wf(self) -> bool {
        &&& self.created <= 1
        &&& self.torn_down <= self.created
        &&& (self.created == 1 <==> (self.phase is Created || self.phase is Started
            || self.phase is Removed))
        &&& (self.unit_id is Some <==> self.created == 1)
        &&& (self.torn_down == 1 <==> self.phase is Removed)
    }
}

/// Identity and lifecycle record of one execution unit.
pub struct Container {
    image_name: String,
    image_tag: String,
    unit_id: Option<String>,
    phase: Phase,
    created: u32,
    torn_down: u32,
}

impl View for Container {
    type V = ContainerView;

    closed spec fn view(&self) -> ContainerView {
        ContainerView {
            image_name: self.image_name@,
            image_tag: self.image_tag@,
            unit_id: match self.unit_id {
                Some(id) => Some(id@),
                None => None,
            },
            phase: self.phase,
            created: self.created as nat,
            torn_down: self.torn_down as nat,
        }
    }
}

impl Container {
    /// A fresh record: no image chosen, nothing created.
    pub fn new() -> (r: Container)
        ensures
            r@.wf(),
            r@.phase is Empty,
            r@.image_name.len() == 0,
            r@.image_tag.len() == 0,
            r@.unit_id is None,
            r@.created == 0,
            r@.torn_down == 0,
    {
        Container {
            image_name: String::new(),
            image_tag: String::new(),
            unit_id: None,
            phase: Phase::Empty,
            created: 0,
            torn_down: 0,
        }
    }

    /// Chooses the image repository to pull and run.
    pub fn image_name(&mut self, image: &str)
        requires
            old(self)@.phase is Empty,
        ensures
            final(self)@ == (ContainerView { image_name: image@, ..old(self)@ }),
    {
        self.image_name = image.to_owned();
    }

    /// Chooses the image tag to pull and run.
    pub fn image_tag(&mut self, tag: &str)
        requires
            old(self)@.phase is Empty,
        ensures
            final(self)@ == (ContainerView { image_tag: tag@, ..old(self)@ }),
    {
        self.image_tag = tag.to_owned();
    }

    /// The chosen image repository.
    pub fn image(&self) -> (r: &String)
        ensures
            r@ == self@.image_name,
    {
        &self.image_name
    }

    /// The chosen image tag.
    pub fn tag(&self) -> (r: &String)
        ensures
            r@ == self@.image_tag,
    {
        &self.image_tag
    }

    /// The engine-assigned unit id, once a unit exists.
    pub fn unit_id(&self) -> (r: &Option<String>)
        ensures
            match r {
                Some(id) => self@.unit_id == Some(id@),
                None => self@.unit_id is None,
            },
    {
        &self.unit_id
    }

    /// How far the lifecycle has advanced.
    pub fn phase(&self) -> (p: Phase)
        ensures
            p == self@.phase,
    {
        self.phase
    }

    /// How many units this record created (0 or 1).
    pub fn created_count(&self) -> (n: u32)
        ensures
            n as nat == self@.created,
    {
        self.created
    }

    /// How many times the created unit was torn down (0 or 1).
    pub fn teardown_count(&self) -> (n: u32)
        ensures
            n as nat == self@.torn_down,
    {
        self.torn_down
    }

    /// Records that the image is present locally.
    pub fn mark_prepared(&mut self)
        requires
            old(self)@.wf(),
            old(self)@.phase is Empty,
        ensures
            final(self)@ == (ContainerView { phase: Phase::Prepared, ..old(self)@ }),
            final(self)@.wf(),
    {
        self.phase = Phase::Prepared;
    }

    /// Records that the engine created a unit and assigned it `id`.
    pub fn mark_created(&mut self, id: String)
        requires
            old(self)@.wf(),
            old(self)@.phase is Prepared,
        ensures
            final(self)@ == (ContainerView {
                phase: Phase::Created,
                unit_id: Some(id@),
                created: old(self)@.created + 1,
                ..old(self)@
            }),
            final(self)@.wf(),
    {
        self.unit_id = Some(id);
        self.phase = Phase::Created;
        self.created = self.created + 1;
    }

    /// Records that the unit started with its output attached.
    pub fn mark_started(&mut self)
        requires
            old(self)@.wf(),
            old(self)@.phase is Created,
        ensures
            final(self)@ == (ContainerView { phase: Phase::Started, ..old(self)@ }),
            final(self)@.wf(),
    {
        self.phase = Phase::Started;
    }

    /// Records that the unit was stopped and removed. A unit is torn down
    /// at most once: removal demands a live unit.
    pub fn mark_removed(&mut self)
        requires
            old(self)@.wf(),
            old(self)@.phase is Created || old(self)@.phase is Started,
        ensures
            final(self)@ == (ContainerView {
                phase: Phase::Removed,
                torn_down: old(self)@.torn_down + 1,
                ..old(self)@
            }),
            final(self)@.wf(),
    {
        self.phase = Phase::Removed;
        self.torn_down = self.torn_down + 1;
    }
}

/// A removed unit was created once and torn down once: teardown happens
/// exactly once per created unit.
pub proof fn lemma_removed_unit_torn_down_once(v: ContainerView)
    requires
        v.wf(),
        v.phase is Removed,
    ensures
        v.created == 1,
        v.torn_down == 1,
{
}

} // verus!
