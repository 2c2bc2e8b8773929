//! The process-wide instance registry: a table from instance identifier to
//! that instance's command-queue producer handle and running flag.
//! Identifiers increase monotonically and are never reused, even after
//! destruction, so a stale handle can never alias a newer instance.  The
//! host serializes all access to the registry (a single mutual-exclusion
//! lock suffices); the registry itself is the data under that lock.

use std::collections::HashMap;

use vstd::prelude::*;

use crate::event::AppEvent;
use crate::event_handler::clone_sender;

verus! {

broadcast use vstd::std_specs::hash::group_hash_axioms;

/// One instance's record: the producer handle onto its command queue, and
/// whether its render loop is live.
pub struct InstanceData {
    pub sender: std::sync::mpsc::Sender<AppEvent>,
    pub running: bool,
}

/// The table of rendering instances.
pub struct Registry {
    next_id: u32,
    table: HashMap<u32, InstanceData>,
    allocated: Ghost<Set<u32>>,
}

impl Registry {
    /// The registered instances, by identifier.
    pub closed spec fn instances(&self) -> Map<u32, InstanceData> {
        self.table@
    }

    /// Every identifier ever allocated, registered or not, alive or not.
    pub closed spec fn allocated_ids(&self) -> Set<u32> {
        self.allocated@
    }

    /// The next identifier to be allocated; every identifier ever
    /// allocated lies below it, so allocation is monotonically increasing.
    pub closed spec fn allocation_counter(&self) -> u32 {
        self.next_id
    }

    /// Whether another identifier can still be allocated.
    pub open spec fn can_allocate(&self) -> bool {
        self.allocation_counter() < 0xFFFF_FFFF
    }

    /// Well-formedness: every registered identifier was allocated, and
    /// every allocated identifier lies below the allocation counter, so a
    /// fresh allocation can collide with nothing that ever existed.
    pub closed spec fn wf(&self) -> bool {
        &&& forall|id: u32| #[trigger] self.table@.contains_key(id) ==> self.allocated@.contains(id)
        &&& forall|id: u32| #[trigger] self.allocated@.contains(id) ==> id < self.next_id
    }

    /// An empty registry.
    pub fn new() -> (r: Registry)
        ensures
            r.wf(),
            r.can_allocate(),
            r.allocation_counter() == 0,
            r.instances() == Map::<u32, InstanceData>::empty(),
            r.allocated_ids() == Set::<u32>::empty(),
    {
        Registry { next_id: 0, table: HashMap::new(), allocated: Ghost(Set::empty()) }
    }

    /// Allocates a fresh identifier: one that was never allocated before
    /// and will never be allocated again.
    pub fn next_instance_id(&mut self) -> (id: u32)
        requires
            old(self).wf(),
            old(self).can_allocate(),
        ensures
            final(self).wf(),
            id == old(self).allocation_counter(),
            final(self).allocation_counter() == old(self).allocation_counter() + 1,
            !old(self).allocated_ids().contains(id),
            !old(self).instances().contains_key(id),
            final(self).allocated_ids() == old(self).allocated_ids().insert(id),
            final(self).instances() == old(self).instances(),
    {
        let id = self.next_id;
        self.next_id = self.next_id + 1;
        proof {
            self.allocated@ = self.allocated@.insert(id);
        }
        id
    }

    /// Inserts the record of a newly created instance under its fresh
    /// identifier.
    pub fn register_instance(
        &mut self,
        id: u32,
        sender: std::sync::mpsc::Sender<AppEvent>,
        running: bool,
    )
        requires
            old(self).wf(),
            old(self).allocated_ids().contains(id),
        ensures
            final(self).wf(),
            final(self).instances() == old(self).instances().insert(
                id,
                (InstanceData { sender: sender, running: running }),
            ),
            final(self).allocated_ids() == old(self).allocated_ids(),
            final(self).allocation_counter() == old(self).allocation_counter(),
    {
        self.table.insert(id, InstanceData { sender, running });
    }

    /// A producer handle onto the given instance's command queue, exactly
    /// when the instance is registered.
    pub fn get_sender(&self, id: u32) -> (r: Option<std::sync::mpsc::Sender<AppEvent>>)
        ensures
            r is Some <==> self.instances().contains_key(id),
    {
        match self.table.get(&id) {
            Some(data) => Some(clone_sender(&data.sender)),
            None => None,
        }
    }

    /// The given instance's running flag, exactly when the instance is
    /// registered.
    pub fn get_running_flag(&self, id: u32) -> (r: Option<bool>)
        ensures
            match r {
                Some(b) => self.instances().contains_key(id) && b == self.instances()[id].running,
                None => !self.instances().contains_key(id),
            },
    {
        match self.table.get(&id) {
            Some(data) => Some(data.running),
            None => None,
        }
    }

    /// Sets the given instance's running flag; reports whether the
    /// instance was registered at all.
    pub fn set_running(&mut self, id: u32, value: bool) -> (found: bool)
        requires
            old(self).wf(),
        ensures
            final(self).wf(),
            found <==> old(self).instances().contains_key(id),
            found ==> final(self).instances() == old(self).instances().insert(
                id,
                (InstanceData { sender: old(self).instances()[id].sender, running: value }),
            ),
            !found ==> final(self).instances() == old(self).instances(),
            final(self).allocated_ids() == old(self).allocated_ids(),
            final(self).allocation_counter() == old(self).allocation_counter(),
    {
        match self.table.remove(&id) {
            Some(data) => {
                self.table.insert(id, InstanceData { sender: data.sender, running: value });
                proof {
                    assert(old(self).instances().remove(id).insert(
                        id,
                        (InstanceData {
                            sender: old(self).instances()[id].sender,
                            running: value,
                        }),
                    ) =~= old(self).instances().insert(
                        id,
                        (InstanceData {
                            sender: old(self).instances()[id].sender,
                            running: value,
                        }),
                    ));
                }
                true
            },
            None => {
                proof {
                    assert(old(self).instances().remove(id) =~= old(self).instances());
                }
                false
            },
        }
    }

    /// Removes the given instance's record; its identifier stays
    /// allocated forever, so it can never come back to life.
    pub fn remove_instance(&mut self, id: u32)
        requires
            old(self).wf(),
        ensures
            final(self).wf(),
            final(self).instances() == old(self).instances().remove(id),
            final(self).allocated_ids() == old(self).allocated_ids(),
            final(self).allocation_counter() == old(self).allocation_counter(),
    {
        self.table.remove(&id);
    }
}

} // verus!
