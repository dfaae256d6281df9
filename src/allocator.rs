use crate::lease::{lease_key, lease_key_of, AllocationScan, LeaseClaim, ScanStep};
use crate::net::Subnet;
use vstd::hash_map::StringHashMap;
use vstd::prelude::*;

verus! {

/// The ways a lease operation can fail.
#[derive(Debug, Clone, Copy, PartialEq, Eq, Structural)]
pub enum ConsulError {
    /// Releasing or deleting a lease failed.
    LockError,
    /// The store could not be read.
    GetError,
    /// The store could not be written.
    PutError,
    /// No free address is left in the network.
    Exhausted,
    /// The request names no known command.
    BadRequest,
}

/// The sentence that describes each error.
pub open spec fn error_text(e: ConsulError) -> Seq<char> {
    match e {
        ConsulError::LockError => "Error acquiring lock"@,
        ConsulError::GetError => "Error getting key"@,
        ConsulError::PutError => "Error updating key"@,
        ConsulError::Exhausted => "No available IP in network"@,
        ConsulError::BadRequest => "Unknown command"@,
    }
}

impl ConsulError {
    /// A sentence that describes the error.
    pub fn message(&self) -> (r: String)
        ensures
            r@ == error_text(*self),
    {
        proof {
            reveal_strlit("Error acquiring lock");
            reveal_strlit("Error getting key");
            reveal_strlit("Error updating key");
            reveal_strlit("No available IP in network");
            reveal_strlit("Unknown command");
        }
        match self {
            ConsulError::LockError => String::from_str("Error acquiring lock"),
            ConsulError::GetError => String::from_str("Error getting key"),
            ConsulError::PutError => String::from_str("Error updating key"),
            ConsulError::Exhausted => String::from_str("No available IP in network"),
            ConsulError::BadRequest => String::from_str("Unknown command"),
        }
    }
}

/// The daemon's side of the lease protocol: its store session, and the
/// addresses that it has handed out, by container id.
pub struct ConsulIpAllocator {
    session_id: String,
    lease_map: StringHashMap<u32>,
}

impl ConsulIpAllocator {
    pub closed spec fn session(&self) -> Seq<char> {
        self.session_id@
    }

    /// The address handed out to each container.
    pub closed spec fn leases(&self) -> Map<Seq<char>, u32> {
        self.lease_map@
    }

    /// An allocator for the session `session_id`, with no lease yet.
    pub fn new(session_id: String) -> (r: ConsulIpAllocator)
        ensures
            r.session() == session_id@,
            r.leases() == Map::<Seq<char>, u32>::empty(),
    {
        ConsulIpAllocator { session_id, lease_map: StringHashMap::new() }
    }

    pub fn session_id(&self) -> (r: &str)
        ensures
            r@ == self.session(),
    {
        self.session_id.as_str()
    }

    /// The address handed out to `container_id`, if any.
    pub fn leased(&self, container_id: &str) -> (r: Option<u32>)
        ensures
            r == (if self.leases().contains_key(container_id@) {
                Some(self.leases()[container_id@])
            } else {
                None
            }),
    {
        match self.lease_map.get(container_id) {
            Some(a) => Some(*a),
            None => None,
        }
    }

    /// Starts an allocation for `container_id` in `cidr`, given what listing
    /// the network's prefix returned: the values found, or `None` where the
    /// store could not be read.
    pub fn allocate_from(
        &self,
        network_name: String,
        container_id: String,
        cidr: Subnet,
        listed: Option<Vec<String>>,
    ) -> (r: Result<(AllocationScan, ScanStep), ConsulError>)
        ensures
            match listed {
                None => r == Err::<(AllocationScan, ScanStep), ConsulError>(ConsulError::GetError),
                Some(values) => r matches Ok((scan, step)) && {
                    &&& scan.network() == network_name@
                    &&& scan.container() == container_id@
                    &&& scan.session() == self.session()
                    &&& scan.subnet() == cidr
                    &&& scan.values() == values@.map_values(|v: String| v@)
                    &&& scan.sought(&scan, 1, step)
                },
            },
    {
        match listed {
            None => Err(ConsulError::GetError),
            Some(values) => Ok(
                AllocationScan::start(network_name, container_id, self.session_id.clone(), cidr, values),
            ),
        }
    }

    /// Hands the store's answer to a claim on to the scan, and records the
    /// address where the claim succeeded.
    pub fn on_acquire(&mut self, scan: &mut AllocationScan, reply: Option<bool>) -> (step: ScanStep)
        requires
            old(scan).wf(),
            old(scan).phase() is Claiming,
        ensures
            final(scan).acquire_answered(old(scan), reply, step),
            final(self).session() == old(self).session(),
            final(self).leases() == (match step {
                ScanStep::Assigned(a) => old(self).leases().insert(old(scan).container(), a),
                _ => old(self).leases(),
            }),
    {
        let step = scan.on_acquire(reply);
        if let ScanStep::Assigned(a) = step {
            self.lease_map.insert(scan.container_id(), a);
        }
        step
    }

    /// What releasing `container_id` asks of the store: `None` where this
    /// allocator handed it no address, so nothing is to be done; else the lease
    /// to release and then delete.
    pub fn release_from(&self, network_name: String, container_id: String) -> (r: Option<LeaseClaim>)
        ensures
            r is None <==> !self.leases().contains_key(container_id@),
            r matches Some(c) ==> {
                &&& c.key@ == lease_key(network_name@, self.leases()[container_id@])
                &&& c.value@ == container_id@
                &&& c.session@ == self.session()
            },
    {
        match self.lease_map.get(container_id.as_str()) {
            None => None,
            Some(a) => Some(
                LeaseClaim {
                    key: lease_key_of(network_name.as_str(), *a),
                    value: container_id,
                    session: self.session_id.clone(),
                },
            ),
        }
    }

    /// Takes the outcome of releasing and deleting the lease of
    /// `container_id`: where both succeeded the lease is forgotten, else the
    /// release failed and is kept for another try.
    pub fn finish_release(&mut self, container_id: &str, done: bool) -> (r: Result<(), ConsulError>)
        ensures
            final(self).session() == old(self).session(),
            done ==> r is Ok && final(self).leases() == old(self).leases().remove(container_id@),
            !done ==> r == Err::<(), ConsulError>(ConsulError::LockError) && final(self).leases()
                == old(self).leases(),
    {
        if done {
            self.lease_map.remove(container_id);
            Ok(())
        } else {
            Err(ConsulError::LockError)
        }
    }
}

} // verus!
