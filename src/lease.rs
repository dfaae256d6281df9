use crate::allocator::ConsulError;
use crate::net::{append_dotted, dotted, ipv4_text, lemma_dotted_injective, Subnet};
use vstd::prelude::*;

verus! {

/// The store prefix under which the leases of a network live: `ipam/{network}/`.
pub open spec fn lease_prefix(network: Seq<char>) -> Seq<char> {
    seq!['i', 'p', 'a', 'm', '/'] + network + seq!['/']
}

/// The store key of the lease on address `a` in a network: `ipam/{network}/{a}`.
pub open spec fn lease_key(network: Seq<char>, a: u32) -> Seq<char> {
    lease_prefix(network) + dotted(a)
}

/// Whether some listed value is the text of address `a`. An address is read
/// only in dotted-quad form without leading zeros, so a value in any other form
/// names no address and is passed over.
pub open spec fn listed_as(values: Seq<Seq<char>>, a: u32) -> bool {
    exists|j: int| 0 <= j < values.len() && values[j] == dotted(a)
}

/// Whether the address at `offset` in the network may be offered: it is not the
/// network address and no listed value names it.
pub open spec fn is_candidate(s: Subnet, values: Seq<Seq<char>>, offset: int) -> bool {
    1 <= offset < s.size() && !listed_as(values, (s.first() + offset) as u32)
}

/// The first offset at or after `from` whose address may be offered.
pub open spec fn next_candidate(s: Subnet, values: Seq<Seq<char>>, from: int) -> Option<int>
    decreases s.size() - from,
{
    if from >= s.size() {
        None
    } else if is_candidate(s, values, from) {
        Some(from)
    } else {
        next_candidate(s, values, from + 1)
    }
}

/// The leases of distinct addresses in one network have distinct keys, so the
/// store's atomic acquire hands each address to one holder at most.
pub proof fn lemma_lease_keys_distinct(network: Seq<char>, a: u32, b: u32)
    requires
        a != b,
    ensures
        lease_key(network, a) != lease_key(network, b),
{
    if lease_key(network, a) == lease_key(network, b) {
        let p = lease_prefix(network);
        assert(dotted(a) =~= lease_key(network, a).subrange(p.len() as int, lease_key(network, a).len() as int));
        assert(dotted(b) =~= lease_key(network, b).subrange(p.len() as int, lease_key(network, b).len() as int));
        lemma_dotted_injective(a, b);
    }
}

/// A listed value that is the text of no address changes nothing: the same
/// candidates come in the same order with it as without it.
pub proof fn lemma_foreign_value_ignored(s: Subnet, values: Seq<Seq<char>>, v: Seq<char>, from: int)
    requires
        forall|a: u32| v != dotted(a),
    ensures
        next_candidate(s, values.push(v), from) == next_candidate(s, values, from),
    decreases s.size() - from,
{
    assert forall|a: u32| listed_as(values.push(v), a) == listed_as(values, a) by {
        if listed_as(values.push(v), a) {
            let j = choose|j: int| 0 <= j < values.push(v).len() && values.push(v)[j] == dotted(a);
            if j == values.len() {
                assert(v == dotted(a));
            }
            assert(values[j] == dotted(a));
        }
        if listed_as(values, a) {
            let j = choose|j: int| 0 <= j < values.len() && values[j] == dotted(a);
            assert(values.push(v)[j] == dotted(a));
        }
    }
    if from < s.size() {
        lemma_foreign_value_ignored(s, values, v, from + 1);
    }
}

/// A network whose prefix is 32 bits long holds its network address alone, so
/// no address can be offered in it.
pub proof fn lemma_host_network_exhausted(s: Subnet, values: Seq<Seq<char>>)
    requires
        s.wf(),
        s.prefix() == 32,
    ensures
        next_candidate(s, values, 1) is None,
{
    vstd::arithmetic::power2::lemma2_to64();
    assert(s.size() == 1);
}

/// `ipam/{network}/`
pub fn lease_prefix_of(network: &str) -> (r: String)
    ensures
        r@ == lease_prefix(network@),
{
    proof {
        reveal_strlit("ipam/");
        reveal_strlit("/");
    }
    let mut out = String::from_str("ipam/");
    out.append(network);
    out.append("/");
    assert(out@ =~= lease_prefix(network@));
    out
}

/// `ipam/{network}/{a}`
pub fn lease_key_of(network: &str, a: u32) -> (r: String)
    ensures
        r@ == lease_key(network@, a),
{
    let mut out = lease_prefix_of(network);
    append_dotted(&mut out, a);
    out
}

/// Whether one of `values` equals `text`.
fn lists_text(values: &Vec<String>, text: &String) -> (r: bool)
    ensures
        r == exists|j: int| 0 <= j < values@.len() && values@[j]@ == text@,
{
    let mut j: usize = 0;
    while j < values.len()
        invariant
            j <= values@.len(),
            forall|k: int| 0 <= k < j ==> values@[k]@ != text@,
        decreases values@.len() - j,
    {
        if values[j].eq(text) {
            return true;
        }
        j = j + 1;
    }
    false
}

/// A claim to hand to the store: acquire `key` for `session`, holding `value`.
pub struct LeaseClaim {
    pub key: String,
    pub value: String,
    pub session: String,
}

/// What the scan asks for next.
pub enum ScanStep {
    /// Ask the store whether this key exists.
    Lookup(String),
    /// Acquire a key for the session.
    Acquire(LeaseClaim),
    /// The scan has claimed this address.
    Assigned(u32),
    /// The scan stopped without an address.
    Failed(ConsulError),
}

/// Where a scan stands: waiting for a lookup, waiting for a claim, or done.
pub enum ScanPhase {
    Checking,
    Claiming,
    Finished,
}

/// The search for a free address in a network, one store reply at a time.
///
/// Candidates are the addresses of the network in numeric order, without the
/// network address and without the addresses that the listed values name. Each
/// one is looked up in the store; one that exists is passed over, else it is
/// acquired; one that another session holds is passed over too.
pub struct AllocationScan {
    network: String,
    container_id: String,
    session_id: String,
    subnet: Subnet,
    listed: Vec<String>,
    cursor: u64,
    phase: ScanPhase,
}

impl AllocationScan {
    pub closed spec fn network(&self) -> Seq<char> {
        self.network@
    }

    pub closed spec fn container(&self) -> Seq<char> {
        self.container_id@
    }

    pub closed spec fn session(&self) -> Seq<char> {
        self.session_id@
    }

    pub closed spec fn subnet(&self) -> Subnet {
        self.subnet
    }

    pub closed spec fn values(&self) -> Seq<Seq<char>> {
        self.listed@.map_values(|v: String| v@)
    }

    /// The offset of the address under consideration.
    pub closed spec fn cursor(&self) -> int {
        self.cursor as int
    }

    pub closed spec fn phase(&self) -> ScanPhase {
        self.phase
    }

    /// The address under consideration.
    pub open spec fn current(&self) -> u32 {
        (self.subnet().first() + self.cursor()) as u32
    }

    pub open spec fn wf(&self) -> bool {
        &&& self.subnet().wf()
        &&& !(self.phase() is Finished) ==> is_candidate(self.subnet(), self.values(), self.cursor())
    }

    /// Whether `other` scans for the same request as `self`.
    pub open spec fn same_request(&self, other: &AllocationScan) -> bool {
        &&& self.network() == other.network()
        &&& self.container() == other.container()
        &&& self.session() == other.session()
        &&& self.subnet() == other.subnet()
        &&& self.values() == other.values()
    }

    /// What `seek(from)` leads to: a lookup of the first candidate from
    /// `from` on, or exhaustion.
    pub open spec fn sought(&self, old_scan: &AllocationScan, from: int, step: ScanStep) -> bool {
        &&& self.wf()
        &&& self.same_request(old_scan)
        &&& match next_candidate(self.subnet(), self.values(), from) {
            None => self.phase() is Finished && step == ScanStep::Failed(ConsulError::Exhausted),
            Some(i) => {
                &&& self.phase() is Checking
                &&& self.cursor() == i
                &&& step matches ScanStep::Lookup(k) && k@ == lease_key(self.network(), self.current())
            },
        }
    }

    /// What the answer `reply` to a claim leads to, from scan `prev` to `self`.
    pub open spec fn acquire_answered(&self, prev: &AllocationScan, reply: Option<bool>, step: ScanStep) -> bool {
        match reply {
            None => self.same_request(prev) && self.phase() is Finished
                && step == ScanStep::Failed(ConsulError::PutError),
            Some(true) => {
                &&& self.same_request(prev)
                &&& self.phase() is Finished
                &&& step == ScanStep::Assigned(prev.current())
                &&& prev.subnet().has(prev.current() as int)
                &&& prev.current() != prev.subnet().first()
                &&& !listed_as(prev.values(), prev.current())
            },
            Some(false) => self.sought(prev, prev.cursor() + 1, step),
        }
    }

    /// The container that the scan is for.
    pub fn container_id(&self) -> (r: String)
        ensures
            r@ == self.container(),
    {
        self.container_id.clone()
    }

    /// The network that the scan is in.
    pub fn network_name(&self) -> (r: &str)
        ensures
            r@ == self.network(),
    {
        self.network.as_str()
    }

    /// Starts the search for `container_id` in `subnet`; `listed` holds the
    /// values found under the network's prefix.
    pub fn start(
        network: String,
        container_id: String,
        session_id: String,
        subnet: Subnet,
        listed: Vec<String>,
    ) -> (r: (AllocationScan, ScanStep))
        ensures
            r.0.network() == network@,
            r.0.container() == container_id@,
            r.0.session() == session_id@,
            r.0.subnet() == subnet,
            r.0.values() == listed@.map_values(|v: String| v@),
            r.0.sought(&r.0, 1, r.1),
    {
        let mut scan = AllocationScan {
            network,
            container_id,
            session_id,
            subnet,
            listed,
            cursor: 0,
            phase: ScanPhase::Finished,
        };
        proof {
            vstd::arithmetic::power2::lemma_pow2_pos((32 - subnet.prefix()) as nat);
        }
        let step = scan.seek(1);
        (scan, step)
    }

    fn seek(&mut self, from: u64) -> (step: ScanStep)
        requires
            1 <= from <= old(self).subnet().size(),
        ensures
            final(self).sought(old(self), from as int, step),
    {
        let size = self.subnet.address_count();
        let base = self.subnet.first_address();
        let mut i = from;
        while i < size
            invariant
                *self == *old(self),
                self.subnet.wf(),
                size == self.subnet.size(),
                base == self.subnet.first(),
                base + size <= 0x1_0000_0000,
                1 <= from <= i <= size,
                next_candidate(self.subnet(), self.values(), from as int) == next_candidate(
                    self.subnet(),
                    self.values(),
                    i as int,
                ),
            decreases size - i,
        {
            let addr = (base as u64 + i) as u32;
            let text = ipv4_text(addr);
            let taken = lists_text(&self.listed, &text);
            proof {
                assert(listed_as(self.values(), addr) == taken) by {
                    if taken {
                        let j = choose|j: int| 0 <= j < self.listed@.len() && self.listed@[j]@ == text@;
                        assert(self.values()[j] == dotted(addr));
                    }
                    if listed_as(self.values(), addr) {
                        let j = choose|j: int| 0 <= j < self.values().len() && self.values()[j] == dotted(addr);
                        assert(self.listed@[j]@ == text@);
                    }
                }
            }
            if !taken {
                self.cursor = i;
                self.phase = ScanPhase::Checking;
                return ScanStep::Lookup(lease_key_of(self.network.as_str(), addr));
            }
            i = i + 1;
        }
        self.phase = ScanPhase::Finished;
        ScanStep::Failed(ConsulError::Exhausted)
    }

    /// Takes the store's answer to the lookup: `Some(true)` where the key
    /// exists, `Some(false)` where it does not, `None` where the store could not
    /// be asked.
    pub fn on_lookup(&mut self, reply: Option<bool>) -> (step: ScanStep)
        requires
            old(self).wf(),
            old(self).phase() is Checking,
        ensures
            match reply {
                None => final(self).same_request(old(self)) && final(self).phase() is Finished
                    && step == ScanStep::Failed(ConsulError::GetError),
                Some(true) => final(self).sought(old(self), old(self).cursor() + 1, step),
                Some(false) => {
                    &&& final(self).same_request(old(self))
                    &&& final(self).phase() is Claiming
                    &&& final(self).cursor() == old(self).cursor()
                    &&& final(self).wf()
                    &&& step matches ScanStep::Acquire(c) && c.key@ == lease_key(
                        old(self).network(),
                        old(self).current(),
                    ) && c.value@ == old(self).container() && c.session@ == old(self).session()
                },
            },
    {
        let size = self.subnet.address_count();
        match reply {
            None => {
                self.phase = ScanPhase::Finished;
                ScanStep::Failed(ConsulError::GetError)
            },
            Some(true) => self.seek(self.cursor + 1),
            Some(false) => {
                self.phase = ScanPhase::Claiming;
                let addr = (self.subnet.first_address() as u64 + self.cursor) as u32;
                let claim = LeaseClaim {
                    key: lease_key_of(self.network.as_str(), addr),
                    value: self.container_id.clone(),
                    session: self.session_id.clone(),
                };
                ScanStep::Acquire(claim)
            },
        }
    }

    /// Takes the store's answer to the claim: `Some(true)` where the session
    /// now holds the key, `Some(false)` where another session does, `None`
    /// where the store could not be asked.
    pub fn on_acquire(&mut self, reply: Option<bool>) -> (step: ScanStep)
        requires
            old(self).wf(),
            old(self).phase() is Claiming,
        ensures
            final(self).acquire_answered(old(self), reply, step),
    {
        let size = self.subnet.address_count();
        match reply {
            None => {
                self.phase = ScanPhase::Finished;
                ScanStep::Failed(ConsulError::PutError)
            },
            Some(true) => {
                self.phase = ScanPhase::Finished;
                ScanStep::Assigned((self.subnet.first_address() as u64 + self.cursor) as u32)
            },
            Some(false) => self.seek(self.cursor + 1),
        }
    }
}

} // verus!
