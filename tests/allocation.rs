use consul_ipam::allocator::{ConsulError, ConsulIpAllocator};
use consul_ipam::lease::{lease_key_of, lease_prefix_of, LeaseClaim, ScanStep};
use consul_ipam::net::Subnet;

struct Entry {
    key: String,
    value: String,
    session: Option<String>,
}

/// An in-memory stand-in for the coordination store.
struct Store {
    entries: Vec<Entry>,
    mutations: usize,
}

impl Store {
    fn new() -> Store {
        Store { entries: Vec::new(), mutations: 0 }
    }

    fn seed(&mut self, key: &str, value: &str, session: &str) {
        self.entries.push(Entry {
            key: key.to_string(),
            value: value.to_string(),
            session: Some(session.to_string()),
        });
    }

    fn list(&self, prefix: &str) -> Vec<String> {
        self.entries
            .iter()
            .filter(|e| e.key.starts_with(prefix))
            .map(|e| e.value.clone())
            .collect()
    }

    fn get(&self, key: &str) -> Option<&Entry> {
        self.entries.iter().find(|e| e.key == key)
    }

    fn acquire(&mut self, c: &LeaseClaim) -> bool {
        match self.entries.iter().position(|e| e.key == c.key) {
            Some(i) => {
                let e = &mut self.entries[i];
                match &e.session {
                    Some(s) if *s != c.session => false,
                    _ => {
                        e.session = Some(c.session.clone());
                        e.value = c.value.clone();
                        self.mutations += 1;
                        true
                    }
                }
            }
            None => {
                self.seed(&c.key, &c.value, &c.session);
                self.mutations += 1;
                true
            }
        }
    }

    fn release_and_delete(&mut self, c: &LeaseClaim) -> bool {
        if let Some(i) = self.entries.iter().position(|e| e.key == c.key) {
            self.entries[i].session = None;
            self.entries.remove(i);
            self.mutations += 1;
        }
        true
    }
}

fn net(a: [u8; 4], len: u8) -> Subnet {
    Subnet::from_parts(u32::from_be_bytes(a), len).expect("valid network")
}

fn ip(a: [u8; 4]) -> u32 {
    u32::from_be_bytes(a)
}

fn add(
    store: &mut Store,
    alloc: &mut ConsulIpAllocator,
    network: &str,
    container: &str,
    cidr: Subnet,
) -> Result<u32, ConsulError> {
    let listed = store.list(&lease_prefix_of(network));
    let (mut scan, mut step) =
        alloc.allocate_from(network.to_string(), container.to_string(), cidr, Some(listed))?;
    loop {
        step = match step {
            ScanStep::Lookup(key) => {
                let present = store.get(&key).is_some();
                scan.on_lookup(Some(present))
            }
            ScanStep::Acquire(claim) => {
                let granted = store.acquire(&claim);
                alloc.on_acquire(&mut scan, Some(granted))
            }
            ScanStep::Assigned(a) => return Ok(a),
            ScanStep::Failed(e) => return Err(e),
        }
    }
}

fn del(store: &mut Store, alloc: &mut ConsulIpAllocator, network: &str, container: &str) -> Result<(), ConsulError> {
    match alloc.release_from(network.to_string(), container.to_string()) {
        None => Ok(()),
        Some(claim) => {
            let done = store.release_and_delete(&claim);
            alloc.finish_release(container, done)
        }
    }
}

fn allocator() -> ConsulIpAllocator {
    ConsulIpAllocator::new("s1".to_string())
}

#[test]
fn single_add_on_empty_pool() {
    let mut store = Store::new();
    let mut alloc = allocator();
    let a = add(&mut store, &mut alloc, "n1", "cA", net([10, 0, 0, 0], 24)).unwrap();
    assert_eq!(a, ip([10, 0, 0, 1]));
    let e = store.get("ipam/n1/10.0.0.1").expect("lease stored");
    assert_eq!(e.value, "cA");
    assert_eq!(e.session.as_deref(), Some("s1"));
    assert_eq!(alloc.leased("cA"), Some(ip([10, 0, 0, 1])));
}

#[test]
fn sequential_adds() {
    let mut store = Store::new();
    let mut alloc = allocator();
    let cidr = net([10, 0, 0, 0], 24);
    assert_eq!(add(&mut store, &mut alloc, "n1", "cA", cidr).unwrap(), ip([10, 0, 0, 1]));
    let cidr = net([10, 0, 0, 0], 24);
    assert_eq!(add(&mut store, &mut alloc, "n1", "cB", cidr).unwrap(), ip([10, 0, 0, 2]));
}

#[test]
fn skip_pre_allocated() {
    let mut store = Store::new();
    store.seed("ipam/n1/10.0.0.1", "other", "s0");
    let mut alloc = allocator();
    let a = add(&mut store, &mut alloc, "n1", "cC", net([10, 0, 0, 0], 24)).unwrap();
    assert_eq!(a, ip([10, 0, 0, 2]));
}

#[test]
fn skip_address_named_by_listed_value() {
    let mut store = Store::new();
    store.seed("ipam/n1/legacy", "10.0.0.1", "s0");
    let mut alloc = allocator();
    let a = add(&mut store, &mut alloc, "n1", "cC", net([10, 0, 0, 0], 24)).unwrap();
    assert_eq!(a, ip([10, 0, 0, 2]));
}

#[test]
fn release_then_reuse() {
    let mut store = Store::new();
    let mut alloc = allocator();
    assert_eq!(add(&mut store, &mut alloc, "n1", "cA", net([10, 0, 0, 0], 30)).unwrap(), ip([10, 0, 0, 1]));
    assert_eq!(add(&mut store, &mut alloc, "n1", "cB", net([10, 0, 0, 0], 30)).unwrap(), ip([10, 0, 0, 2]));
    del(&mut store, &mut alloc, "n1", "cA").unwrap();
    assert!(store.get("ipam/n1/10.0.0.1").is_none());
    assert_eq!(alloc.leased("cA"), None);
    assert_eq!(add(&mut store, &mut alloc, "n1", "cC", net([10, 0, 0, 0], 30)).unwrap(), ip([10, 0, 0, 1]));
}

#[test]
fn exhaustion() {
    let mut store = Store::new();
    let mut alloc = allocator();
    assert_eq!(add(&mut store, &mut alloc, "n1", "cA", net([10, 0, 0, 0], 31)).unwrap(), ip([10, 0, 0, 1]));
    assert_eq!(add(&mut store, &mut alloc, "n1", "cB", net([10, 0, 0, 0], 31)), Err(ConsulError::Exhausted));
}

#[test]
fn del_without_prior_add() {
    let mut store = Store::new();
    store.seed("ipam/n1/10.0.0.1", "cA", "s0");
    let mut alloc = allocator();
    assert_eq!(del(&mut store, &mut alloc, "n1", "unknown"), Ok(()));
    assert_eq!(store.mutations, 0);
    assert_eq!(store.entries.len(), 1);
}

#[test]
fn del_twice_mutates_once() {
    let mut store = Store::new();
    let mut alloc = allocator();
    add(&mut store, &mut alloc, "n1", "cA", net([10, 0, 0, 0], 24)).unwrap();
    let before = store.mutations;
    assert_eq!(del(&mut store, &mut alloc, "n1", "cA"), Ok(()));
    assert_eq!(del(&mut store, &mut alloc, "n1", "cA"), Ok(()));
    assert_eq!(store.mutations, before + 1);
}

#[test]
fn host_network_is_exhausted() {
    let mut store = Store::new();
    let mut alloc = allocator();
    let r = add(&mut store, &mut alloc, "n1", "cA", net([10, 0, 0, 7], 32));
    assert_eq!(r, Err(ConsulError::Exhausted));
    assert_eq!(store.mutations, 0);
}

#[test]
fn slash_30_offers_three_hosts_then_exhausts() {
    let mut store = Store::new();
    let mut alloc = allocator();
    let cidr = || net([10, 0, 0, 0], 30);
    assert_eq!(add(&mut store, &mut alloc, "n1", "c1", cidr()).unwrap(), ip([10, 0, 0, 1]));
    assert_eq!(add(&mut store, &mut alloc, "n1", "c2", cidr()).unwrap(), ip([10, 0, 0, 2]));
    assert_eq!(add(&mut store, &mut alloc, "n1", "c3", cidr()).unwrap(), ip([10, 0, 0, 3]));
    assert_eq!(add(&mut store, &mut alloc, "n1", "c4", cidr()), Err(ConsulError::Exhausted));
}

#[test]
fn unparseable_value_is_ignored() {
    let mut store = Store::new();
    store.seed("ipam/n1/junk", "not-an-address", "s0");
    store.seed("ipam/n1/other", "10.0.0.01", "s0");
    let mut alloc = allocator();
    let a = add(&mut store, &mut alloc, "n1", "cA", net([10, 0, 0, 0], 24)).unwrap();
    assert_eq!(a, ip([10, 0, 0, 1]));
}

#[test]
fn concurrent_daemons_get_distinct_addresses() {
    let mut store = Store::new();
    let mut first = ConsulIpAllocator::new("s1".to_string());
    let mut second = ConsulIpAllocator::new("s2".to_string());
    let cidr = || net([10, 0, 0, 0], 24);
    // Both list the prefix before either claims.
    let listed = store.list(&lease_prefix_of("n1"));
    let (mut scan1, step1) = first
        .allocate_from("n1".to_string(), "c1".to_string(), cidr(), Some(listed.clone()))
        .unwrap();
    let (mut scan2, step2) = second
        .allocate_from("n1".to_string(), "c2".to_string(), cidr(), Some(listed))
        .unwrap();
    let claim1 = match step1 {
        ScanStep::Lookup(_) => match scan1.on_lookup(Some(false)) {
            ScanStep::Acquire(c) => c,
            _ => panic!("expected a claim"),
        },
        _ => panic!("expected a lookup"),
    };
    let claim2 = match step2 {
        ScanStep::Lookup(_) => match scan2.on_lookup(Some(false)) {
            ScanStep::Acquire(c) => c,
            _ => panic!("expected a claim"),
        },
        _ => panic!("expected a lookup"),
    };
    assert_eq!(claim1.key, claim2.key);
    let granted1 = store.acquire(&claim1);
    let a1 = match first.on_acquire(&mut scan1, Some(granted1)) {
        ScanStep::Assigned(a) => a,
        _ => panic!("first claim should win"),
    };
    let granted2 = store.acquire(&claim2);
    assert!(!granted2);
    let mut step = second.on_acquire(&mut scan2, Some(granted2));
    let a2 = loop {
        step = match step {
            ScanStep::Lookup(key) => scan2.on_lookup(Some(store.get(&key).is_some())),
            ScanStep::Acquire(c) => {
                let g = store.acquire(&c);
                second.on_acquire(&mut scan2, Some(g))
            }
            ScanStep::Assigned(a) => break a,
            ScanStep::Failed(e) => panic!("unexpected {:?}", e),
        }
    };
    assert_eq!(a1, ip([10, 0, 0, 1]));
    assert_eq!(a2, ip([10, 0, 0, 2]));
}

#[test]
fn list_failure_is_get_error() {
    let alloc = allocator();
    let r = alloc.allocate_from("n1".to_string(), "cA".to_string(), net([10, 0, 0, 0], 24), None);
    assert!(matches!(r, Err(ConsulError::GetError)));
}

#[test]
fn lookup_failure_is_get_error() {
    let alloc = allocator();
    let (mut scan, _) = alloc
        .allocate_from("n1".to_string(), "cA".to_string(), net([10, 0, 0, 0], 24), Some(Vec::new()))
        .unwrap();
    assert!(matches!(scan.on_lookup(None), ScanStep::Failed(ConsulError::GetError)));
}

#[test]
fn acquire_failure_is_put_error() {
    let mut alloc = allocator();
    let (mut scan, _) = alloc
        .allocate_from("n1".to_string(), "cA".to_string(), net([10, 0, 0, 0], 24), Some(Vec::new()))
        .unwrap();
    let claim = match scan.on_lookup(Some(false)) {
        ScanStep::Acquire(c) => c,
        _ => panic!("expected a claim"),
    };
    assert_eq!(claim.key, "ipam/n1/10.0.0.1");
    assert_eq!(claim.value, "cA");
    assert_eq!(claim.session, "s1");
    assert!(matches!(alloc.on_acquire(&mut scan, None), ScanStep::Failed(ConsulError::PutError)));
    assert_eq!(alloc.leased("cA"), None);
}

#[test]
fn failed_release_is_lock_error_and_keeps_lease() {
    let mut store = Store::new();
    let mut alloc = allocator();
    add(&mut store, &mut alloc, "n1", "cA", net([10, 0, 0, 0], 24)).unwrap();
    let claim = alloc.release_from("n1".to_string(), "cA".to_string()).unwrap();
    assert_eq!(claim.key, "ipam/n1/10.0.0.1");
    assert_eq!(alloc.finish_release("cA", false), Err(ConsulError::LockError));
    assert_eq!(alloc.leased("cA"), Some(ip([10, 0, 0, 1])));
}

#[test]
fn lease_keys_are_laid_out_by_network_and_address() {
    assert_eq!(lease_prefix_of("n1"), "ipam/n1/");
    assert_eq!(lease_key_of("n1", ip([192, 168, 100, 254])), "ipam/n1/192.168.100.254");
}
