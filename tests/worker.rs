use snowflake::config::ServerConfig;
use snowflake::worker::{
    lock_name, renewal_action, KeepAliveEvent, LeaseWorker, RenewalAction, ScanAction, SLOT_COUNT,
};
use std::collections::HashMap;

/// An in-memory coordination store: each locked slot maps to the lease that holds it.
struct Store {
    locks: HashMap<String, u64>,
}

impl Store {
    fn lock(&mut self, name: String, lease: u64) -> bool {
        if self.locks.contains_key(&name) {
            false
        } else {
            self.locks.insert(name, lease);
            true
        }
    }

    fn expire(&mut self, lease: u64) {
        self.locks.retain(|_, held| *held != lease);
    }
}

fn claim(store: &mut Store, lease: u64) -> Option<u32> {
    let mut worker = LeaseWorker::new();
    loop {
        match worker.action() {
            ScanAction::TryLock(slot) => {
                let granted = store.lock(lock_name(slot), lease);
                worker.record(granted);
            }
            ScanAction::Claimed(slot) => return Some(slot),
            ScanAction::Exhausted => return None,
        }
    }
}

#[test]
fn workers_claim_distinct_slots() {
    let mut store = Store { locks: HashMap::new() };
    let a = claim(&mut store, 1).unwrap();
    let b = claim(&mut store, 2).unwrap();
    assert_eq!(a, 0);
    assert_eq!(b, 1);
    let c = claim(&mut store, 3).unwrap();
    assert_eq!(c, 2);
    store.expire(1);
    let d = claim(&mut store, 4).unwrap();
    assert_eq!(d, 0);
}

#[test]
fn slots_run_out() {
    let mut store = Store { locks: HashMap::new() };
    for lease in 0..SLOT_COUNT as u64 {
        assert_eq!(claim(&mut store, lease), Some(lease as u32));
    }
    assert_eq!(claim(&mut store, 5000), None);
}

#[test]
fn record_after_claim_changes_nothing() {
    let mut worker = LeaseWorker::new();
    assert_eq!(worker.action(), ScanAction::TryLock(0));
    worker.record(false);
    assert_eq!(worker.action(), ScanAction::TryLock(1));
    worker.record(true);
    assert_eq!(worker.action(), ScanAction::Claimed(1));
    worker.record(false);
    assert_eq!(worker.action(), ScanAction::Claimed(1));
}

#[test]
fn lock_names() {
    assert_eq!(lock_name(0), "id-gen-worker-0");
    assert_eq!(lock_name(7), "id-gen-worker-7");
    assert_eq!(lock_name(1023), "id-gen-worker-1023");
    assert_eq!(lock_name(4294967295), "id-gen-worker-4294967295");
}

#[test]
fn renewal_decisions() {
    assert_eq!(renewal_action(KeepAliveEvent::Renewed(15)), RenewalAction::Sleep(5));
    assert_eq!(renewal_action(KeepAliveEvent::Renewed(10)), RenewalAction::Sleep(3));
    assert_eq!(renewal_action(KeepAliveEvent::Renewed(2)), RenewalAction::Sleep(0));
    assert_eq!(renewal_action(KeepAliveEvent::Renewed(0)), RenewalAction::Stop);
    assert_eq!(renewal_action(KeepAliveEvent::Renewed(-1)), RenewalAction::Stop);
    assert_eq!(renewal_action(KeepAliveEvent::NoMessage), RenewalAction::Retry);
    assert_eq!(renewal_action(KeepAliveEvent::Failed), RenewalAction::Stop);
}

#[test]
fn database_address() {
    let config = ServerConfig {
        log: "info".to_string(),
        host: "localhost".to_string(),
        port: 5000,
        etcd_host: "etcd.local".to_string(),
        etcd_port: 2379,
    };
    assert_eq!(config.get_database_addr(), "etcd.local:2379");
    let config = ServerConfig { etcd_port: 0, ..config };
    assert_eq!(config.get_database_addr(), "etcd.local:0");
}
