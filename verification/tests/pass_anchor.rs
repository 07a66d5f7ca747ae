use satellite_markets::{PassAnchorContract, PassAnchorRecord};
use std::collections::HashMap;

type PassHash = [u8; 32];

/// A registry in memory that runs the anchoring rule as the deployed
/// contract does, aborting with the rule's message on a refusal.
struct Registry {
    now: u64,
    records: HashMap<PassHash, PassAnchorRecord<String, String>>,
}

impl Registry {
    fn new(now: u64) -> Registry {
        Registry { now, records: HashMap::new() }
    }

    fn anchor_pass(&mut self, submitter: &str, pass_hash: &PassHash, satellite: &str) {
        let anchored = self.records.contains_key(pass_hash);
        match PassAnchorContract::anchor_pass(
            anchored,
            submitter.to_string(),
            satellite.to_string(),
            self.now,
        ) {
            Ok(record) => {
                self.records.insert(*pass_hash, record);
            }
            Err(e) => panic!("{}", e.message()),
        }
    }

    fn get_pass(&self, pass_hash: &PassHash) -> Option<PassAnchorRecord<String, String>> {
        self.records.get(pass_hash).cloned()
    }
}

#[test]
fn anchors_a_new_pass_and_reads_it_back() {
    let mut registry = Registry::new(0);

    let submitter = "GSUBMITTER".to_string();
    let satellite = "ISS_ZARYA".to_string();
    let pass_hash = [7u8; 32];

    registry.anchor_pass(&submitter, &pass_hash, &satellite);

    let record = registry.get_pass(&pass_hash).unwrap();
    assert_eq!(record.submitter, submitter);
    assert_eq!(record.satellite, satellite);
}

#[test]
#[should_panic(expected = "pass already anchored")]
fn rejects_anchoring_the_same_pass_twice() {
    let mut registry = Registry::new(0);

    let submitter = "GSUBMITTER";
    let satellite = "ISS_ZARYA";
    let pass_hash = [7u8; 32];

    registry.anchor_pass(submitter, &pass_hash, satellite);
    registry.anchor_pass(submitter, &pass_hash, satellite);
}

#[test]
fn unknown_pass_returns_none() {
    let registry = Registry::new(0);
    let pass_hash = [1u8; 32];
    assert_eq!(registry.get_pass(&pass_hash), None);
}

#[test]
fn anchored_record_keeps_the_ledger_time() {
    let record = PassAnchorContract::anchor_pass(false, 11u32, "NOAA_19", 1_700_000_000).unwrap();
    assert_eq!(record, PassAnchorRecord { anchored_at: 1_700_000_000, submitter: 11u32, satellite: "NOAA_19" });
}

#[test]
fn second_anchor_leaves_first_record_unchanged() {
    let mut registry = Registry::new(100);
    registry.anchor_pass("GFIRST", &[9u8; 32], "ISS_ZARYA");
    registry.now = 200;
    let refused = PassAnchorContract::anchor_pass(true, "GSECOND", "NOAA_19", registry.now);
    assert_eq!(refused.unwrap_err().message(), "pass already anchored");
    let record = registry.get_pass(&[9u8; 32]).unwrap();
    assert_eq!(record.anchored_at, 100);
    assert_eq!(record.submitter, "GFIRST");
}
