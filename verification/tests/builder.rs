//! The change builder: fixed record shape, order preservation, and the
//! empty batch.

use ddns::record::{build_batch, build_change, make_request, ChangeBatch, Entry};

#[test]
fn change_has_fixed_type_and_ttl() {
    let op = build_change(Entry {
        name: "host.example.org".to_string(),
        ip: "198.51.100.7".to_string(),
    });
    assert_eq!(op.action, "UPSERT");
    assert_eq!(op.record_set.record_type, "A");
    assert_eq!(op.record_set.ttl, 300);
    assert_eq!(op.record_set.name, "host.example.org");
    assert_eq!(op.record_set.values, vec!["198.51.100.7".to_string()]);
}

#[test]
fn change_is_fixed_even_for_odd_input() {
    let op = build_change(Entry {
        name: "not a hostname at all".to_string(),
        ip: "certainly-not-an-address".to_string(),
    });
    assert_eq!(op.record_set.record_type, "A");
    assert_eq!(op.record_set.ttl, 300);
    assert_eq!(op.record_set.name, "not a hostname at all");
    assert_eq!(
        op.record_set.values,
        vec!["certainly-not-an-address".to_string()]
    );
}

#[test]
fn batch_preserves_order() {
    let entries = vec![
        Entry {
            name: "c.example.com".to_string(),
            ip: "192.0.2.3".to_string(),
        },
        Entry {
            name: "a.example.com".to_string(),
            ip: "192.0.2.1".to_string(),
        },
        Entry {
            name: "b.example.com".to_string(),
            ip: "192.0.2.2".to_string(),
        },
    ];
    let batch = build_batch(&entries);
    assert_eq!(batch.changes.len(), 3);
    for (op, entry) in batch.changes.iter().zip(entries.iter()) {
        assert_eq!(op.record_set.name, entry.name);
        assert_eq!(op.record_set.values, vec![entry.ip.clone()]);
    }
}

#[test]
fn empty_batch_is_valid_and_submittable() {
    let entries: Vec<Entry> = Vec::new();
    let batch = build_batch(&entries);
    assert_eq!(batch.changes.len(), 0);
    let req = make_request("Z000".to_string(), batch);
    assert_eq!(req.zone_id, "Z000");
    assert!(req.batch.changes.is_empty());
}

#[test]
fn same_entry_builds_same_change() {
    let one = build_change(Entry {
        name: "host.example.com".to_string(),
        ip: "203.0.113.9".to_string(),
    });
    let two = build_change(Entry {
        name: "host.example.com".to_string(),
        ip: "203.0.113.9".to_string(),
    });
    assert_eq!(one, two);
}

#[test]
fn two_entries_travel_in_one_request() {
    let entries = vec![
        Entry {
            name: "a.example.com".to_string(),
            ip: "192.0.2.10".to_string(),
        },
        Entry {
            name: "b.example.com".to_string(),
            ip: "192.0.2.11".to_string(),
        },
    ];
    let batch: ChangeBatch = build_batch(&entries);
    let req = make_request("Z42".to_string(), batch);
    assert_eq!(req.batch.changes.len(), 2);
    assert_eq!(req.batch.changes[0].record_set.name, "a.example.com");
    assert_eq!(req.batch.changes[1].record_set.name, "b.example.com");
}
