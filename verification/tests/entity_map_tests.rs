use netsync::entity_map::EntityIdMap;

#[test]
fn insert_then_get() {
    let mut m = EntityIdMap::new();
    assert_eq!(m.len(), 0);
    m.insert(5, 100);
    assert_eq!(m.get(5), Some(100));
    assert_eq!(m.len(), 1);
    assert!(m.contains(5));
    assert!(!m.contains(6));
}

#[test]
fn insert_overwrites_last_writer_wins() {
    let mut m = EntityIdMap::new();
    m.insert(5, 100);
    m.insert(5, 200);
    assert_eq!(m.get(5), Some(200));
    assert_eq!(m.len(), 1);
}

#[test]
fn remove_returns_the_handle() {
    let mut m = EntityIdMap::new();
    m.insert(5, 100);
    m.insert(8, 300);
    assert_eq!(m.remove(5), Some(100));
    assert_eq!(m.len(), 1);
    assert_eq!(m.get(5), None);
    assert_eq!(m.get(8), Some(300));
    assert_eq!(m.remove(5), None);
}

#[test]
fn many_keys_stay_distinct() {
    let mut m = EntityIdMap::new();
    for k in 0u64..20 {
        m.insert(k, 1000 + k);
    }
    assert_eq!(m.len(), 20);
    for k in 0u64..20 {
        assert_eq!(m.get(k), Some(1000 + k));
    }
}
