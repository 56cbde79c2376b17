//! The mock task store.

use orkestra_core::testutil::mock_store::MockStore;

#[test]
fn test_mock_store_id_generation() {
    let mut store = MockStore::new();
    assert_eq!(store.next_id().unwrap(), "TASK-001");
    assert_eq!(store.next_id().unwrap(), "TASK-002");
    assert_eq!(store.next_id().unwrap(), "TASK-003");
}

#[test]
fn test_mock_store_initially_empty() {
    let store = MockStore::new();
    assert!(store.is_empty());
    assert_eq!(store.len(), 0);
    assert!(store.load_all().unwrap().is_empty());
}
