use vpn_toggle::store::{collect_paths, PathRegistry, StoreError};

fn listed(r: &PathRegistry) -> Vec<String> {
    r.list().expect("in-memory list succeeds")
}

#[test]
fn initialize_twice_keeps_data() {
    let mut r = PathRegistry::new();
    assert!(r.initialize().is_ok());
    r.add("/etc/wg/a.conf".to_string()).unwrap();
    assert!(r.initialize().is_ok());
    assert!(r.initialize().is_ok());
    assert_eq!(listed(&r), vec!["/etc/wg/a.conf"]);
}

#[test]
fn add_then_list_contains_path() {
    let mut r = PathRegistry::new();
    r.add("/a".to_string()).unwrap();
    r.add("/b".to_string()).unwrap();
    r.add("/a".to_string()).unwrap();
    assert_eq!(listed(&r), vec!["/a", "/b", "/a"]);
    let ids: Vec<u64> = r.entries().iter().map(|e| e.id).collect();
    assert_eq!(ids, vec![1, 2, 3]);
}

#[test]
fn delete_all_clears_and_ids_not_reused() {
    let mut r = PathRegistry::new();
    r.add("/a".to_string()).unwrap();
    r.add("/b".to_string()).unwrap();
    assert!(r.delete_all().is_ok());
    assert!(listed(&r).is_empty());
    r.add("/c".to_string()).unwrap();
    assert_eq!(r.entries()[0].id, 3);
}

#[test]
fn delete_all_on_empty_is_noop() {
    let mut r = PathRegistry::new();
    assert!(r.delete_all().is_ok());
    assert!(listed(&r).is_empty());
    assert!(r.delete_all().is_ok());
    assert!(listed(&r).is_empty());
}

#[test]
fn collect_paths_all_rows_read() {
    let rows: Vec<Result<String, String>> = vec![Ok("/a".to_string()), Ok("/b".to_string())];
    assert_eq!(collect_paths(&rows).unwrap(), vec!["/a", "/b"]);
    assert!(collect_paths(&Vec::new()).unwrap().is_empty());
}

#[test]
fn collect_paths_stops_at_first_bad_row() {
    let rows: Vec<Result<String, String>> = vec![
        Ok("/a".to_string()),
        Err("bad row".to_string()),
        Err("later".to_string()),
    ];
    match collect_paths(&rows) {
        Err(StoreError::StorageError(m)) => assert_eq!(m, "bad row"),
        other => panic!("unexpected {:?}", other),
    }
}

#[test]
fn store_error_messages() {
    assert_eq!(StoreError::StorageUnavailable("cannot open".to_string()).message(), "cannot open");
    assert_eq!(StoreError::StorageError("write failed".to_string()).message(), "write failed");
}
