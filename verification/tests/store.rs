use thumbnail_pipeline::store::{GetFile, MemStore, PutFile};

#[test]
fn test_get_file() {
    let mut client = MemStore::new();
    client
        .put_file("dummy_bucket", "dummy_key", vec![1, 2, 3, 4, 5])
        .unwrap();
    let result = client.get_file("dummy_bucket", "dummy_key");
    assert!(result.is_ok());
    assert_eq!(result.unwrap(), vec![1, 2, 3, 4, 5]);
}

#[test]
fn test_put_file() {
    let mut client = MemStore::new();
    let result = client.put_file("dummy_bucket", "dummy_key", vec![1, 2, 3]);
    assert!(result.is_ok());
    let stored = client.get_file("dummy_bucket", "dummy_key");
    assert!(stored.is_ok());
    assert_eq!(stored.unwrap(), vec![1, 2, 3]);
}

#[test]
fn get_file_of_absent_object_fails() {
    let client = MemStore::new();
    assert!(client.get_file("dummy_bucket", "dummy_key").is_err());
    let mut seeded = MemStore::new();
    seeded.put_file("dummy_bucket", "dummy_key", vec![9]).unwrap();
    assert!(seeded.get_file("dummy_bucket", "other_key").is_err());
    assert!(seeded.get_file("other_bucket", "dummy_key").is_err());
}

#[test]
fn put_file_replaces_previous_contents() {
    let mut client = MemStore::new();
    client.put_file("b", "k", vec![1]).unwrap();
    client.put_file("b", "k", vec![2, 2]).unwrap();
    assert_eq!(client.get_file("b", "k").unwrap(), vec![2, 2]);
}
