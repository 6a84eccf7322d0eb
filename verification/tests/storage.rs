use continuebee::{
    is_file_uri, Client, FileStorageClient, MemoryStorageClient, NotImplementedYetClient,
    StorageUri, StorageValue, User,
};

fn http_uri() -> StorageUri {
    StorageUri {
        scheme: Some("http".to_string()),
        path: "/".to_string(),
        text: "http://example.com".to_string(),
    }
}

fn path_uri(path: &str) -> StorageUri {
    StorageUri { scheme: None, path: path.to_string(), text: path.to_string() }
}

fn authority_uri(text: &str) -> StorageUri {
    StorageUri { scheme: None, path: "".to_string(), text: text.to_string() }
}

#[test]
fn test_is_file_uri() {
    let uri = http_uri();
    assert!(!is_file_uri(&uri));

    let uri = path_uri("/tmp");
    assert!(is_file_uri(&uri));

    let uri = authority_uri("tmp");
    assert!(is_file_uri(&uri));
}

#[test]
fn test_new_client() {
    let client = Client::new(http_uri());
    match client {
        Client::NotImplementedYet { .. } => assert!(true),
        _ => assert!(false),
    };

    let client = Client::new(path_uri("/tmp"));
    match client {
        Client::FileStorageClient { .. } => assert!(true),
        _ => assert!(false),
    };

    let client = Client::new(authority_uri("tmp"));
    match client {
        Client::FileStorageClient { .. } => assert!(true),
        _ => assert!(false),
    };
}

#[test]
fn test_file_path() {
    let file_name = "test";
    let expected_path = "/tmp/test";

    let client = FileStorageClient::new(path_uri("/tmp"));
    assert_eq!(client.file_path(file_name), expected_path);

    let client = FileStorageClient::new(authority_uri("tmp"));
    assert_eq!(client.file_path(file_name), expected_path);
}

#[test]
fn test_file_storage_dir() {
    let client = FileStorageClient::new(path_uri("/var/data"));
    assert_eq!(client.dir(), "/var/data");

    let client = FileStorageClient::new(authority_uri("data"));
    assert_eq!(client.dir(), "/data");
}

#[test]
fn test_client_set_get() {
    let mut store = MemoryStorageClient::new();
    let key = "hi";
    let value = User::new(Some("u".to_string()), "pk".to_string(), "h".to_string());

    let set = store.set(key, StorageValue::User(value));
    assert!(set.is_ok());

    match store.get(key) {
        Some(StorageValue::User(user)) => {
            assert_eq!(user.uuid, "u");
            assert_eq!(user.pub_key, "pk");
            assert_eq!(user.hash, "h");
        }
        _ => assert!(false),
    };
}

#[test]
fn test_memory_storage_overwrite_and_delete() {
    let mut store = MemoryStorageClient::new();
    assert!(store.get("k").is_none());
    assert!(!store.delete("k"));

    let first = User::new(Some("a".to_string()), "pk".to_string(), "h1".to_string());
    let second = User::new(Some("a".to_string()), "pk".to_string(), "h2".to_string());
    assert!(store.set("k", StorageValue::User(first)).is_ok());
    assert!(store.set("k", StorageValue::User(second)).is_ok());
    match store.get("k") {
        Some(StorageValue::User(user)) => assert_eq!(user.hash, "h2"),
        _ => assert!(false),
    };

    assert!(store.delete("k"));
    assert!(!store.delete("k"));
    assert!(store.get("k").is_none());
}

#[test]
fn test_not_implemented_client() {
    let client = NotImplementedYetClient {};
    assert!(client.get("anything").is_none());
    let value = User::new(None, "pk".to_string(), "h".to_string());
    assert!(client.set("anything", StorageValue::User(value)).is_ok());
    assert!(!client.delete("anything"));
    assert!(client.get("anything").is_none());
}
