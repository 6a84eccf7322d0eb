use continuebee::{PubKeys, User, UserCLient};
use sessionless::Sessionless;

#[test]
fn test_get_user() {
    let initial_uuid = "uuid";
    let mut user_client = UserCLient::new();

    assert!(user_client.get_user(initial_uuid).is_none());

    user_client
        .put_user(initial_uuid, "pub_key", "hash")
        .expect("Failed to put user");

    match user_client.get_user(initial_uuid) {
        Some(result) => {
            assert_eq!(result.uuid, initial_uuid);
            assert_eq!(result.pub_key, "pub_key");
            assert_eq!(result.hash, "hash");
        }
        None => assert!(false),
    };
}

#[test]
fn test_put_user() {
    let mut user_client = UserCLient::new();

    let pub_key = "pub_key";
    let hash = "hash";
    let uuid = "uuid";
    match user_client.put_user(uuid, pub_key, hash) {
        Ok(result) => {
            assert_eq!(result.uuid, uuid);
            assert_eq!(result.pub_key.to_string(), pub_key.to_string());
            assert_eq!(result.hash, hash);
            assert!(user_client.get_user(uuid).is_some());
        }
        Err(_) => assert!(false),
    }

    // update the hash of the user
    let new_hash = "new_hash";
    match user_client.put_user(uuid, pub_key, new_hash) {
        Ok(result) => {
            assert_eq!(result.uuid, uuid);
            assert_eq!(result.pub_key.to_string(), pub_key.to_string());
            assert_eq!(result.hash, new_hash);
            assert!(user_client.get_user(uuid).is_some());
        }
        Err(_) => assert!(false),
    }
}

#[test]
fn test_delete_user() {
    let initial_uuid = "uuid";
    let mut user_client = UserCLient::new();

    user_client
        .put_user(initial_uuid, "pub_key", "hash")
        .expect("Failed to put user");
    assert!(user_client.get_user(initial_uuid).is_some());

    // delete the user: should be true as the record existed
    assert!(user_client.delete_user(initial_uuid));
    assert!(user_client.get_user(initial_uuid).is_none());

    // try to delete the user again: should be false as nothing is stored
    assert!(!user_client.delete_user(initial_uuid));
}

#[test]
fn test_get_keys() {
    let mut user_client = UserCLient::new();

    // Keys are default when nothing was saved
    match user_client.get_keys() {
        Ok(result) => assert_eq!(result.num_keys(), 0),
        Err(_) => assert!(false),
    }

    let user_uuid = "test_user_uuid";
    let pub_key = "test_pub_key";
    user_client
        .update_keys(pub_key, user_uuid)
        .expect("Failed to update keys");

    match user_client.get_keys() {
        Ok(result) => {
            let result_user_uuid = result.get_user_uuid(pub_key);
            assert!(result_user_uuid.is_some());
            assert_eq!(user_uuid, result_user_uuid.unwrap().as_str());
        }
        Err(_) => assert!(false),
    };
}

#[test]
fn test_save_pub_keys() {
    let mut user_client = UserCLient::new();

    let mut pub_keys = PubKeys::default();
    let pub_keys = pub_keys.add_user_uuid("test_user_uuid", "test_pub_key");

    match user_client.save_pub_keys(pub_keys.clone()) {
        Ok(_) => match user_client.get_keys() {
            Ok(result) => {
                assert_eq!(result.num_keys(), 1);
                let result_user_uuid = result.get_user_uuid("test_pub_key");
                assert!(result_user_uuid.is_some());
                assert_eq!("test_user_uuid", result_user_uuid.unwrap().as_str());
            }
            Err(_) => assert!(false),
        },
        Err(_) => assert!(false),
    }
}

#[test]
fn test_update_keys() {
    let mut user_client = UserCLient::new();

    let sessionless = Sessionless::new();
    let pub_key = sessionless.public_key();
    let hash = "hash";
    let user_uuid = "test_user_uuid";

    let key = PubKeys::key(hash, &pub_key.to_string());
    match user_client.update_keys(&key, user_uuid) {
        Ok(_) => {
            let result = user_client.get_keys().expect("Failed to get keys");
            let result_user_uuid = result.get_user_uuid(&key.to_string());
            assert!(result_user_uuid.is_some());
            assert_eq!(user_uuid, result_user_uuid.unwrap().as_str());
        }
        Err(_) => assert!(false),
    }

    // another entry with the same pub_key but a different hash
    let diff_hash = "diff_hash";
    let diff_key = PubKeys::key(diff_hash, &pub_key.to_string());
    let diff_uuid = "diff_user_uuid";
    match user_client.update_keys(&diff_key, diff_uuid) {
        Ok(_) => {
            let result = user_client.get_keys().expect("Failed to get keys");
            let result_user_uuid = result.get_user_uuid(&diff_key.to_string());
            assert!(result_user_uuid.is_some());
            assert_eq!(diff_uuid, result_user_uuid.unwrap().as_str());
        }
        Err(_) => assert!(false),
    }
}

#[test]
fn test_pub_keys_key_composition() {
    assert_eq!(PubKeys::key("abc", "def"), "abcdef");
    assert_eq!(PubKeys::key("", "def"), "def");
    assert_eq!(PubKeys::key("abc", ""), "abc");
}

#[test]
fn test_pub_keys_remove_and_count() {
    let mut keys = PubKeys::default();
    keys.add_user_uuid("u1", "k1");
    keys.add_user_uuid("u2", "k2");
    assert_eq!(keys.num_keys(), 2);

    // overwriting an existing key does not grow the index
    keys.add_user_uuid("u3", "k1");
    assert_eq!(keys.num_keys(), 2);
    assert_eq!(keys.get_user_uuid("k1").unwrap().as_str(), "u3");

    assert_eq!(keys.remove_key("k1"), Some("u3".to_string()));
    assert_eq!(keys.remove_key("k1"), None);
    assert_eq!(keys.num_keys(), 1);
    assert!(keys.get_user_uuid("k1").is_none());
}

#[test]
fn test_user_new() {
    let user = User::new(Some("u".to_string()), "pk".to_string(), "h".to_string());
    assert_eq!(user.uuid, "u");
    assert_eq!(user.pub_key, "pk");
    assert_eq!(user.hash, "h");

    let user = User::new(None, "pk".to_string(), "h".to_string());
    assert_eq!(user.uuid, "");
}
