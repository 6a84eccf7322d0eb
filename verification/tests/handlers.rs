use continuebee::{
    create_user_handler, delete_user_handler, get_user_handler, update_hash_handler,
    CreateUserRequest, DeleteUserRequest, PubKeys, QueryParams, Response, UpdateHashRequest,
    UserCLient,
};
use sessionless::Sessionless;

const TIMESTAMP: &str = "1700000000";

fn create_request(sessionless: &Sessionless, timestamp: &str, hash: &str) -> CreateUserRequest {
    let pub_key = sessionless.public_key().to_string();
    let message = format!("{}{}{}", timestamp, pub_key, hash);
    let signature = sessionless.sign(message).to_string();
    CreateUserRequest {
        pub_key,
        hash: hash.to_string(),
        timestamp: timestamp.to_string(),
        signature,
    }
}

fn get_query(sessionless: &Sessionless, timestamp: &str, uuid: &str, hash: &str) -> QueryParams {
    let message = format!("{}{}{}", timestamp, uuid, hash);
    let signature = sessionless.sign(message).to_string();
    QueryParams { timestamp: timestamp.to_string(), hash: hash.to_string(), signature }
}

fn update_request(
    sessionless: &Sessionless,
    timestamp: &str,
    uuid: &str,
    hash: &str,
    new_hash: &str,
) -> UpdateHashRequest {
    let message = format!("{}{}{}{}", timestamp, uuid, hash, new_hash);
    let signature = sessionless.sign(message).to_string();
    UpdateHashRequest {
        user_uuid: uuid.to_string(),
        timestamp: timestamp.to_string(),
        hash: hash.to_string(),
        new_hash: new_hash.to_string(),
        signature,
    }
}

fn delete_request(
    sessionless: &Sessionless,
    timestamp: &str,
    uuid: &str,
    hash: &str,
) -> DeleteUserRequest {
    let message = format!("{}{}{}", timestamp, uuid, hash);
    let signature = sessionless.sign(message).to_string();
    DeleteUserRequest {
        timestamp: timestamp.to_string(),
        user_uuid: uuid.to_string(),
        hash: hash.to_string(),
        signature,
    }
}

fn created_uuid(response: Response) -> String {
    match response {
        Response::User { user_uuid } => user_uuid,
        _ => panic!("expected a user response"),
    }
}

#[test]
fn test_create_user_handler() {
    let mut client = UserCLient::new();
    let sessionless = Sessionless::new();
    let hash = "random_hash";

    let payload = create_request(&sessionless, TIMESTAMP, hash);
    let response = create_user_handler(&mut client, &payload);

    match response {
        Response::User { user_uuid } => {
            assert_eq!(user_uuid.is_empty(), false);
            // the user record was stored
            assert!(client.get_user(&user_uuid).is_some());
            // and the composite key is indexed
            let key = PubKeys::key(hash, &sessionless.public_key().to_string());
            let keys = client.get_keys().expect("Failed to get keys");
            assert_eq!(keys.get_user_uuid(&key).unwrap().as_str(), user_uuid);
        }
        _ => {
            assert!(false);
        }
    }
}

#[test]
fn test_create_user_handler_auth_error() {
    let mut client = UserCLient::new();
    let sessionless = Sessionless::new();

    let pub_key = sessionless.public_key();
    let hash = "random_hash".to_string();

    let invalid_payload = CreateUserRequest {
        pub_key: pub_key.to_string(),
        timestamp: TIMESTAMP.to_string(),
        hash: hash.clone(),
        signature: "invalid_signature".to_string(),
    };

    let expected_code = 403;
    match create_user_handler(&mut client, &invalid_payload) {
        Response::Error { code, message } => {
            assert_eq!(code, expected_code);
            assert_eq!(message, "Auth Error");
        }
        _ => {
            assert!(false);
        }
    }

    let message = format!("{}{}{}", TIMESTAMP, pub_key, &hash);
    let signature = sessionless.sign(message);

    let invalid_payload = CreateUserRequest {
        pub_key: "invalid_pub_key".to_string(),
        timestamp: TIMESTAMP.to_string(),
        hash: hash.clone(),
        signature: signature.to_string(),
    };

    match create_user_handler(&mut client, &invalid_payload) {
        Response::Error { code, message } => {
            assert_eq!(code, expected_code);
            assert_eq!(message, "Auth Error");
        }
        _ => {
            assert!(false);
        }
    }
}

#[test]
fn test_get_user_handler() {
    let initial_uuid = "1234";
    let initial_hash = "initial_hash";

    let mut client = UserCLient::new();
    let sessionless = Sessionless::new();
    let pub_key = sessionless.public_key();

    client
        .put_user(initial_uuid, &pub_key.to_string(), initial_hash)
        .expect("Failed to put user");

    let query_param = get_query(&sessionless, TIMESTAMP, initial_uuid, initial_hash);
    match get_user_handler(&client, initial_uuid, &query_param) {
        Response::User { user_uuid } => {
            assert_eq!(user_uuid, initial_uuid);
        }
        _ => {
            assert!(false);
        }
    }

    // get a user that does not exist
    match get_user_handler(&client, "non_existent_user", &query_param) {
        Response::Error { code, message } => {
            assert_eq!(code, 404);
            assert_eq!(message, "Not Found");
        }
        _ => {
            assert!(false);
        }
    }

    // get a user but have the wrong hash: the signature no longer covers the
    // message, so this is an authentication failure
    let wrong_hash = "wrong_hash";
    let query_param = QueryParams {
        timestamp: TIMESTAMP.to_string(),
        hash: wrong_hash.to_string(),
        signature: query_param.signature.clone(),
    };
    match get_user_handler(&client, initial_uuid, &query_param) {
        Response::Error { code, message } => {
            assert_eq!(code, 403);
            assert_eq!(message, "Auth Error");
        }
        _ => {
            assert!(false);
        }
    }
}

#[test]
fn test_update_hash() {
    let initial_uuid_1 = "1234";
    let initial_hash_1 = "initial_hash_1";
    let new_hash_1 = "new_hash_1";

    let mut client = UserCLient::new();
    let sessionless = Sessionless::new();
    let pub_key = sessionless.public_key();

    client
        .put_user(initial_uuid_1, &pub_key.to_string(), initial_hash_1)
        .expect("Failed to put user");
    client
        .update_keys(&PubKeys::key(initial_hash_1, &pub_key.to_string()), initial_uuid_1)
        .expect("Failed to update keys");

    let payload = update_request(&sessionless, TIMESTAMP, initial_uuid_1, initial_hash_1, new_hash_1);
    match update_hash_handler(&mut client, &payload) {
        Response::User { user_uuid } => {
            assert_eq!(user_uuid, initial_uuid_1);
            // verify the record was updated, under the same uuid
            let user = client.get_user(initial_uuid_1).expect("Failed to read user");
            assert!(user.uuid == initial_uuid_1);
            assert_eq!(user.hash, new_hash_1);

            // verify the index was updated
            let pub_keys = client.get_keys().expect("Failed to read keys");
            assert!(pub_keys.num_keys() == 1);

            let old_key = PubKeys::key(&initial_hash_1, &pub_key.to_string());
            let expected_key = PubKeys::key(&new_hash_1, &pub_key.to_string());
            let expected_result = pub_keys.get_user_uuid(&expected_key);
            assert!(expected_result.is_some());
            assert_eq!(expected_result.unwrap(), &initial_uuid_1);

            // verify the old key was removed
            let old_key_result = pub_keys.get_user_uuid(&old_key);
            assert!(old_key_result.is_none());
        }
        _ => {
            panic!("Failed to update hash");
        }
    }
}

#[test]
fn test_delete_user_handler() {
    let initial_uuid_1 = "1234";
    let initial_hash_1 = "initial_hash_1";
    let initial_uuid_2 = "1235";
    let initial_hash_2 = "initial_hash_2";

    let mut client = UserCLient::new();
    let sessionless = Sessionless::new();
    let pub_key = sessionless.public_key();

    client
        .put_user(initial_uuid_1, &pub_key.to_string(), initial_hash_1)
        .expect("Failed to put user");
    client
        .put_user(initial_uuid_2, &pub_key.to_string(), initial_hash_2)
        .expect("Failed to put user");
    let key_1 = PubKeys::key(initial_hash_1, &pub_key.to_string());
    let key_2 = PubKeys::key(initial_hash_2, &pub_key.to_string());
    client.update_keys(&key_1, initial_uuid_1).expect("Failed to update keys");
    client.update_keys(&key_2, initial_uuid_2).expect("Failed to update keys");

    // delete the first user
    let payload = delete_request(&sessionless, TIMESTAMP, initial_uuid_1, initial_hash_1);
    match delete_user_handler(&mut client, &payload) {
        Response::Success { code } => {
            assert_eq!(code, 202);
            // the first record is gone, the second remains
            assert!(client.get_user(initial_uuid_1).is_none());
            assert!(client.get_user(initial_uuid_2).is_some());
            // only one key remains
            let pub_keys = client.get_keys().expect("Failed to read keys");
            assert_eq!(pub_keys.num_keys(), 1);
            assert!(pub_keys.get_user_uuid(key_2.as_str()).is_some());
            assert!(pub_keys.get_user_uuid(key_1.as_str()).is_none());
        }
        _ => {
            assert!(false);
        }
    }
}

#[test]
fn test_idempotent_create() {
    let mut client = UserCLient::new();
    let sessionless = Sessionless::new();
    let hash = "stable_hash";

    let first = create_request(&sessionless, TIMESTAMP, hash);
    let uuid_1 = created_uuid(create_user_handler(&mut client, &first));

    // a second create with the same key and hash, freshly signed at another
    // timestamp, answers with the same uuid
    let second = create_request(&sessionless, "1700000999", hash);
    let uuid_2 = created_uuid(create_user_handler(&mut client, &second));

    assert_eq!(uuid_1, uuid_2);
    let keys = client.get_keys().expect("Failed to get keys");
    assert_eq!(keys.num_keys(), 1);
}

#[test]
fn test_signature_sensitivity() {
    let mut client = UserCLient::new();
    let sessionless = Sessionless::new();
    let hash = "hash_v1";

    // altering the timestamp after signing breaks create
    let mut payload = create_request(&sessionless, TIMESTAMP, hash);
    payload.timestamp = "1700009999".to_string();
    match create_user_handler(&mut client, &payload) {
        Response::Error { code, .. } => assert_eq!(code, 403),
        _ => panic!("expected an auth error"),
    }

    // altering the hash after signing breaks create
    let mut payload = create_request(&sessionless, TIMESTAMP, hash);
    payload.hash = "other_hash".to_string();
    match create_user_handler(&mut client, &payload) {
        Response::Error { code, .. } => assert_eq!(code, 403),
        _ => panic!("expected an auth error"),
    }

    // now create a record for the update and delete checks
    let payload = create_request(&sessionless, TIMESTAMP, hash);
    let uuid = created_uuid(create_user_handler(&mut client, &payload));

    // altering the new hash after signing breaks update
    let mut update = update_request(&sessionless, TIMESTAMP, &uuid, hash, "hash_v2");
    update.new_hash = "hash_forged".to_string();
    match update_hash_handler(&mut client, &update) {
        Response::Error { code, .. } => assert_eq!(code, 403),
        _ => panic!("expected an auth error"),
    }

    // altering the old hash after signing breaks update
    let mut update = update_request(&sessionless, TIMESTAMP, &uuid, hash, "hash_v2");
    update.hash = "hash_forged".to_string();
    match update_hash_handler(&mut client, &update) {
        Response::Error { code, .. } => assert_eq!(code, 403),
        _ => panic!("expected an auth error"),
    }

    // altering the uuid after signing breaks delete
    let other = create_request(&sessionless, TIMESTAMP, "other_record");
    let other_uuid = created_uuid(create_user_handler(&mut client, &other));
    let mut delete = delete_request(&sessionless, TIMESTAMP, &uuid, hash);
    delete.user_uuid = other_uuid.clone();
    match delete_user_handler(&mut client, &delete) {
        Response::Error { code, .. } => assert_eq!(code, 403),
        _ => panic!("expected an auth error"),
    }

    // the record is untouched after all the rejected attempts
    let user = client.get_user(&uuid).expect("record should remain");
    assert_eq!(user.hash, hash);
}

#[test]
fn test_cross_key_isolation() {
    let mut client = UserCLient::new();
    let key_a = Sessionless::new();
    let key_b = Sessionless::new();
    let hash = "isolated_hash";

    let payload = create_request(&key_a, TIMESTAMP, hash);
    let uuid = created_uuid(create_user_handler(&mut client, &payload));

    // a get signed with key B, correct in every other field, is rejected
    let query = get_query(&key_b, TIMESTAMP, &uuid, hash);
    match get_user_handler(&client, &uuid, &query) {
        Response::Error { code, message } => {
            assert_eq!(code, 403);
            assert_eq!(message, "Auth Error");
        }
        _ => panic!("expected an auth error"),
    }

    // a delete signed with key B is rejected and removes nothing
    let delete = delete_request(&key_b, TIMESTAMP, &uuid, hash);
    match delete_user_handler(&mut client, &delete) {
        Response::Error { code, .. } => assert_eq!(code, 403),
        _ => panic!("expected an auth error"),
    }
    assert!(client.get_user(&uuid).is_some());
}

#[test]
fn test_end_to_end_scenario() {
    let mut client = UserCLient::new();
    let sessionless = Sessionless::new();
    let pub_key = sessionless.public_key().to_string();
    let hash_1 = "hash_one";
    let hash_2 = "hash_two";

    // Create(P, H1) -> U
    let payload = create_request(&sessionless, TIMESTAMP, hash_1);
    let uuid = created_uuid(create_user_handler(&mut client, &payload));

    // Get(U, H1, signed) -> success(U)
    let query = get_query(&sessionless, TIMESTAMP, &uuid, hash_1);
    match get_user_handler(&client, &uuid, &query) {
        Response::User { user_uuid } => assert_eq!(user_uuid, uuid),
        _ => panic!("expected the uuid"),
    }

    // Get(U, H2-wrong-hash, validly signed) -> NotAcceptable
    let query = get_query(&sessionless, TIMESTAMP, &uuid, hash_2);
    match get_user_handler(&client, &uuid, &query) {
        Response::Error { code, message } => {
            assert_eq!(code, 406);
            assert_eq!(message, "Not Acceptable");
        }
        _ => panic!("expected not acceptable"),
    }

    // UpdateHash(U, H1, H2, signed) -> success(U)
    let update = update_request(&sessionless, TIMESTAMP, &uuid, hash_1, hash_2);
    match update_hash_handler(&mut client, &update) {
        Response::User { user_uuid } => assert_eq!(user_uuid, uuid),
        _ => panic!("expected the uuid"),
    }

    // Get(U, H2, signed) -> success(U)
    let query = get_query(&sessionless, TIMESTAMP, &uuid, hash_2);
    match get_user_handler(&client, &uuid, &query) {
        Response::User { user_uuid } => assert_eq!(user_uuid, uuid),
        _ => panic!("expected the uuid"),
    }

    // the index follows the rotation
    let keys = client.get_keys().expect("Failed to get keys");
    assert!(keys.get_user_uuid(&PubKeys::key(hash_1, &pub_key)).is_none());
    assert_eq!(keys.get_user_uuid(&PubKeys::key(hash_2, &pub_key)).unwrap().as_str(), uuid);

    // Delete(U, H2, signed) -> success
    let delete = delete_request(&sessionless, TIMESTAMP, &uuid, hash_2);
    match delete_user_handler(&mut client, &delete) {
        Response::Success { code } => assert_eq!(code, 202),
        _ => panic!("expected success"),
    }

    // Get(U, H2, signed) -> NotFound
    let query = get_query(&sessionless, TIMESTAMP, &uuid, hash_2);
    match get_user_handler(&client, &uuid, &query) {
        Response::Error { code, message } => {
            assert_eq!(code, 404);
            assert_eq!(message, "Not Found");
        }
        _ => panic!("expected not found"),
    }
    assert!(client.get_user(&uuid).is_none());
    let keys = client.get_keys().expect("Failed to get keys");
    assert!(keys.get_user_uuid(&PubKeys::key(hash_2, &pub_key)).is_none());
}

#[test]
fn test_created_uuid_shape() {
    let mut client = UserCLient::new();
    let sessionless = Sessionless::new();
    let payload = create_request(&sessionless, TIMESTAMP, "some_hash");
    let uuid = created_uuid(create_user_handler(&mut client, &payload));
    // the generated uuid is rendered in the 36-character hyphenated form
    assert_eq!(uuid.len(), 36);
}

#[test]
fn test_update_hash_unknown_user() {
    let mut client = UserCLient::new();
    let sessionless = Sessionless::new();
    let update = update_request(&sessionless, TIMESTAMP, "missing", "h1", "h2");
    match update_hash_handler(&mut client, &update) {
        Response::Error { code, message } => {
            assert_eq!(code, 404);
            assert_eq!(message, "Not Found");
        }
        _ => panic!("expected not found"),
    }
}

#[test]
fn test_response_constructors() {
    match Response::auth_error() {
        Response::Error { code, message } => {
            assert_eq!(code, 403);
            assert_eq!(message, "Auth Error");
        }
        _ => panic!("expected an error"),
    }
    match Response::not_found() {
        Response::Error { code, message } => {
            assert_eq!(code, 404);
            assert_eq!(message, "Not Found");
        }
        _ => panic!("expected an error"),
    }
    match Response::not_acceptable() {
        Response::Error { code, message } => {
            assert_eq!(code, 406);
            assert_eq!(message, "Not Acceptable");
        }
        _ => panic!("expected an error"),
    }
    match Response::server_error("storage failed".to_string()) {
        Response::Error { code, message } => {
            assert_eq!(code, 500);
            assert_eq!(message, "storage failed");
        }
        _ => panic!("expected an error"),
    }
    match Response::user_success("u".to_string()) {
        Response::User { user_uuid } => assert_eq!(user_uuid, "u"),
        _ => panic!("expected a user response"),
    }
    match Response::success(202) {
        Response::Success { code } => assert_eq!(code, 202),
        _ => panic!("expected a success"),
    }
}
