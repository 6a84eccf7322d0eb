//! A minimal identity service: clients register a public key together with a
//! content hash, then fetch, rotate, or delete that record. Every operation is
//! authenticated by a per-request signature over an operation-specific message.
//!
//! The crate verifies the core of the service: the record store semantics, the
//! user repository, the composite-key index that must stay consistent with the
//! user records, and the per-operation authentication protocol. Network
//! transport and the file-backed persistence host live outside the library.

pub mod assoc;
pub mod auth;
pub mod client;
pub mod file_storage_client;
pub mod handlers;
pub mod laws;
pub mod messages;
pub mod pub_keys;
pub mod query;
pub mod request;
pub mod response;
pub mod storage_client;
pub mod uri;
pub mod user;
pub mod user_client;

pub use assoc::AssocList;
pub use client::{is_file_uri, Client};
pub use file_storage_client::FileStorageClient;
pub use handlers::{create_user_handler, delete_user_handler, get_user_handler, update_hash_handler};
pub use pub_keys::PubKeys;
pub use query::QueryParams;
pub use request::{CreateUserRequest, DeleteUserRequest, UpdateHashRequest};
pub use response::Response;
pub use storage_client::{MemoryStorageClient, NotImplementedYetClient, StorageError, StorageValue};
pub use uri::StorageUri;
pub use user::User;
pub use user_client::UserCLient;
