//! Backend selection: a storage address without a scheme selects the
//! file-backed store; any scheme selects the not-implemented placeholder.
//! The choice is made once, at construction, and is final.

use vstd::prelude::*;
use crate::file_storage_client::FileStorageClient;
use crate::storage_client::NotImplementedYetClient;
use crate::uri::StorageUri;

verus! {

/// Whether the address selects the file-backed store: it does exactly when
/// it carries no scheme.
pub fn is_file_uri(uri: &StorageUri) -> (r: bool)
    ensures
        r == (uri@.scheme is None),
{
    match &uri.scheme {
        None => true,
        Some(_) => false,
    }
}

/// The closed set of record store backends.
pub enum Client {
    FileStorageClient { storage_client: FileStorageClient },
    NotImplementedYet { storage_client: NotImplementedYetClient },
}

impl Client {
    /// Selects the backend for an address: file-backed for a scheme-less
    /// address, the placeholder otherwise.
    pub fn new(storage_uri: StorageUri) -> (r: Self)
        ensures
            storage_uri@.scheme is None ==> (r matches Client::FileStorageClient {
                storage_client,
            } && storage_client@ == storage_uri@),
            storage_uri@.scheme is Some ==> (r matches Client::NotImplementedYet { .. }),
    {
        if is_file_uri(&storage_uri) {
            return Client::FileStorageClient {
                storage_client: FileStorageClient::new(storage_uri),
            };
        }
        Client::NotImplementedYet { storage_client: NotImplementedYetClient {  } }
    }
}

} // verus!
