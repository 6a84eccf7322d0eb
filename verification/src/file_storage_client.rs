//! The file-backed record store's addressing: which directory it works in
//! and which file a key addresses. The reads and writes themselves are I/O
//! and live with the host; the path composition is the part worth pinning
//! down.

use vstd::prelude::*;
use vstd::string::StringExecFns;
use crate::uri::{StorageUri, StorageUriView};

verus! {

/// The record store backend that persists each key as a file under a
/// directory derived from the storage address.
#[derive(Debug)]
pub struct FileStorageClient {
    storage_uri: StorageUri,
}

impl View for FileStorageClient {
    type V = StorageUriView;

    closed spec fn view(&self) -> StorageUriView {
        self.storage_uri@
    }
}

impl Clone for FileStorageClient {
    fn clone(&self) -> (res: Self)
        ensures
            res@ == self@,
    {
        FileStorageClient { storage_uri: self.storage_uri.clone() }
    }
}

/// The backing directory of a file store at the given address.
pub open spec fn spec_dir(uri: StorageUriView) -> Seq<char> {
    if uri.path.len() == 0 {
        "/"@ + uri.text
    } else {
        uri.path
    }
}

impl FileStorageClient {
    pub fn new(storage_uri: StorageUri) -> (r: Self)
        ensures
            r@ == storage_uri@,
    {
        Self { storage_uri }
    }

    /// The backing directory: the address's path, or the whole address
    /// behind a leading slash when the path is empty.
    pub fn dir(&self) -> (r: String)
        ensures
            r@ == spec_dir(self@),
    {
        if self.storage_uri.path.as_str().is_empty() {
            let mut s: String = "/".to_owned();
            s.append(self.storage_uri.text.as_str());
            s
        } else {
            self.storage_uri.path.clone()
        }
    }

    /// The file a key is stored at: the key as a file name in the backing
    /// directory.
    pub fn file_path(&self, key: &str) -> (r: String)
        ensures
            r@ == spec_dir(self@) + "/"@ + key@,
    {
        let mut s = self.dir();
        s.append("/");
        s.append(key);
        s
    }
}

} // verus!
