//! The storage address: what backend selection and path composition read of
//! a URI — its scheme, its path, and its textual form. The host that parses
//! real URIs fills this in; backend selection is final at construction.

use vstd::prelude::*;

verus! {

/// Spec-level image of a [`StorageUri`].
pub ghost struct StorageUriView {
    pub scheme: Option<Seq<char>>,
    pub path: Seq<char>,
    pub text: Seq<char>,
}

/// A storage address: the scheme if the URI carries one, the path, and the
/// full textual form.
#[derive(Debug)]
pub struct StorageUri {
    pub scheme: Option<String>,
    pub path: String,
    pub text: String,
}

impl View for StorageUri {
    type V = StorageUriView;

    open spec fn view(&self) -> StorageUriView {
        StorageUriView {
            scheme: match self.scheme {
                Some(s) => Some(s@),
                None => None,
            },
            path: self.path@,
            text: self.text@,
        }
    }
}

impl Clone for StorageUri {
    fn clone(&self) -> (res: Self)
        ensures
            res@ == self@,
    {
        StorageUri {
            scheme: match &self.scheme {
                Some(s) => Some(s.clone()),
                None => None,
            },
            path: self.path.clone(),
            text: self.text.clone(),
        }
    }
}

} // verus!
