//! Object storage keys: where uploaded files are stored.

use vstd::prelude::*;

verus! {

/// The key of a stored object: a folder and a file name in it.
#[derive(Clone, Debug)]
pub struct S3Key {
    pub folder: String,
    pub filename: String,
}

/// The object key text of `folder` and `filename`.
pub open spec fn object_key(folder: Seq<char>, filename: Seq<char>) -> Seq<char> {
    folder + "/"@ + filename
}

impl S3Key {
    /// The key as the storage addresses it: `{folder}/{filename}`.
    pub fn key(&self) -> (k: String)
        ensures
            k@ == object_key(self.folder@, self.filename@),
    {
        let mut k = self.folder.clone();
        k.append("/");
        k.append(self.filename.as_str());
        k
    }
}

} // verus!
