//! Where blobs live. The path of a blob is rebuilt from the stored folder,
//! identifier and filename whenever the blob is read or removed.

use vstd::prelude::*;
use vstd::string::StringExecFns;

verus! {

/// The folder that holds the blobs of an account.
pub open spec fn folder_of(user_id: Seq<char>) -> Seq<char> {
    "./uploads/"@ + user_id
}

/// The path of the blob of an audio file.
pub open spec fn blob_path(folder: Seq<char>, id: Seq<char>, filename: Seq<char>) -> Seq<char> {
    folder + "/"@ + id + "_"@ + filename
}

/// The name given to an upload that comes without one.
pub open spec fn nameless_upload(token: Seq<char>) -> Seq<char> {
    "unknown_"@ + token + ".mp3"@
}

/// The folder that holds the blobs of an account.
pub fn user_folder(user_id: &str) -> (folder: String)
    ensures
        folder@ == folder_of(user_id@),
{
    "./uploads/".to_owned().concat(user_id)
}

/// The path of the blob of an audio file.
pub fn blob_location(folder: &str, id: &str, filename: &str) -> (path: String)
    ensures
        path@ == blob_path(folder@, id@, filename@),
{
    folder.to_owned().concat("/").concat(id).concat("_").concat(filename)
}

/// The name given to an upload that comes without one.
pub fn fallback_filename(token: &str) -> (name: String)
    ensures
        name@ == nameless_upload(token@),
{
    "unknown_".to_owned().concat(token).concat(".mp3")
}

} // verus!
