//! What the HTTP handlers decide: the name under which an upload is stored,
//! and the answer to a webhook.

use vstd::prelude::*;
use vstd::string::StringExecFns;

verus! {

/// HTTP status 200.
pub const OK: u16 = 200;

/// HTTP status 422.
pub const UNPROCESSABLE_ENTITY: u16 = 422;

/// The name of an upload that comes without one.
pub open spec fn default_file_name() -> Seq<char> {
    "file.png"@
}

/// The name under which an upload is stored: a fresh identifier, a hyphen,
/// and the name that the upload came with.
pub open spec fn spec_upload_name(id: Seq<char>, file_name: Option<Seq<char>>) -> Seq<char> {
    id + "-"@ + match file_name {
        Some(name) => name,
        None => default_file_name(),
    }
}

/// The name under which an upload is stored in the temporary directory.
/// `id` is an identifier made for this upload, so that uploads of one name
/// do not overwrite each other.
pub fn upload_name(id: &str, file_name: Option<String>) -> (stored: String)
    ensures
        stored@ == spec_upload_name(id@, file_name.deep_view()),
{
    let name = match file_name {
        Some(name) => name,
        None => "file.png".to_owned(),
    };
    id.to_owned().concat("-").concat(name.as_str())
}

/// The answer to a webhook of an integration: what the service made of the
/// payload, or the status that says it made nothing of it.
pub fn integration_webhook(outcome: Result<String, String>) -> (answer: Result<(u16, String), u16>)
    ensures
        answer == match outcome {
            Ok(response) => Ok::<(u16, String), u16>((OK, response)),
            Err(_) => Err::<(u16, String), u16>(UNPROCESSABLE_ENTITY),
        },
{
    match outcome {
        Ok(response) => Ok((OK, response)),
        Err(_) => Err(UNPROCESSABLE_ENTITY),
    }
}

} // verus!
