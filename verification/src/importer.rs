use vstd::prelude::*;
use vstd::string::*;
use crate::errors::ImportError;
use crate::paths::{join_path, joined};
use crate::state_id::ImportMailStateId;

verus! {

/// The largest request, in bytes, into which the chunking packs mails, in
/// the configuration with small requests that exercises the chunking.
pub const MAX_REQUEST_SIZE: usize = 5120;

/// The largest request, in bytes, into which the chunking packs mails when
/// importing for real.
pub const PRODUCTION_MAX_REQUEST_SIZE: usize = 8388608;

/// The name of the file in an import directory that holds the id of the
/// server's import state.
pub const STATE_ID_FILE_NAME: &'static str = "import_mail_state";

/// The name of the state file, as characters.
pub open spec fn state_id_file_name() -> Seq<char> {
    seq!['i', 'm', 'p', 'o', 'r', 't', '_', 'm', 'a', 'i', 'l', '_', 's', 't', 'a', 't', 'e']
}

/// The path of the state file in an import directory.
pub fn state_file_path(import_directory: &str) -> (r: String)
    ensures
        r@ == joined(import_directory@, state_id_file_name()),
{
    proof {
        reveal_strlit("import_mail_state");
    }
    assert(STATE_ID_FILE_NAME@ =~= state_id_file_name());
    join_path(import_directory, STATE_ID_FILE_NAME)
}

/// Settings for an import from an IMAP server; the IMAP reader that reads
/// them is not part of this library, so they are carried as they are.
#[derive(Debug, Clone, PartialEq)]
pub struct ImapImportConfig {}

/// Where the mails of an import come from.
#[derive(Debug, Clone, PartialEq)]
pub enum ImportParams {
    Imap { imap_import_config: ImapImportConfig },
    LocalFile { file_path: String, is_mbox: bool },
}

/// The server to which a chunk is uploaded: the last one that the blob
/// service lists; an empty list is an error.
pub fn server_url_to_upload(server_urls: Vec<String>) -> (r: Result<String, ImportError>)
    ensures
        server_urls@.len() == 0 ==> r == Err::<String, ImportError>(ImportError::EmptyBlobServerList),
        server_urls@.len() > 0 ==> (r matches Ok(url) && url == server_urls@.last()),
{
    let mut server_urls = server_urls;
    match server_urls.pop() {
        Some(url) => Ok(url),
        None => Err(ImportError::EmptyBlobServerList),
    }
}

/// The plain values of the request for a new import state on the server
/// (the session key and its encryption, which the sdk makes, are not part
/// of it).
#[derive(Debug, Clone, PartialEq)]
pub struct ImportStateRequest {
    /// the name of the mail set into which the server imports
    pub new_imported_mail_set_name: String,
    /// the group that owns the import state
    pub owner_group: String,
    /// the number of mails that the import will send
    pub total_mails: i64,
    /// the folder into which the mails are imported
    pub target_mail_folder: ImportMailStateId,
}

/// The name of the mail set into which the server imports.
pub open spec fn internal_mailset_name() -> Seq<char> {
    seq!['@', 'i', 'n', 't', 'e', 'r', 'n', 'a', 'l', '-', 'm', 'a', 'i', 'l', 's', 'e', 't']
}

/// The request for a new import state of `total_importable_mails` mails
/// into the target mail set, owned by the target group; the server imports
/// through the mail set named `@internal-mailset`.
pub fn import_state_request(
    target_owner_group: String,
    target_mailset: ImportMailStateId,
    total_importable_mails: i64,
) -> (r: ImportStateRequest)
    ensures
        r.new_imported_mail_set_name@ == internal_mailset_name(),
        r.owner_group == target_owner_group,
        r.total_mails == total_importable_mails,
        r.target_mail_folder == target_mailset,
{
    proof {
        reveal_strlit("@internal-mailset");
    }
    let name = String::from_str("@internal-mailset");
    assert(name@ =~= internal_mailset_name());
    ImportStateRequest {
        new_imported_mail_set_name: name,
        owner_group: target_owner_group,
        total_mails: total_importable_mails,
        target_mail_folder: target_mailset,
    }
}

/// The number of mails of an import of this many eml files, as the server
/// counts them (the count converted to a signed 64-bit number).
pub fn total_importable_mails(eml_file_count: usize) -> (r: i64)
    ensures
        r == eml_file_count as i64,
{
    eml_file_count as i64
}

} // verus!
