//! Verified core of a mail importer: the state of an import, its errors,
//! the local state file, the bookkeeping of attachments across a chunk of
//! mails and the decisions of the import loop.

pub mod status;
pub mod state_id;
pub mod attachments;
pub mod errors;
pub mod remote_state;
pub mod import_loop;
pub mod decimal;
pub mod paths;
pub mod file_import;
pub mod aggregate_id;
pub mod credentials;
pub mod retry;
pub mod importer;
pub mod preparation;
