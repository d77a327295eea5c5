use vstd::prelude::*;
use crate::decimal::{decimal, to_decimal};

verus! {

/// What went wrong in a call to the server, as far as the import reads it:
/// whether the server refused because importing is disabled for the user,
/// or some other failure, kept as its description.
#[derive(Debug, Clone, PartialEq)]
pub enum ApiCallError {
    /// the server answered with the precondition failure "import disabled"
    ImportDisabled,
    /// any other failure
    Other(String),
}

/// Error that can occur when we walk through the source of imap mails
#[derive(Debug, Clone, PartialEq)]
pub enum ImapIterationError {
    /// All mail form remote server have been visited at least once,
    SourceEnd,
    /// when executing a command, received a non-ok status,
    NonOkCommandStatus,
    /// Can not convert an imap mail to an importable mail; the reason
    MailParseError(String),
    /// Can not log in to imap server
    NoLogin,
}

/// Error that can occur when we iterate through import directory
#[derive(Debug, Clone, PartialEq)]
pub enum FileIterationError {
    /// We have read all contents. not actually an error, but the signal that we finished
    SourceEnd,
    /// File read error, at the given path
    FileReadError(String),
    /// failed to parse an eml, at the given path
    ParseError(String),
}

/// Unification of Imap & File IterationError
#[derive(Debug, Clone, PartialEq)]
pub enum IterationError {
    Imap(ImapIterationError),
    File(FileIterationError),
}

/// Error that can happen when we are inside the importer loop
#[derive(Debug, Clone, PartialEq)]
pub enum ImportError {
    SdkError {
        /// action we were trying to perform on sdk
        action: String,
        /// actual error sdk returned
        error: ApiCallError,
    },
    /// import feature is not available for this user
    NoImportFeature,
    /// Blob responded with empty server url list
    EmptyBlobServerList,
    /// the element ID of the current import state directory is missing or not a valid ID
    LocalImportStateIdInvalid,
    /// Error while iterating through import source
    IterationError(IterationError),
    /// Some mail was too big
    TooBigChunk,
    /// Error that occured when deleting a file: the reason and the path of the file
    FileDeletionError(String, String),
    /// Generic counterpart for SdkError
    GenericSdkError,
}

impl ImportError {
    /// The error for a failed call to the sdk while doing `action`.
    pub fn sdk(action: &str, error: ApiCallError) -> (r: ImportError)
        ensures
            r matches ImportError::SdkError { action: a, error: e } && a@ == action@ && e == error,
    {
        ImportError::SdkError { action: String::from_str(action), error }
    }
}

/// Errors that can happen when we are preparing for an import.
/// i.e before we enter importer loop
#[derive(Debug, Clone, Copy, PartialEq, Eq, Structural)]
pub enum PreparationError {
    /// import state file does not exist at all
    NoStateFile,
    /// import state file exists, but it's content can not be deserialized to valid idTuple
    MalformedStateFile,
    /// Can not create a native Rest client
    NoNativeRestClient,
    /// Can not log in through sdk
    CanNotLoginToSdk,
    /// Can not create a sdk
    CannotCreateSdk,
    /// some error occurred while preparing import directory
    ImportDirectoryPreparation,
    /// Can not create valid credential from given raw input
    CredentialValidationError,
    /// Error when trying to resume the session passed from client
    LoginError,
    /// Can not read all the eml files in import directory
    FailedToReadEmls,
    /// can not get mail group key from sdk
    NoMailGroupKey,
    /// can not load remote state
    CannotLoadRemoteState,
    /// No import feature
    NoImportFeature,
    /// Can not write to state file
    StateFileWriteFailed,
    /// Can not create directory to keep selected files
    CanNotCreateImportDir,
    /// Can not delete import directory
    CanNotDeleteImportDir,
    /// Can not read one of selected file
    FileReadError,
    /// Can not parse file content to Message format
    NotAValidEmailFile,
    /// Can not write eml file to import dir
    EmlFileWriteFailure,
    /// Not a valid eml or mbox file
    UnsupportedFile,
}

/// The number by which each preparation error is known to the caller.
pub open spec fn preparation_error_code(e: PreparationError) -> u8 {
    match e {
        PreparationError::NoStateFile => 0,
        PreparationError::MalformedStateFile => 1,
        PreparationError::NoNativeRestClient => 2,
        PreparationError::CanNotLoginToSdk => 3,
        PreparationError::CannotCreateSdk => 4,
        PreparationError::ImportDirectoryPreparation => 5,
        PreparationError::CredentialValidationError => 6,
        PreparationError::LoginError => 7,
        PreparationError::FailedToReadEmls => 8,
        PreparationError::NoMailGroupKey => 9,
        PreparationError::CannotLoadRemoteState => 10,
        PreparationError::NoImportFeature => 11,
        PreparationError::StateFileWriteFailed => 12,
        PreparationError::CanNotCreateImportDir => 13,
        PreparationError::CanNotDeleteImportDir => 14,
        PreparationError::FileReadError => 15,
        PreparationError::NotAValidEmailFile => 16,
        PreparationError::EmlFileWriteFailure => 17,
        PreparationError::UnsupportedFile => 18,
    }
}

impl PreparationError {
    /// The number by which this error is known to the caller.
    pub fn code(&self) -> (r: u8)
        ensures
            r == preparation_error_code(*self),
    {
        match self {
            PreparationError::NoStateFile => 0,
            PreparationError::MalformedStateFile => 1,
            PreparationError::NoNativeRestClient => 2,
            PreparationError::CanNotLoginToSdk => 3,
            PreparationError::CannotCreateSdk => 4,
            PreparationError::ImportDirectoryPreparation => 5,
            PreparationError::CredentialValidationError => 6,
            PreparationError::LoginError => 7,
            PreparationError::FailedToReadEmls => 8,
            PreparationError::NoMailGroupKey => 9,
            PreparationError::CannotLoadRemoteState => 10,
            PreparationError::NoImportFeature => 11,
            PreparationError::StateFileWriteFailed => 12,
            PreparationError::CanNotCreateImportDir => 13,
            PreparationError::CanNotDeleteImportDir => 14,
            PreparationError::FileReadError => 15,
            PreparationError::NotAValidEmailFile => 16,
            PreparationError::EmlFileWriteFailure => 17,
            PreparationError::UnsupportedFile => 18,
        }
    }

    /// The reason handed to the caller for this error: its code in decimal.
    pub fn reason(&self) -> (r: String)
        ensures
            r@ == decimal(preparation_error_code(*self) as nat),
    {
        let code = self.code();
        to_decimal(code as u64)
    }
}

/// Two preparation errors share a code only if they are the same error.
pub proof fn lemma_preparation_error_codes_distinct(a: PreparationError, b: PreparationError)
    requires
        preparation_error_code(a) == preparation_error_code(b),
    ensures
        a == b,
{
}

/// The preparation error for a failed request of a new server import state:
/// the server refusing because importing is disabled means that the user has
/// no import feature; any other failure means that the state could not be
/// loaded.
pub fn preparation_error_for_state_request(error: &ApiCallError) -> (r: PreparationError)
    ensures
        r == (match error {
            ApiCallError::ImportDisabled => PreparationError::NoImportFeature,
            ApiCallError::Other(_) => PreparationError::CannotLoadRemoteState,
        }),
{
    match error {
        ApiCallError::ImportDisabled => PreparationError::NoImportFeature,
        ApiCallError::Other(_) => PreparationError::CannotLoadRemoteState,
    }
}

} // verus!
