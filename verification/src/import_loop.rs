use vstd::prelude::*;
use crate::errors::{ApiCallError, ImportError};
use crate::remote_state::StateUpdate;
use crate::status::{ImportProgressAction, ImportStatus};

verus! {

// The import loop alternates work with the server and the file system,
// which the caller performs, with decisions, which are made here: the
// caller reports what came of each piece of work as an event, and `step`
// answers with the next state of the loop and the next piece of work.

/// Whether the loop stops for an error that occurred while importing a
/// chunk: it stops when the user has no import feature, when the blob
/// service lists no server, and when the local state id is invalid; it goes
/// on after every other error.
pub open spec fn stops_the_import(error: ImportError) -> bool {
    match error {
        ImportError::NoImportFeature => true,
        ImportError::EmptyBlobServerList => true,
        ImportError::LocalImportStateIdInvalid => true,
        _ => false,
    }
}

/// Decides what an error while importing a chunk means for the loop: the
/// errors that stop the import are returned, the others are passed over.
pub fn handle_err_while_importing_chunk(import_error: ImportError) -> (r: Result<(), ImportError>)
    ensures
        stops_the_import(import_error) ==> r == Err::<(), ImportError>(import_error),
        !stops_the_import(import_error) ==> r is Ok,
        r is Err <==> (import_error is NoImportFeature || import_error is EmptyBlobServerList
            || import_error is LocalImportStateIdInvalid),
        r is Err ==> r == Err::<(), ImportError>(import_error),
        import_error is SdkError ==> r is Ok,
{
    match import_error {
        ImportError::NoImportFeature => Err(ImportError::NoImportFeature),
        ImportError::SdkError { .. } => Ok(()),
        ImportError::EmptyBlobServerList => Err(ImportError::EmptyBlobServerList),
        ImportError::LocalImportStateIdInvalid => Err(ImportError::LocalImportStateIdInvalid),
        ImportError::IterationError(_) => Ok(()),
        ImportError::TooBigChunk => Ok(()),
        ImportError::FileDeletionError(_, _) => Ok(()),
        ImportError::GenericSdkError => Ok(()),
    }
}

/// What the chunking of the import source handed out next.
#[derive(Debug, Clone, Copy, PartialEq, Eq, Structural)]
pub enum NextChunk {
    /// the source is exhausted: everything has been imported
    Exhausted,
    /// the next mail is too big to be sent in a request
    TooBig,
    /// a chunk of `mail_count` mails that fit in one request
    Mails { mail_count: usize },
}

/// Where the import loop stands.
#[derive(Debug, Clone, Copy, PartialEq, Eq, Structural)]
pub enum LoopState {
    /// waiting for the progress action that the user asked for last
    AwaitingAction,
    /// waiting for the next chunk of the source
    AwaitingChunk,
    /// counting a mail that was too big on the server
    CountingTooBigMail,
    /// uploading the attachments of a chunk of `mail_count` mails and posting it
    SendingChunk { mail_count: i64 },
    /// counting the mails of a sent chunk on the server
    CountingImportedChunk,
    /// deleting the local files of the mails that were imported
    DeletingImportedFiles,
    /// recording on the server that the import is finished
    MarkingFinished,
    /// the loop has returned
    Done,
}

/// What came of the work that the loop asked for last.
#[derive(Debug, PartialEq)]
pub enum LoopEvent {
    /// the progress action that the user asked for last
    ActionRead(ImportProgressAction),
    /// the next chunk of the source
    ChunkFetched(NextChunk),
    /// the attachments were uploaded and the chunk was posted, or the error
    ChunkSent(Result<(), ImportError>),
    /// the server's import state was updated, or the error
    StateUpdated(Result<(), ImportError>),
    /// the imported files were deleted, or the error
    FilesDeleted(Result<(), ImportError>),
}

/// The work that the loop asks for next.
#[derive(Debug, PartialEq)]
pub enum LoopCommand {
    /// read the progress action that the user asked for last
    ReadProgressAction,
    /// take the next chunk from the source
    FetchNextChunk,
    /// upload the attachments of the chunk, serialize it and post it
    SendChunk,
    /// make this change to the server's import state; for a terminal
    /// status, first delete the local import directory
    UpdateRemoteState(StateUpdate),
    /// delete the local files of the mails of the chunk
    DeleteImportedFiles,
    /// return from the loop with this result
    Return(Result<(), ImportError>),
}

/// The state and the first piece of work of a new loop.
pub fn start_loop() -> (r: (LoopState, LoopCommand))
    ensures
        r == (LoopState::AwaitingAction, LoopCommand::ReadProgressAction),
{
    (LoopState::AwaitingAction, LoopCommand::ReadProgressAction)
}

/// The event answers the work that the state asked for.
pub open spec fn spec_accepts(state: LoopState, event: LoopEvent) -> bool {
    match state {
        LoopState::AwaitingAction => event is ActionRead,
        LoopState::AwaitingChunk => event matches LoopEvent::ChunkFetched(c)
            && (c matches NextChunk::Mails { mail_count } ==> mail_count <= i64::MAX),
        LoopState::CountingTooBigMail => event is StateUpdated,
        LoopState::SendingChunk { .. } => event is ChunkSent,
        LoopState::CountingImportedChunk => event is StateUpdated,
        LoopState::DeletingImportedFiles => event is FilesDeleted,
        LoopState::MarkingFinished => event is StateUpdated,
        LoopState::Done => false,
    }
}

/// Whether the event answers the work that the state asked for.
pub fn accepts(state: LoopState, event: &LoopEvent) -> (r: bool)
    ensures
        r == spec_accepts(state, *event),
{
    match state {
        LoopState::AwaitingAction => matches!(event, LoopEvent::ActionRead(_)),
        LoopState::AwaitingChunk => match event {
            LoopEvent::ChunkFetched(NextChunk::Mails { mail_count }) => (*mail_count as u64) <= 0x7fff_ffff_ffff_ffffu64,
            LoopEvent::ChunkFetched(_) => true,
            _ => false,
        },
        LoopState::CountingTooBigMail => matches!(event, LoopEvent::StateUpdated(_)),
        LoopState::SendingChunk { .. } => matches!(event, LoopEvent::ChunkSent(_)),
        LoopState::CountingImportedChunk => matches!(event, LoopEvent::StateUpdated(_)),
        LoopState::DeletingImportedFiles => matches!(event, LoopEvent::FilesDeleted(_)),
        LoopState::MarkingFinished => matches!(event, LoopEvent::StateUpdated(_)),
        LoopState::Done => false,
    }
}

/// After an error while importing a chunk: go on with the next progress
/// action, or return the error.
pub open spec fn after_chunk_error(error: ImportError) -> (LoopState, LoopCommand) {
    if stops_the_import(error) {
        (LoopState::Done, LoopCommand::Return(Err(error)))
    } else {
        (LoopState::AwaitingAction, LoopCommand::ReadProgressAction)
    }
}

/// The next state of the loop and the next piece of work.
pub open spec fn spec_step(state: LoopState, event: LoopEvent) -> (LoopState, LoopCommand) {
    match (state, event) {
        (LoopState::AwaitingAction, LoopEvent::ActionRead(action)) => match action {
            ImportProgressAction::Continue => (LoopState::AwaitingChunk, LoopCommand::FetchNextChunk),
            _ => (LoopState::Done, LoopCommand::Return(Ok(()))),
        },
        (LoopState::AwaitingChunk, LoopEvent::ChunkFetched(chunk)) => match chunk {
            NextChunk::Exhausted => (
                LoopState::MarkingFinished,
                LoopCommand::UpdateRemoteState(StateUpdate::SetStatus(ImportStatus::Finished)),
            ),
            NextChunk::TooBig => (
                LoopState::CountingTooBigMail,
                LoopCommand::UpdateRemoteState(StateUpdate::CountTooBigMail),
            ),
            NextChunk::Mails { mail_count } => (
                LoopState::SendingChunk { mail_count: mail_count as i64 },
                LoopCommand::SendChunk,
            ),
        },
        (LoopState::CountingTooBigMail, LoopEvent::StateUpdated(result)) => match result {
            Ok(()) => after_chunk_error(ImportError::TooBigChunk),
            Err(e) => after_chunk_error(e),
        },
        (LoopState::SendingChunk { mail_count }, LoopEvent::ChunkSent(result)) => match result {
            Ok(()) => (
                LoopState::CountingImportedChunk,
                LoopCommand::UpdateRemoteState(
                    StateUpdate::CountImportedChunk { failed: 0, imported: mail_count },
                ),
            ),
            Err(e) => after_chunk_error(e),
        },
        (LoopState::CountingImportedChunk, LoopEvent::StateUpdated(result)) => match result {
            Ok(()) => (LoopState::DeletingImportedFiles, LoopCommand::DeleteImportedFiles),
            Err(e) => after_chunk_error(e),
        },
        (LoopState::DeletingImportedFiles, LoopEvent::FilesDeleted(result)) => match result {
            Ok(()) => (LoopState::AwaitingAction, LoopCommand::ReadProgressAction),
            Err(e) => after_chunk_error(e),
        },
        (LoopState::MarkingFinished, LoopEvent::StateUpdated(result)) => (
            LoopState::Done,
            LoopCommand::Return(result),
        ),
        _ => (LoopState::Done, LoopCommand::Return(Ok(()))),
    }
}

fn continue_after_chunk_error(error: ImportError) -> (r: (LoopState, LoopCommand))
    ensures
        r == after_chunk_error(error),
        !stops_the_import(error) ==> r == (LoopState::AwaitingAction, LoopCommand::ReadProgressAction),
        stops_the_import(error) ==> r == (LoopState::Done, LoopCommand::Return(Err(error))),
{
    match handle_err_while_importing_chunk(error) {
        Ok(()) => (LoopState::AwaitingAction, LoopCommand::ReadProgressAction),
        Err(e) => (LoopState::Done, LoopCommand::Return(Err(e))),
    }
}

/// One decision of the import loop: from the state and what came of the
/// last piece of work, the next state and the next piece of work.
///
/// The loop reads the user's progress action before each chunk and returns
/// as soon as it is not "continue". A chunk too big to be sent counts as
/// one failed mail; a sent chunk counts its mails as imported before their
/// files are deleted; when the source is exhausted, the import is marked as
/// finished. An error while importing a chunk ends the loop only when
/// `handle_err_while_importing_chunk` returns it.
pub fn step(state: LoopState, event: LoopEvent) -> (r: (LoopState, LoopCommand))
    requires
        spec_accepts(state, event),
    ensures
        r == spec_step(state, event),
{
    match state {
        LoopState::AwaitingAction => match event {
            LoopEvent::ActionRead(ImportProgressAction::Continue) => (
                LoopState::AwaitingChunk,
                LoopCommand::FetchNextChunk,
            ),
            _ => (LoopState::Done, LoopCommand::Return(Ok(()))),
        },
        LoopState::AwaitingChunk => match event {
            LoopEvent::ChunkFetched(NextChunk::Exhausted) => (
                LoopState::MarkingFinished,
                LoopCommand::UpdateRemoteState(StateUpdate::SetStatus(ImportStatus::Finished)),
            ),
            LoopEvent::ChunkFetched(NextChunk::TooBig) => (
                LoopState::CountingTooBigMail,
                LoopCommand::UpdateRemoteState(StateUpdate::CountTooBigMail),
            ),
            LoopEvent::ChunkFetched(NextChunk::Mails { mail_count }) => (
                LoopState::SendingChunk { mail_count: mail_count as i64 },
                LoopCommand::SendChunk,
            ),
            _ => (LoopState::Done, LoopCommand::Return(Ok(()))),
        },
        LoopState::CountingTooBigMail => match event {
            LoopEvent::StateUpdated(Ok(())) => continue_after_chunk_error(ImportError::TooBigChunk),
            LoopEvent::StateUpdated(Err(e)) => continue_after_chunk_error(e),
            _ => (LoopState::Done, LoopCommand::Return(Ok(()))),
        },
        LoopState::SendingChunk { mail_count } => match event {
            LoopEvent::ChunkSent(Ok(())) => (
                LoopState::CountingImportedChunk,
                LoopCommand::UpdateRemoteState(
                    StateUpdate::CountImportedChunk { failed: 0, imported: mail_count },
                ),
            ),
            LoopEvent::ChunkSent(Err(e)) => continue_after_chunk_error(e),
            _ => (LoopState::Done, LoopCommand::Return(Ok(()))),
        },
        LoopState::CountingImportedChunk => match event {
            LoopEvent::StateUpdated(Ok(())) => (
                LoopState::DeletingImportedFiles,
                LoopCommand::DeleteImportedFiles,
            ),
            LoopEvent::StateUpdated(Err(e)) => continue_after_chunk_error(e),
            _ => (LoopState::Done, LoopCommand::Return(Ok(()))),
        },
        LoopState::DeletingImportedFiles => match event {
            LoopEvent::FilesDeleted(Ok(())) => (
                LoopState::AwaitingAction,
                LoopCommand::ReadProgressAction,
            ),
            LoopEvent::FilesDeleted(Err(e)) => continue_after_chunk_error(e),
            _ => (LoopState::Done, LoopCommand::Return(Ok(()))),
        },
        LoopState::MarkingFinished => match event {
            LoopEvent::StateUpdated(result) => (LoopState::Done, LoopCommand::Return(result)),
            _ => (LoopState::Done, LoopCommand::Return(Ok(()))),
        },
        LoopState::Done => (LoopState::Done, LoopCommand::Return(Ok(()))),
    }
}

/// Exactly three errors stop the import: a missing import feature, an empty
/// list of blob servers and an invalid local state id. Every error of a call
/// to the sdk is passed over, whatever the call and whatever the server
/// answered.
pub proof fn lemma_errors_that_stop_the_import(error: ImportError, action: String, sdk_error: ApiCallError)
    ensures
        stops_the_import(error) <==> (error is NoImportFeature || error is EmptyBlobServerList
            || error is LocalImportStateIdInvalid),
        !stops_the_import(ImportError::SdkError { action, error: sdk_error }),
{
}

/// An error while importing a chunk that does not stop the import is passed
/// over: whether it came from counting a too big mail, from sending the
/// chunk, from counting its mails or from deleting its files, the loop goes
/// on by reading the next progress action. In particular every error of a
/// call to the sdk is passed over.
pub proof fn lemma_passed_over_errors_continue(
    error: ImportError,
    mail_count: i64,
    action: String,
    sdk_error: ApiCallError,
)
    ensures
        !stops_the_import(error) ==> {
            &&& spec_step(LoopState::CountingTooBigMail, LoopEvent::StateUpdated(Err(error)))
                == (LoopState::AwaitingAction, LoopCommand::ReadProgressAction)
            &&& spec_step(LoopState::SendingChunk { mail_count }, LoopEvent::ChunkSent(Err(error)))
                == (LoopState::AwaitingAction, LoopCommand::ReadProgressAction)
            &&& spec_step(LoopState::CountingImportedChunk, LoopEvent::StateUpdated(Err(error)))
                == (LoopState::AwaitingAction, LoopCommand::ReadProgressAction)
            &&& spec_step(LoopState::DeletingImportedFiles, LoopEvent::FilesDeleted(Err(error)))
                == (LoopState::AwaitingAction, LoopCommand::ReadProgressAction)
        },
        stops_the_import(error) ==> {
            &&& spec_step(LoopState::CountingTooBigMail, LoopEvent::StateUpdated(Err(error)))
                == (LoopState::Done, LoopCommand::Return(Err(error)))
            &&& spec_step(LoopState::SendingChunk { mail_count }, LoopEvent::ChunkSent(Err(error)))
                == (LoopState::Done, LoopCommand::Return(Err(error)))
            &&& spec_step(LoopState::CountingImportedChunk, LoopEvent::StateUpdated(Err(error)))
                == (LoopState::Done, LoopCommand::Return(Err(error)))
            &&& spec_step(LoopState::DeletingImportedFiles, LoopEvent::FilesDeleted(Err(error)))
                == (LoopState::Done, LoopCommand::Return(Err(error)))
        },
        spec_step(
            LoopState::SendingChunk { mail_count },
            LoopEvent::ChunkSent(Err(ImportError::SdkError { action, error: sdk_error })),
        ) == (LoopState::AwaitingAction, LoopCommand::ReadProgressAction),
{
}

/// The loop ends successfully only when the user asked for something other
/// than "continue", or after the import was marked finished on the server;
/// no error while importing a chunk ends it with success.
pub proof fn lemma_success_only_on_request_or_when_finished(state: LoopState, event: LoopEvent)
    requires
        spec_accepts(state, event),
    ensures
        spec_step(state, event).1 == LoopCommand::Return(Ok(())) ==> {
            ||| state == LoopState::AwaitingAction && (event matches LoopEvent::ActionRead(a)
                && a != ImportProgressAction::Continue)
            ||| state == LoopState::MarkingFinished && event == LoopEvent::StateUpdated(Ok(()))
        },
{
    match event {
        LoopEvent::StateUpdated(Err(e)) => {
            assert(after_chunk_error(e).1 != LoopCommand::Return(Ok(())));
        },
        LoopEvent::ChunkSent(Err(e)) => {
            assert(after_chunk_error(e).1 != LoopCommand::Return(Ok(())));
        },
        LoopEvent::FilesDeleted(Err(e)) => {
            assert(after_chunk_error(e).1 != LoopCommand::Return(Ok(())));
        },
        LoopEvent::StateUpdated(Ok(u)) => {
            assert(u == ());
        },
        _ => {},
    }
    assert(after_chunk_error(ImportError::TooBigChunk).1 != LoopCommand::Return(Ok(())));
}

/// A progress action other than "continue" ends the loop at once and
/// successfully, without touching the source or the server.
pub proof fn lemma_pause_and_stop_end_the_loop(action: ImportProgressAction)
    requires
        action != ImportProgressAction::Continue,
    ensures
        spec_step(LoopState::AwaitingAction, LoopEvent::ActionRead(action))
            == (LoopState::Done, LoopCommand::Return(Ok(()))),
{
}

/// When the source is exhausted the loop records on the server that the
/// import is finished, and then returns what came of that.
pub proof fn lemma_exhausted_source_marks_finished(result: Result<(), ImportError>)
    ensures
        spec_step(LoopState::AwaitingChunk, LoopEvent::ChunkFetched(NextChunk::Exhausted)) == (
            LoopState::MarkingFinished,
            LoopCommand::UpdateRemoteState(StateUpdate::SetStatus(ImportStatus::Finished)),
        ),
        spec_step(LoopState::MarkingFinished, LoopEvent::StateUpdated(result))
            == (LoopState::Done, LoopCommand::Return(result)),
{
}

/// The import is marked as finished only when the source is exhausted.
pub proof fn lemma_finished_only_when_exhausted(state: LoopState, event: LoopEvent)
    requires
        spec_accepts(state, event),
        spec_step(state, event).1 == LoopCommand::UpdateRemoteState(
            StateUpdate::SetStatus(ImportStatus::Finished),
        ),
    ensures
        state == LoopState::AwaitingChunk,
        event == LoopEvent::ChunkFetched(NextChunk::Exhausted),
{
}

/// The files of a chunk are deleted only after the chunk was sent and its
/// mails were counted on the server, and the count is the number of mails
/// that the chunk held.
pub proof fn lemma_files_deleted_only_after_counting(mail_count: usize)
    requires
        mail_count <= i64::MAX,
    ensures
        spec_step(LoopState::AwaitingChunk, LoopEvent::ChunkFetched(NextChunk::Mails { mail_count }))
            == (LoopState::SendingChunk { mail_count: mail_count as i64 }, LoopCommand::SendChunk),
        spec_step(LoopState::SendingChunk { mail_count: mail_count as i64 }, LoopEvent::ChunkSent(Ok(())))
            == (
            LoopState::CountingImportedChunk,
            LoopCommand::UpdateRemoteState(
                StateUpdate::CountImportedChunk { failed: 0, imported: mail_count as i64 },
            ),
        ),
        forall|state: LoopState, event: LoopEvent|
            spec_accepts(state, event) && #[trigger] spec_step(state, event).1 == LoopCommand::DeleteImportedFiles
                ==> state == LoopState::CountingImportedChunk && event == LoopEvent::StateUpdated(Ok(())),
{
    assert forall|state: LoopState, event: LoopEvent|
        spec_accepts(state, event) && #[trigger] spec_step(state, event).1 == LoopCommand::DeleteImportedFiles
        implies state == LoopState::CountingImportedChunk && event == LoopEvent::StateUpdated(Ok(())) by {
        lemma_deletion_follows_counting(state, event);
    }
}

proof fn lemma_deletion_follows_counting(state: LoopState, event: LoopEvent)
    requires
        spec_accepts(state, event),
        spec_step(state, event).1 == LoopCommand::DeleteImportedFiles,
    ensures
        state == LoopState::CountingImportedChunk,
        event == LoopEvent::StateUpdated(Ok(())),
{
    match state {
        LoopState::CountingImportedChunk => {
            match event {
                LoopEvent::StateUpdated(Err(e)) => {
                    assert(after_chunk_error(e).1 != LoopCommand::DeleteImportedFiles);
                },
                LoopEvent::StateUpdated(Ok(u)) => {
                    assert(u == ());
                },
                _ => {},
            }
        },
        LoopState::CountingTooBigMail => {
            if let LoopEvent::StateUpdated(Err(e)) = event {
                assert(after_chunk_error(e).1 != LoopCommand::DeleteImportedFiles);
            }
            assert(after_chunk_error(ImportError::TooBigChunk).1 != LoopCommand::DeleteImportedFiles);
        },
        LoopState::SendingChunk { mail_count } => {
            if let LoopEvent::ChunkSent(Err(e)) = event {
                assert(after_chunk_error(e).1 != LoopCommand::DeleteImportedFiles);
            }
        },
        LoopState::DeletingImportedFiles => {
            if let LoopEvent::FilesDeleted(Err(e)) = event {
                assert(after_chunk_error(e).1 != LoopCommand::DeleteImportedFiles);
            }
        },
        _ => {},
    }
}

/// A too big mail is counted as failed, and the loop goes on with the next
/// progress action.
pub proof fn lemma_too_big_mail_is_counted_and_skipped()
    ensures
        spec_step(LoopState::AwaitingChunk, LoopEvent::ChunkFetched(NextChunk::TooBig))
            == (LoopState::CountingTooBigMail, LoopCommand::UpdateRemoteState(StateUpdate::CountTooBigMail)),
        spec_step(LoopState::CountingTooBigMail, LoopEvent::StateUpdated(Ok(())))
            == (LoopState::AwaitingAction, LoopCommand::ReadProgressAction),
{
}

/// The loop returns exactly when it reaches `Done`, and every error that it
/// returns is one that stops the import or one from marking it finished.
pub proof fn lemma_loop_returns_only_when_done(state: LoopState, event: LoopEvent)
    requires
        spec_accepts(state, event),
    ensures
        (spec_step(state, event).1 is Return) == (spec_step(state, event).0 == LoopState::Done),
        spec_step(state, event).1 matches LoopCommand::Return(Err(e))
            ==> stops_the_import(e) || state == LoopState::MarkingFinished,
{
}

/// How many decisions at most lie between this state and the next time
/// that the loop reads the user's progress action (or ends).
pub open spec fn steps_to_next_action(state: LoopState) -> nat {
    match state {
        LoopState::AwaitingAction => 5,
        LoopState::AwaitingChunk => 4,
        LoopState::SendingChunk { .. } => 3,
        LoopState::CountingImportedChunk => 2,
        LoopState::DeletingImportedFiles => 1,
        LoopState::CountingTooBigMail => 1,
        LoopState::MarkingFinished => 1,
        LoopState::Done => 0,
    }
}

/// The loop makes progress: after reading the progress action it fetches a
/// chunk or ends; every other decision ends the loop, goes back to reading
/// the progress action, or comes closer to it, so at most five decisions
/// lie between two chunk fetches. Once the source is exhausted, the loop
/// ends with the next decision, whatever came of marking the import
/// finished.
pub proof fn lemma_loop_progress(state: LoopState, event: LoopEvent)
    requires
        spec_accepts(state, event),
    ensures
        state == LoopState::AwaitingAction ==> spec_step(state, event).0 == LoopState::AwaitingChunk
            || spec_step(state, event).0 == LoopState::Done,
        state != LoopState::AwaitingAction ==> spec_step(state, event).0 == LoopState::Done
            || spec_step(state, event).0 == LoopState::AwaitingAction
            || steps_to_next_action(spec_step(state, event).0) < steps_to_next_action(state),
        state == LoopState::AwaitingChunk && event == LoopEvent::ChunkFetched(NextChunk::Exhausted)
            ==> spec_step(state, event).0 == LoopState::MarkingFinished,
        state == LoopState::MarkingFinished ==> spec_step(state, event).0 == LoopState::Done,
{
    match event {
        LoopEvent::StateUpdated(Err(e)) => {
            assert(after_chunk_error(e).0 == LoopState::Done || after_chunk_error(e).0 == LoopState::AwaitingAction);
        },
        LoopEvent::ChunkSent(Err(e)) => {
            assert(after_chunk_error(e).0 == LoopState::Done || after_chunk_error(e).0 == LoopState::AwaitingAction);
        },
        LoopEvent::FilesDeleted(Err(e)) => {
            assert(after_chunk_error(e).0 == LoopState::Done || after_chunk_error(e).0 == LoopState::AwaitingAction);
        },
        _ => {},
    }
    assert(after_chunk_error(ImportError::TooBigChunk).0 == LoopState::AwaitingAction);
}

} // verus!
