use vstd::prelude::*;
use crate::status::{ImportStatus, status_code, status_from_code};

verus! {

/// The counters and the status of the import state that the server keeps,
/// as the import loop reads and writes them.
#[derive(Debug, Clone, Copy, PartialEq, Eq, Structural)]
pub struct RemoteImportState {
    /// the number of the current status (see `ImportStatus::code`)
    pub status: i64,
    /// mails that could not be imported
    pub failed_mails: i64,
    /// mails that were imported
    pub successful_mails: i64,
}

/// A change that the import loop makes to the server's import state.
#[derive(Debug, Clone, Copy, PartialEq, Eq, Structural)]
pub enum StateUpdate {
    /// one mail was too big to be sent: it counts as failed
    CountTooBigMail,
    /// a chunk was sent: `failed` of its mails failed, `imported` were imported
    CountImportedChunk { failed: i64, imported: i64 },
    /// the import reached a new status
    SetStatus(ImportStatus),
}

/// The state after the update.
pub open spec fn updated(state: RemoteImportState, update: StateUpdate) -> RemoteImportState {
    match update {
        StateUpdate::CountTooBigMail => RemoteImportState {
            failed_mails: (state.failed_mails + 1) as i64,
            ..state
        },
        StateUpdate::CountImportedChunk { failed, imported } => RemoteImportState {
            failed_mails: (state.failed_mails + failed) as i64,
            successful_mails: (state.successful_mails + imported) as i64,
            ..state
        },
        StateUpdate::SetStatus(s) => RemoteImportState { status: status_code(s), ..state },
    }
}

/// The update can be made without overflowing a counter.
pub open spec fn update_fits(state: RemoteImportState, update: StateUpdate) -> bool {
    match update {
        StateUpdate::CountTooBigMail => state.failed_mails + 1 <= i64::MAX,
        StateUpdate::CountImportedChunk { failed, imported } => {
            &&& i64::MIN <= state.failed_mails + failed <= i64::MAX
            &&& i64::MIN <= state.successful_mails + imported <= i64::MAX
        },
        StateUpdate::SetStatus(_) => true,
    }
}

impl RemoteImportState {
    /// Whether `update` can be applied without overflowing a counter.
    pub fn can_apply(&self, update: StateUpdate) -> (r: bool)
        ensures
            r == update_fits(*self, update),
    {
        match update {
            StateUpdate::CountTooBigMail => self.failed_mails < i64::MAX,
            StateUpdate::CountImportedChunk { failed, imported } => {
                self.failed_mails.checked_add(failed).is_some()
                    && self.successful_mails.checked_add(imported).is_some()
            },
            StateUpdate::SetStatus(_) => true,
        }
    }

    /// Makes the change to the state.
    pub fn apply(&mut self, update: StateUpdate)
        requires
            update_fits(*old(self), update),
        ensures
            *final(self) == updated(*old(self), update),
            update matches StateUpdate::SetStatus(s) ==> {
                &&& status_from_code(final(self).status) == Some(s)
                &&& final(self).failed_mails == old(self).failed_mails
                &&& final(self).successful_mails == old(self).successful_mails
            },
    {
        match update {
            StateUpdate::CountTooBigMail => {
                self.failed_mails = self.failed_mails + 1;
            },
            StateUpdate::CountImportedChunk { failed, imported } => {
                self.failed_mails = self.failed_mails + failed;
                self.successful_mails = self.successful_mails + imported;
            },
            StateUpdate::SetStatus(s) => {
                self.status = s.code();
            },
        }
    }
}

/// Recording a status stores that very status, whatever it is, and leaves
/// the counters alone: the stored number reads back as the status, so a
/// stopped import is recorded as canceled (2) and a completed one as
/// finished (3), a paused one as paused (1) and a running one as running (0).
pub proof fn lemma_set_status_records_it(state: RemoteImportState, status: ImportStatus)
    ensures
        updated(state, StateUpdate::SetStatus(status)).status == status_code(status),
        status_from_code(updated(state, StateUpdate::SetStatus(status)).status) == Some(status),
        updated(state, StateUpdate::SetStatus(status)).failed_mails == state.failed_mails,
        updated(state, StateUpdate::SetStatus(status)).successful_mails == state.successful_mails,
        status == ImportStatus::Running ==> updated(state, StateUpdate::SetStatus(status)).status == 0,
        status == ImportStatus::Paused ==> updated(state, StateUpdate::SetStatus(status)).status == 1,
        status == ImportStatus::Canceled ==> updated(state, StateUpdate::SetStatus(status)).status == 2,
        status == ImportStatus::Finished ==> updated(state, StateUpdate::SetStatus(status)).status == 3,
{
}

/// No update lowers the number of mails that were handled (imported or
/// failed) when its counts are not negative, and counting a sent chunk adds
/// exactly its mails to the handled ones.
pub proof fn lemma_updates_count_every_mail(state: RemoteImportState, update: StateUpdate)
    requires
        update_fits(state, update),
        update matches StateUpdate::CountImportedChunk { failed, imported } ==> failed >= 0 && imported >= 0,
    ensures
        updated(state, update).failed_mails + updated(state, update).successful_mails
            >= state.failed_mails + state.successful_mails,
        update matches StateUpdate::CountImportedChunk { failed, imported } ==>
            updated(state, update).failed_mails + updated(state, update).successful_mails
                == state.failed_mails + state.successful_mails + failed + imported,
        update is CountTooBigMail ==> updated(state, update).failed_mails == state.failed_mails + 1
            && updated(state, update).successful_mails == state.successful_mails,
        update is SetStatus ==> updated(state, update).failed_mails == state.failed_mails
            && updated(state, update).successful_mails == state.successful_mails,
{
}

} // verus!
