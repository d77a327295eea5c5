use vstd::prelude::*;

verus! {

/// Status of an import as the server records it.
#[derive(Debug, Clone, Copy, PartialEq, Eq, Structural)]
pub enum ImportStatus {
    Running,
    Paused,
    Canceled,
    Finished,
}

/// The number under which the server stores each status.
pub open spec fn status_code(status: ImportStatus) -> i64 {
    match status {
        ImportStatus::Running => 0,
        ImportStatus::Paused => 1,
        ImportStatus::Canceled => 2,
        ImportStatus::Finished => 3,
    }
}

/// The status that a stored number denotes, if any.
pub open spec fn status_from_code(value: i64) -> Option<ImportStatus> {
    if value == 0 {
        Some(ImportStatus::Running)
    } else if value == 1 {
        Some(ImportStatus::Paused)
    } else if value == 2 {
        Some(ImportStatus::Canceled)
    } else if value == 3 {
        Some(ImportStatus::Finished)
    } else {
        None
    }
}

impl ImportStatus {
    /// The number under which the server stores this status.
    pub fn code(&self) -> (r: i64)
        ensures
            r == status_code(*self),
    {
        match self {
            ImportStatus::Running => 0,
            ImportStatus::Paused => 1,
            ImportStatus::Canceled => 2,
            ImportStatus::Finished => 3,
        }
    }
}

impl Default for ImportStatus {
    fn default() -> (r: ImportStatus)
        ensures
            r == ImportStatus::Running,
    {
        ImportStatus::Running
    }
}

impl TryFrom<i64> for ImportStatus {
    type Error = &'static str;

    fn try_from(value: i64) -> (r: Result<ImportStatus, &'static str>) {
        if value == 0 {
            Ok(ImportStatus::Running)
        } else if value == 1 {
            Ok(ImportStatus::Paused)
        } else if value == 2 {
            Ok(ImportStatus::Canceled)
        } else if value == 3 {
            Ok(ImportStatus::Finished)
        } else {
            Err("Unknown import status")
        }
    }
}

impl vstd::std_specs::convert::TryFromSpecImpl<i64> for ImportStatus {
    open spec fn obeys_try_from_spec() -> bool {
        true
    }

    open spec fn try_from_spec(value: i64) -> Result<ImportStatus, &'static str> {
        match status_from_code(value) {
            Some(s) => Ok(s),
            None => Err("Unknown import status"),
        }
    }
}

/// A running import can be stopped or paused
#[derive(Debug, Clone, Copy, PartialEq, Eq, Structural)]
pub enum ImportProgressAction {
    Continue,
    Pause,
    Stop,
}

/// when state callback function is called after every chunk of import,
/// javascript handle is expected to respond with this struct
#[derive(Debug, Clone, Copy, PartialEq, Eq, Structural)]
pub struct StateCallbackResponse {
    pub action: ImportProgressAction,
}

/// The status that the server records when the user asks for an action:
/// continuing runs the import, pausing pauses it, stopping cancels it.
pub open spec fn spec_status_for_action(action: ImportProgressAction) -> ImportStatus {
    match action {
        ImportProgressAction::Continue => ImportStatus::Running,
        ImportProgressAction::Pause => ImportStatus::Paused,
        ImportProgressAction::Stop => ImportStatus::Canceled,
    }
}

/// The status that the server records when the user asks for `action`.
pub fn status_for_action(action: ImportProgressAction) -> (r: ImportStatus)
    ensures
        r == spec_status_for_action(action),
        action == ImportProgressAction::Continue ==> r == ImportStatus::Running,
        action == ImportProgressAction::Pause ==> r == ImportStatus::Paused,
        action == ImportProgressAction::Stop ==> r == ImportStatus::Canceled,
{
    match action {
        ImportProgressAction::Continue => ImportStatus::Running,
        ImportProgressAction::Pause => ImportStatus::Paused,
        ImportProgressAction::Stop => ImportStatus::Canceled,
    }
}

/// Whether the import loop is started again after the user asked for `action`:
/// only for continuing.
pub fn starts_import_loop(action: ImportProgressAction) -> (r: bool)
    ensures
        r == (action == ImportProgressAction::Continue),
{
    match action {
        ImportProgressAction::Continue => true,
        _ => false,
    }
}

/// Whether an import that reaches `status` is over, so that its local
/// directory is no longer needed: once it is finished or canceled.
pub open spec fn spec_is_terminal(status: ImportStatus) -> bool {
    status == ImportStatus::Finished || status == ImportStatus::Canceled
}

/// Whether recording `status` also removes the local import directory.
pub fn deletes_import_directory(status: ImportStatus) -> (r: bool)
    ensures
        r == spec_is_terminal(status),
        r <==> (status == ImportStatus::Finished || status == ImportStatus::Canceled),
{
    match status {
        ImportStatus::Finished | ImportStatus::Canceled => true,
        _ => false,
    }
}

/// Stopping an import cancels it and removes its local directory; pausing
/// keeps the directory so that the import can be resumed; only continuing
/// runs the import again.
pub proof fn lemma_actions_and_local_directory()
    ensures
        spec_status_for_action(ImportProgressAction::Stop) == ImportStatus::Canceled,
        spec_is_terminal(spec_status_for_action(ImportProgressAction::Stop)),
        !spec_is_terminal(spec_status_for_action(ImportProgressAction::Pause)),
        !spec_is_terminal(spec_status_for_action(ImportProgressAction::Continue)),
{
}

/// Each action is recorded as its own status: continuing as running, pausing
/// as paused, stopping as canceled, and no two actions as the same status;
/// no action records the import as finished.
pub proof fn lemma_each_action_its_status(a: ImportProgressAction, b: ImportProgressAction)
    ensures
        a != b ==> spec_status_for_action(a) != spec_status_for_action(b),
        spec_status_for_action(a) != ImportStatus::Finished,
        spec_status_for_action(ImportProgressAction::Continue) == ImportStatus::Running,
        spec_status_for_action(ImportProgressAction::Pause) == ImportStatus::Paused,
        spec_status_for_action(ImportProgressAction::Stop) == ImportStatus::Canceled,
{
}

/// Every status survives being stored as its number and read back.
pub proof fn lemma_status_code_round_trip(status: ImportStatus)
    ensures
        status_from_code(status_code(status)) == Some(status),
{
}

} // verus!
