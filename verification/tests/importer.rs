use node_mimimi::attachments::{
    assign_upload_answers, attachment_counts, flatten_per_mail, split_by_counts, zip_attachment_parts, zip_shortest,
};
use node_mimimi::errors::{ApiCallError, ImportError, IterationError, FileIterationError, PreparationError, preparation_error_for_state_request};
use node_mimimi::import_loop::{
    accepts, handle_err_while_importing_chunk, start_loop, step, LoopCommand, LoopEvent, LoopState,
    NextChunk,
};
use node_mimimi::importer::{
    import_state_request, server_url_to_upload, state_file_path, total_importable_mails, MAX_REQUEST_SIZE,
    STATE_ID_FILE_NAME,
};
use node_mimimi::remote_state::{RemoteImportState, StateUpdate};
use node_mimimi::retry::{do_until_ok, tries_again};
use node_mimimi::state_id::ImportMailStateId;
use node_mimimi::status::{
    deletes_import_directory, starts_import_loop, status_for_action, ImportProgressAction,
    ImportStatus,
};
use std::cell::Cell;
use std::convert::TryFrom;

#[test]
fn max_request_size_in_test_is_different() {
    assert_eq!(1024 * 5, MAX_REQUEST_SIZE);
}

#[test]
fn import_status_codes_round_trip() {
    for status in [
        ImportStatus::Running,
        ImportStatus::Paused,
        ImportStatus::Canceled,
        ImportStatus::Finished,
    ] {
        assert_eq!(ImportStatus::try_from(status.code()), Ok(status));
    }
    assert_eq!(ImportStatus::Finished.code(), 3);
    assert_eq!(ImportStatus::Canceled.code(), 2);
    assert_eq!(ImportStatus::try_from(1), Ok(ImportStatus::Paused));
    assert_eq!(ImportStatus::try_from(4), Err("Unknown import status"));
    assert_eq!(ImportStatus::try_from(-1), Err("Unknown import status"));
    assert_eq!(ImportStatus::default(), ImportStatus::Running);
}

#[test]
fn progress_actions_map_to_statuses() {
    assert_eq!(status_for_action(ImportProgressAction::Continue), ImportStatus::Running);
    assert_eq!(status_for_action(ImportProgressAction::Pause), ImportStatus::Paused);
    assert_eq!(status_for_action(ImportProgressAction::Stop), ImportStatus::Canceled);
    assert!(starts_import_loop(ImportProgressAction::Continue));
    assert!(!starts_import_loop(ImportProgressAction::Pause));
    assert!(!starts_import_loop(ImportProgressAction::Stop));
    assert!(deletes_import_directory(ImportStatus::Finished));
    assert!(deletes_import_directory(ImportStatus::Canceled));
    assert!(!deletes_import_directory(ImportStatus::Paused));
    assert!(!deletes_import_directory(ImportStatus::Running));
}

#[test]
fn state_file_round_trip() {
    let id = ImportMailStateId {
        list_id: "list-id".to_string(),
        element_id: "element-id".to_string(),
    };
    let contents = id.state_file_contents();
    assert_eq!(contents, "list-id/element-id");
    assert_eq!(ImportMailStateId::parse_state_file(&contents), Some(id));
}

#[test]
fn state_file_must_hold_exactly_one_slash() {
    assert_eq!(ImportMailStateId::parse_state_file("blah"), None);
    assert_eq!(ImportMailStateId::parse_state_file(""), None);
    assert_eq!(ImportMailStateId::parse_state_file("a/b/c"), None);
    assert_eq!(
        ImportMailStateId::parse_state_file("/"),
        Some(ImportMailStateId { list_id: String::new(), element_id: String::new() })
    );
    assert_eq!(
        ImportMailStateId::parse_state_file("------------/zzzzzzzzzzzz"),
        Some(ImportMailStateId {
            list_id: "------------".to_string(),
            element_id: "zzzzzzzzzzzz".to_string()
        })
    );
}

#[test]
fn state_file_lives_in_the_import_directory() {
    assert_eq!(STATE_ID_FILE_NAME, "import_mail_state");
    assert_eq!(state_file_path("/tmp/imports/box"), "/tmp/imports/box/import_mail_state");
    assert_eq!(state_file_path("/tmp/imports/box/"), "/tmp/imports/box/import_mail_state");
}

#[test]
fn attachments_are_flattened_and_regrouped_per_mail() {
    let per_mail: Vec<Vec<&str>> = vec![vec!["a1", "a2"], vec![], vec!["c1"], vec![]];
    let counts = attachment_counts(&per_mail);
    assert_eq!(counts, vec![2, 0, 1, 0]);
    let flat: Vec<&&str> = flatten_per_mail(&per_mail);
    assert_eq!(flat.into_iter().copied().collect::<Vec<_>>(), vec!["a1", "a2", "c1"]);
    let tokens = vec!["t1", "t2", "t3"];
    let regrouped = split_by_counts(tokens, &counts);
    assert_eq!(regrouped, vec![vec!["t1", "t2"], vec![], vec!["t3"], vec![]]);
}

#[test]
fn extra_answers_are_dropped_when_regrouping() {
    let regrouped = split_by_counts(vec![1, 2, 3, 4, 5], &vec![1, 2]);
    assert_eq!(regrouped, vec![vec![1], vec![2, 3]]);
}

#[test]
fn attachment_parts_are_zipped_per_mail() {
    let zipped = zip_shortest(vec![1, 2, 3], vec!['a', 'b']);
    assert_eq!(zipped, vec![(1, 'a'), (2, 'b')]);
    let parts = zip_attachment_parts(
        vec![vec!["f1", "f2"], vec!["g1"], vec!["h1"]],
        vec![vec!["m1", "m2"], vec!["n1"]],
        vec![vec![10, 20], vec![30, 40]],
    );
    assert_eq!(
        parts,
        vec![
            vec![("f1", ("m1", 10)), ("f2", ("m2", 20))],
            vec![("g1", ("n1", 30))],
        ]
    );
}

#[test]
fn remote_state_counts_mails() {
    let mut state = RemoteImportState { status: 0, failed_mails: 0, successful_mails: 0 };
    assert!(state.can_apply(StateUpdate::CountTooBigMail));
    state.apply(StateUpdate::CountTooBigMail);
    state.apply(StateUpdate::CountImportedChunk { failed: 0, imported: 5 });
    state.apply(StateUpdate::SetStatus(ImportStatus::Finished));
    assert_eq!(state, RemoteImportState { status: 3, failed_mails: 1, successful_mails: 5 });
    let full = RemoteImportState { status: 0, failed_mails: i64::MAX, successful_mails: 0 };
    assert!(!full.can_apply(StateUpdate::CountTooBigMail));
    assert!(full.can_apply(StateUpdate::SetStatus(ImportStatus::Paused)));
}

#[test]
fn chunk_errors_stop_or_continue_the_loop() {
    assert_eq!(handle_err_while_importing_chunk(ImportError::NoImportFeature), Err(ImportError::NoImportFeature));
    assert_eq!(handle_err_while_importing_chunk(ImportError::EmptyBlobServerList), Err(ImportError::EmptyBlobServerList));
    assert_eq!(
        handle_err_while_importing_chunk(ImportError::LocalImportStateIdInvalid),
        Err(ImportError::LocalImportStateIdInvalid)
    );
    assert_eq!(handle_err_while_importing_chunk(ImportError::TooBigChunk), Ok(()));
    assert_eq!(handle_err_while_importing_chunk(ImportError::sdk("upload", ApiCallError::Other("x".to_string()))), Ok(()));
    assert_eq!(
        handle_err_while_importing_chunk(ImportError::IterationError(IterationError::File(FileIterationError::SourceEnd))),
        Ok(())
    );
    assert_eq!(handle_err_while_importing_chunk(ImportError::FileDeletionError("denied".to_string(), "0.eml".to_string())), Ok(()));
}

#[test]
fn sdk_error_keeps_action_and_error() {
    let e = ImportError::sdk("calling ImportMailService", ApiCallError::ImportDisabled);
    assert_eq!(
        e,
        ImportError::SdkError { action: "calling ImportMailService".to_string(), error: ApiCallError::ImportDisabled }
    );
}

#[test]
fn state_request_errors() {
    assert_eq!(preparation_error_for_state_request(&ApiCallError::ImportDisabled), PreparationError::NoImportFeature);
    assert_eq!(
        preparation_error_for_state_request(&ApiCallError::Other("timeout".to_string())),
        PreparationError::CannotLoadRemoteState
    );
}

#[test]
fn preparation_error_codes() {
    assert_eq!(PreparationError::NoStateFile.code(), 0);
    assert_eq!(PreparationError::NotAValidEmailFile.code(), 16);
    assert_eq!(PreparationError::UnsupportedFile.code(), 18);
    assert_eq!(PreparationError::NotAValidEmailFile.reason(), "16");
    assert_eq!(PreparationError::FailedToReadEmls.reason(), "8");
}

fn run_loop(actions: &[ImportProgressAction], chunks: &[NextChunk]) -> (Vec<LoopCommand>, Result<(), ImportError>) {
    let mut actions = actions.iter();
    let mut chunks = chunks.iter();
    let (mut state, mut command) = start_loop();
    let mut commands = Vec::new();
    loop {
        let event = match &command {
            LoopCommand::Return(result) => return (commands, result.clone()),
            LoopCommand::ReadProgressAction => LoopEvent::ActionRead(*actions.next().unwrap_or(&ImportProgressAction::Continue)),
            LoopCommand::FetchNextChunk => LoopEvent::ChunkFetched(*chunks.next().unwrap_or(&NextChunk::Exhausted)),
            LoopCommand::SendChunk => LoopEvent::ChunkSent(Ok(())),
            LoopCommand::UpdateRemoteState(_) => LoopEvent::StateUpdated(Ok(())),
            LoopCommand::DeleteImportedFiles => LoopEvent::FilesDeleted(Ok(())),
        };
        assert!(accepts(state, &event));
        commands.push(command);
        let next = step(state, event);
        state = next.0;
        command = next.1;
    }
}

#[test]
fn loop_imports_until_the_source_is_exhausted() {
    let (commands, result) = run_loop(&[], &[NextChunk::Mails { mail_count: 2 }, NextChunk::TooBig, NextChunk::Exhausted]);
    assert_eq!(result, Ok(()));
    assert_eq!(
        commands,
        vec![
            LoopCommand::ReadProgressAction,
            LoopCommand::FetchNextChunk,
            LoopCommand::SendChunk,
            LoopCommand::UpdateRemoteState(StateUpdate::CountImportedChunk { failed: 0, imported: 2 }),
            LoopCommand::DeleteImportedFiles,
            LoopCommand::ReadProgressAction,
            LoopCommand::FetchNextChunk,
            LoopCommand::UpdateRemoteState(StateUpdate::CountTooBigMail),
            LoopCommand::ReadProgressAction,
            LoopCommand::FetchNextChunk,
            LoopCommand::UpdateRemoteState(StateUpdate::SetStatus(ImportStatus::Finished)),
        ]
    );
}

#[test]
fn loop_stops_on_pause() {
    let (commands, result) = run_loop(
        &[ImportProgressAction::Continue, ImportProgressAction::Pause],
        &[NextChunk::Mails { mail_count: 1 }, NextChunk::Mails { mail_count: 1 }],
    );
    assert_eq!(result, Ok(()));
    assert_eq!(commands.iter().filter(|c| **c == LoopCommand::SendChunk).count(), 1);
    assert_eq!(commands.last(), Some(&LoopCommand::ReadProgressAction));
}

#[test]
fn loop_returns_stopping_errors() {
    let (state, _) = start_loop();
    let (state, _) = step(state, LoopEvent::ActionRead(ImportProgressAction::Continue));
    let (state, command) = step(state, LoopEvent::ChunkFetched(NextChunk::Mails { mail_count: 3 }));
    assert_eq!(state, LoopState::SendingChunk { mail_count: 3 });
    assert_eq!(command, LoopCommand::SendChunk);
    let (state, command) = step(state, LoopEvent::ChunkSent(Err(ImportError::EmptyBlobServerList)));
    assert_eq!(state, LoopState::Done);
    assert_eq!(command, LoopCommand::Return(Err(ImportError::EmptyBlobServerList)));
}

#[test]
fn loop_goes_on_after_other_errors() {
    let (state, command) = step(LoopState::SendingChunk { mail_count: 3 }, LoopEvent::ChunkSent(Err(ImportError::GenericSdkError)));
    assert_eq!(state, LoopState::AwaitingAction);
    assert_eq!(command, LoopCommand::ReadProgressAction);
    let (state, command) = step(LoopState::MarkingFinished, LoopEvent::StateUpdated(Err(ImportError::TooBigChunk)));
    assert_eq!(state, LoopState::Done);
    assert_eq!(command, LoopCommand::Return(Err(ImportError::TooBigChunk)));
    assert!(!accepts(LoopState::AwaitingAction, &LoopEvent::FilesDeleted(Ok(()))));
    assert!(!accepts(LoopState::Done, &LoopEvent::ActionRead(ImportProgressAction::Continue)));
}

#[test]
fn upload_goes_to_the_last_server() {
    assert_eq!(
        server_url_to_upload(vec!["https://a".to_string(), "https://b".to_string()]),
        Ok("https://b".to_string())
    );
    assert_eq!(server_url_to_upload(vec![]), Err(ImportError::EmptyBlobServerList));
}

#[test]
fn do_until_ok_retries_up_to_the_limit() {
    let calls = Cell::new(0);
    let always_failing = || -> Result<(), u32> {
        calls.set(calls.get() + 1);
        Err(calls.get())
    };
    assert_eq!(do_until_ok::<3, (), u32>(always_failing), Err(3));
    assert_eq!(calls.get(), 3);

    let calls = Cell::new(0);
    let succeeding = || -> Result<u32, ()> {
        calls.set(calls.get() + 1);
        Ok(calls.get())
    };
    assert_eq!(do_until_ok::<3, u32, ()>(succeeding), Ok(1));
    assert_eq!(calls.get(), 1);

    let calls = Cell::new(0);
    let second_time = || -> Result<u32, u32> {
        calls.set(calls.get() + 1);
        if calls.get() >= 2 { Ok(calls.get()) } else { Err(calls.get()) }
    };
    assert_eq!(do_until_ok::<3, u32, u32>(second_time), Ok(2));
    assert_eq!(calls.get(), 2);

    let calls = Cell::new(0);
    let once = || -> Result<u32, u32> {
        calls.set(calls.get() + 1);
        Err(calls.get())
    };
    assert_eq!(do_until_ok::<0, u32, u32>(once), Err(1));
    assert_eq!(calls.get(), 1);
}

#[test]
fn ids_from_generated_id_tuple_string() {
    let id_tuple = ImportMailStateId {
        list_id: "------------".to_string(),
        element_id: "zzzzzzzzzzzz".to_string(),
    };

    assert_eq!("------------/zzzzzzzzzzzz", id_tuple.state_file_contents());

    let after_conversion = ImportMailStateId::parse_state_file(&id_tuple.state_file_contents());
    assert_eq!(Some(id_tuple), after_conversion)
}

#[test]
fn upload_answers_are_assigned_to_their_mails() {
    let assigned = assign_upload_answers(
        vec!["mail-a", "mail-b", "mail-c"],
        vec![vec!["fa1", "fa2"], vec![], vec!["fc1"]],
        vec![vec!["ma1", "ma2"], vec![], vec!["mc1"]],
        vec![1, 2, 3],
    );
    assert_eq!(
        assigned,
        vec![
            ("mail-a", vec![("fa1", ("ma1", 1)), ("fa2", ("ma2", 2))]),
            ("mail-b", vec![]),
            ("mail-c", vec![("fc1", ("mc1", 3))]),
        ]
    );
}

#[test]
fn retries_stop_at_the_first_success() {
    assert!(!tries_again(1, 3, true));
    assert!(tries_again(1, 3, false));
    assert!(!tries_again(1, 0, false));
    assert!(!tries_again(1, 1, false));
    assert!(tries_again(2, 3, false));
    assert!(!tries_again(2, 3, true));
    assert!(!tries_again(3, 3, false));
}

#[test]
fn import_state_request_values() {
    let folder = ImportMailStateId { list_id: "list".to_string(), element_id: "folder".to_string() };
    let request = import_state_request("group".to_string(), folder.clone(), 7);
    assert_eq!(request.new_imported_mail_set_name, "@internal-mailset");
    assert_eq!(request.owner_group, "group");
    assert_eq!(request.total_mails, 7);
    assert_eq!(request.target_mail_folder, folder);
    assert_eq!(total_importable_mails(3), 3);
}
