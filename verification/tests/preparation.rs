use node_mimimi::errors::{FileIterationError, PreparationError};
use node_mimimi::file_import::importable_eml;
use node_mimimi::paths::is_eml_file;
use node_mimimi::preparation::{FilePreparation, MboxReading, PreparationCommand, PreparationEvent};

const MBOX: &str = "From a@example.org  Fri Feb  2 20:57:39 2024\nSubject: one\n\nfirst\n\nFrom b@example.org  Fri Feb  2 21:03:27 2024\nSubject: two\n\nsecond\n";

fn answer(command: &PreparationCommand) -> Option<PreparationEvent> {
    match command {
        PreparationCommand::Return(_) => None,
        PreparationCommand::DeleteImportDirectory(_) => Some(PreparationEvent::ImportDirectoryDeleted(true)),
        PreparationCommand::CreateImportDirectory(_) => Some(PreparationEvent::ImportDirectoryCreated(true)),
        PreparationCommand::ReadMbox(_) => Some(PreparationEvent::MboxRead(MboxReading::Complete(MBOX.as_bytes().to_vec()))),
        PreparationCommand::CopyEml { .. } => Some(PreparationEvent::EmlCopied(true)),
        PreparationCommand::WriteEml { .. } => Some(PreparationEvent::EmlWritten(true)),
    }
}

fn run(sources: &[&str]) -> Vec<PreparationCommand> {
    let (mut preparation, mut command) =
        FilePreparation::new("/tmp/config", "box", sources.iter().map(|s| s.to_string()).collect());
    let mut commands = Vec::new();
    while let Some(event) = answer(&command) {
        assert!(preparation.accepts(&event));
        commands.push(command);
        command = preparation.step(event);
    }
    commands.push(command);
    commands
}

#[test]
fn prepared_emls_are_numbered_in_source_order() {
    let commands = run(&["/src/a.eml", "/src/notes.txt", "/src/c.mbox", "/src/d.eml"]);
    let dir = "/tmp/config/current_imports/box".to_string();
    assert_eq!(commands.len(), 8);
    assert_eq!(commands[0], PreparationCommand::DeleteImportDirectory(dir.clone()));
    assert_eq!(commands[1], PreparationCommand::CreateImportDirectory(dir.clone()));
    assert_eq!(
        commands[2],
        PreparationCommand::CopyEml { from: "/src/a.eml".to_string(), to: format!("{dir}/0.eml") }
    );
    assert_eq!(commands[3], PreparationCommand::ReadMbox("/src/c.mbox".to_string()));
    match &commands[4] {
        PreparationCommand::WriteEml { to, contents } => {
            assert_eq!(to, &format!("{dir}/1.eml"));
            assert!(String::from_utf8(contents.clone()).unwrap().contains("first"));
        },
        other => panic!("unexpected command {other:?}"),
    }
    match &commands[5] {
        PreparationCommand::WriteEml { to, contents } => {
            assert_eq!(to, &format!("{dir}/2.eml"));
            assert!(String::from_utf8(contents.clone()).unwrap().contains("second"));
        },
        other => panic!("unexpected command {other:?}"),
    }
    assert_eq!(
        commands[6],
        PreparationCommand::CopyEml { from: "/src/d.eml".to_string(), to: format!("{dir}/3.eml") }
    );
    assert_eq!(commands[7], PreparationCommand::Return(Ok(dir)));
}

#[test]
fn preparation_without_sources_returns_the_directory() {
    let commands = run(&[]);
    assert_eq!(commands.len(), 3);
    assert_eq!(commands[2], PreparationCommand::Return(Ok("/tmp/config/current_imports/box".to_string())));
}

#[test]
fn preparation_failures_end_it() {
    let (mut preparation, _) = FilePreparation::new("/tmp/config", "box", vec!["/src/a.eml".to_string()]);
    assert!(!preparation.accepts(&PreparationEvent::EmlCopied(true)));
    assert_eq!(
        preparation.step(PreparationEvent::ImportDirectoryDeleted(false)),
        PreparationCommand::Return(Err(PreparationError::CanNotDeleteImportDir))
    );

    let (mut preparation, _) = FilePreparation::new("/tmp/config", "box", vec!["/src/a.eml".to_string()]);
    preparation.step(PreparationEvent::ImportDirectoryDeleted(true));
    assert_eq!(
        preparation.step(PreparationEvent::ImportDirectoryCreated(false)),
        PreparationCommand::Return(Err(PreparationError::CanNotCreateImportDir))
    );

    let (mut preparation, _) = FilePreparation::new("/tmp/config", "box", vec!["/src/a.eml".to_string()]);
    preparation.step(PreparationEvent::ImportDirectoryDeleted(true));
    preparation.step(PreparationEvent::ImportDirectoryCreated(true));
    assert_eq!(preparation.next_eml_index(), 1);
    assert_eq!(
        preparation.step(PreparationEvent::EmlCopied(false)),
        PreparationCommand::Return(Err(PreparationError::EmlFileWriteFailure))
    );

    let (mut preparation, _) = FilePreparation::new("/tmp/config", "box", vec!["/src/m.mbox".to_string()]);
    preparation.step(PreparationEvent::ImportDirectoryDeleted(true));
    preparation.step(PreparationEvent::ImportDirectoryCreated(true));
    assert_eq!(
        preparation.step(PreparationEvent::MboxRead(MboxReading::CouldNotOpen)),
        PreparationCommand::Return(Err(PreparationError::FileReadError))
    );
}

#[test]
fn emls_that_do_not_parse_are_parse_errors() {
    let eml = "From: vr@tuta.io\nSubject: Virtual Reality Food\n\nDid you already try it?\n";
    assert_eq!(importable_eml("0.eml".to_string(), eml.as_bytes()), Ok("0.eml".to_string()));
    assert_eq!(
        importable_eml("1.eml".to_string(), b""),
        Err(FileIterationError::ParseError("1.eml".to_string()))
    );
}

#[test]
fn interrupted_mbox_writes_its_complete_messages_then_fails() {
    let (mut preparation, _) = FilePreparation::new("/tmp/config", "box", vec!["/src/m.mbox".to_string()]);
    preparation.step(PreparationEvent::ImportDirectoryDeleted(true));
    preparation.step(PreparationEvent::ImportDirectoryCreated(true));
    let partial = MBOX[..MBOX.len() - 3].as_bytes().to_vec();
    match preparation.step(PreparationEvent::MboxRead(MboxReading::Interrupted(partial))) {
        PreparationCommand::WriteEml { to, contents } => {
            assert_eq!(to, "/tmp/config/current_imports/box/0.eml");
            assert!(String::from_utf8(contents).unwrap().contains("first"));
        },
        other => panic!("unexpected command {other:?}"),
    }
    assert_eq!(
        preparation.step(PreparationEvent::EmlWritten(true)),
        PreparationCommand::Return(Err(PreparationError::NotAValidEmailFile))
    );
}

const EML_MSG: &str = r#"From: vr@tuta.io
MIME-Version: 1.0
Subject: Virtual Reality Food
Date: Fri, 25 Oct 2024 08:15:39 +0000
Content-Type: text/plain; charset=UTF-8

Did you already try the new street food in VR?
		"#;

const EML_REPLY: &str = r#"From: freepancakes@tutanota.com
MIME-Version: 1.0
Subject: RE: Virtual Reality Food
Date: Fri, 25 Oct 2024 08:15:39 +0000
Content-Type: text/plain; charset=UTF-8

> Did you already try the new street food in VR?

Yeah, but I really did not like it. Had higher hopes after watching that Simpsons episode...
		"#;

/// Files kept in memory, by path.
type Files = std::collections::BTreeMap<String, Vec<u8>>;

struct Setup {
    files: Files,
    reply_path: String,
    msg_path: String,
    mbox_path: String,
    config_directory: String,
}

impl Setup {
    fn new(test_id: u32) -> Setup {
        let src_folder = format!("/tmp/import_src_{:?}", test_id);
        let config_directory = format!("/tmp/import_target_{:?}", test_id);
        let mut files = Files::new();
        let msg_path = format!("{src_folder}/msg.eml");
        files.insert(msg_path.clone(), EML_MSG.as_bytes().to_vec());
        let reply_path = format!("{src_folder}/reply.eml");
        files.insert(reply_path.clone(), EML_REPLY.as_bytes().to_vec());
        let mbox_path = format!("{src_folder}/mbox.mbox");
        let mbox_contents = "From vr@tuta.io  Fri Feb  2 20:57:39 2024\n".to_string()
            + EML_MSG
            + "\n\nFrom freepancakes@tutanota.com  Fri Feb  2 21:03:27 2024\n"
            + EML_REPLY;
        files.insert(mbox_path.clone(), mbox_contents.into_bytes());
        Setup { files, reply_path, msg_path, mbox_path, config_directory }
    }
}

/// Runs a preparation against the files in memory.
fn prepare_file_import(
    files: &mut Files,
    config_directory: &str,
    mailbox_id: &str,
    source_paths: Vec<String>,
) -> Result<String, PreparationError> {
    let (mut preparation, mut command) = FilePreparation::new(config_directory, mailbox_id, source_paths);
    loop {
        let event = match command {
            PreparationCommand::Return(result) => return result,
            PreparationCommand::DeleteImportDirectory(directory) => {
                let prefix = format!("{directory}/");
                files.retain(|path, _| !path.starts_with(&prefix));
                PreparationEvent::ImportDirectoryDeleted(true)
            },
            PreparationCommand::CreateImportDirectory(_) => PreparationEvent::ImportDirectoryCreated(true),
            PreparationCommand::ReadMbox(path) => PreparationEvent::MboxRead(match files.get(&path) {
                Some(contents) => MboxReading::Complete(contents.clone()),
                None => MboxReading::CouldNotOpen,
            }),
            PreparationCommand::CopyEml { from, to } => PreparationEvent::EmlCopied(match files.get(&from).cloned() {
                Some(contents) => {
                    files.insert(to, contents);
                    true
                },
                None => false,
            }),
            PreparationCommand::WriteEml { to, contents } => {
                files.insert(to, contents);
                PreparationEvent::EmlWritten(true)
            },
        };
        assert!(preparation.accepts(&event));
        command = preparation.step(event);
    }
}

/// The eml files directly in the directory, in the order of their paths.
fn eml_files_in_directory(files: &Files, directory: &str) -> Vec<String> {
    let prefix = format!("{directory}/");
    files
        .keys()
        .filter(|path| path.starts_with(&prefix) && !path[prefix.len()..].contains('/'))
        .filter(|path| is_eml_file(path))
        .cloned()
        .collect()
}

fn verify_file_contents(files: &Files, expected_path: &str, actual_path: &str, expected_contents: &str) {
    assert_eq!(expected_path, actual_path);
    let msg = String::from_utf8(files.get(actual_path).unwrap().clone()).unwrap();
    assert_eq!(expected_contents.trim(), msg.trim());
}

#[test]
pub fn prepare_import_eml() {
    let mut s = Setup::new(1);
    let import_directory = prepare_file_import(
        &mut s.files,
        &s.config_directory,
        "someId",
        vec![s.msg_path.clone(), s.reply_path.clone()],
    )
    .unwrap();
    let eml_files = eml_files_in_directory(&s.files, &import_directory);
    if let [msg_path, reply_path] = eml_files.as_slice() {
        verify_file_contents(&s.files, msg_path, &format!("{import_directory}/0.eml"), EML_MSG);
        verify_file_contents(&s.files, reply_path, &format!("{import_directory}/1.eml"), EML_REPLY);
    } else {
        panic!("unexpected eml files {:?}", eml_files);
    }
}

#[test]
pub fn prepare_import_mbox() {
    let mut s = Setup::new(2);
    let import_directory = prepare_file_import(
        &mut s.files,
        &s.config_directory,
        "anotherId",
        vec![s.msg_path.clone(), s.reply_path.clone()],
    )
    .unwrap();
    let eml_files = eml_files_in_directory(&s.files, &import_directory);
    if let [msg_path, reply_path] = eml_files.as_slice() {
        verify_file_contents(&s.files, msg_path, &format!("{import_directory}/0.eml"), EML_MSG);
        verify_file_contents(&s.files, reply_path, &format!("{import_directory}/1.eml"), EML_REPLY);
    } else {
        panic!("unexpected eml files {:?}", eml_files);
    }
}

#[test]
pub fn prepare_import_eml_and_mbox() {
    let mut s = Setup::new(3);
    let import_directory = prepare_file_import(
        &mut s.files,
        &s.config_directory,
        "thirdId",
        vec![s.reply_path.clone(), s.mbox_path.clone(), s.msg_path.clone()],
    )
    .unwrap();
    let mut eml_files = eml_files_in_directory(&s.files, &import_directory);
    eml_files.sort();
    if let [reply_path, mbox_msg_path, mbox_reply_path, msg_path] = eml_files.as_slice() {
        verify_file_contents(&s.files, &format!("{import_directory}/0.eml"), reply_path, EML_REPLY);
        verify_file_contents(&s.files, &format!("{import_directory}/1.eml"), mbox_msg_path, EML_MSG);
        verify_file_contents(&s.files, &format!("{import_directory}/2.eml"), mbox_reply_path, EML_REPLY);
        verify_file_contents(&s.files, &format!("{import_directory}/3.eml"), msg_path, EML_MSG);
    } else {
        panic!("unexpected eml files {:?}", eml_files);
    }
}
