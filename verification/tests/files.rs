use node_mimimi::aggregate_id::{aggregate_id_from_bytes, make_random_aggregate_id};
use node_mimimi::credentials::{CredentialType, Credentials, TutaCredentials};
use node_mimimi::decimal::to_decimal;
use node_mimimi::errors::{FileIterationError, ImapIterationError, IterationError, PreparationError};
use node_mimimi::file_import::{mbox_to_emls, next_importable, reached_end_of_source, FileImport};
use node_mimimi::paths::{
    classify_source, is_eml_file, join_path, EmlFileNamer, SourceFileKind,
};
use std::convert::TryFrom;

const EML_MSG: &str = r#"From: vr@tuta.io
MIME-Version: 1.0
Subject: Virtual Reality Food
Date: Fri, 25 Oct 2024 08:15:39 +0000
Content-Type: text/plain; charset=UTF-8

Did you already try the new street food in VR?
		"#;

const EML_REPLY: &str = r#"From: freepancakes@tutanota.com
MIME-Version: 1.0
Subject: RE: Virtual Reality Food
Date: Fri, 25 Oct 2024 08:15:39 +0000
Content-Type: text/plain; charset=UTF-8

> Did you already try the new street food in VR?

Yeah, but I really did not like it. Had higher hopes after watching that Simpsons episode...
		"#;

#[test]
fn decimal_notation() {
    assert_eq!(to_decimal(0), "0");
    assert_eq!(to_decimal(9), "9");
    assert_eq!(to_decimal(10), "10");
    assert_eq!(to_decimal(12345), "12345");
    assert_eq!(to_decimal(u64::MAX), u64::MAX.to_string());
}

#[test]
fn eml_files_are_numbered_from_zero() {
    let mut namer = EmlFileNamer::new();
    assert_eq!(namer.next_file_name(), "0.eml");
    assert_eq!(namer.next_file_name(), "1.eml");
    assert_eq!(namer.next_file_name(), "2.eml");
    assert_eq!(namer.next_index, 3);
}

#[test]
fn paths_are_joined_like_path_buffers() {
    assert_eq!(join_path("/tmp/a", "b"), "/tmp/a/b");
    assert_eq!(join_path("/tmp/a/", "b"), "/tmp/a/b");
    assert_eq!(join_path("", "b"), "b");
    assert_eq!(join_path("/tmp/a", "/etc"), "/etc");
    assert_eq!(
        FileImport::make_import_directory("/tmp/existing_import_should_be_none_if_no_state_file", "some_mailbox_id"),
        "/tmp/existing_import_should_be_none_if_no_state_file/current_imports/some_mailbox_id"
    );
    let expected: std::path::PathBuf =
        ["/tmp/config".to_string(), "current_imports".to_string(), "box".to_string()].iter().collect();
    assert_eq!(FileImport::make_import_directory("/tmp/config", "box"), expected.to_str().unwrap());
}

#[test]
fn source_files_are_classified_by_extension() {
    assert_eq!(classify_source("/tmp/src/mbox.mbox"), SourceFileKind::Mbox);
    assert_eq!(classify_source("/tmp/src/msg.eml"), SourceFileKind::Eml);
    assert_eq!(classify_source("/tmp/src/notes.txt"), SourceFileKind::Other);
    assert_eq!(classify_source("/tmp/src/.eml"), SourceFileKind::Other);
    assert_eq!(classify_source("/tmp/src/noext"), SourceFileKind::Other);
    assert!(is_eml_file("a/0.eml"));
    assert!(!is_eml_file("a/import_mail_state"));
}

#[test]
fn eml_sources_are_handed_out_from_the_last() {
    let mut import = FileImport::new(vec!["0.eml".to_string(), "1.eml".to_string()]);
    assert_eq!(import.remaining(), 2);
    assert_eq!(import.next_eml_source(), Ok("1.eml".to_string()));
    assert_eq!(import.next_eml_source(), Ok("0.eml".to_string()));
    assert_eq!(import.next_eml_source(), Err(FileIterationError::SourceEnd));
    assert_eq!(import.remaining(), 0);
}

#[test]
fn end_of_source_ends_iteration() {
    assert!(reached_end_of_source(&IterationError::File(FileIterationError::SourceEnd)));
    assert!(reached_end_of_source(&IterationError::Imap(ImapIterationError::SourceEnd)));
    assert!(!reached_end_of_source(&IterationError::Imap(ImapIterationError::NoLogin)));
    assert!(!reached_end_of_source(&IterationError::File(FileIterationError::ParseError("0.eml".to_string()))));
    assert_eq!(next_importable::<u32>(Ok(7)), Some(7));
    assert_eq!(next_importable::<u32>(Err(IterationError::File(FileIterationError::SourceEnd))), None);
}

#[test]
fn mbox_is_split_into_emls() {
    let mbox = "From vr@tuta.io  Fri Feb  2 20:57:39 2024\n".to_string()
        + EML_MSG
        + "\n\nFrom freepancakes@tutanota.com  Fri Feb  2 21:03:27 2024\n"
        + EML_REPLY;
    let emls = mbox_to_emls(mbox.as_bytes()).unwrap();
    assert_eq!(emls.len(), 2);
    assert_eq!(String::from_utf8(emls[0].clone()).unwrap().trim(), EML_MSG.trim());
    assert_eq!(String::from_utf8(emls[1].clone()).unwrap().trim(), EML_REPLY.trim());
    assert_eq!(mbox_to_emls(b"").unwrap().len(), 0);
}

#[test]
fn aggregate_ids_are_six_url_safe_characters() {
    for _ in 0..20 {
        let id = make_random_aggregate_id().expect("the system provides random bytes");
        assert_eq!(id.chars().count(), 6);
        assert!(id.chars().all(|c| c.is_ascii_alphanumeric() || c == '-' || c == '_'));
    }
}

#[test]
fn aggregate_ids_encode_their_bytes() {
    assert_eq!(aggregate_id_from_bytes(&[0, 0, 0, 0]), "AAAAAA");
    assert_eq!(aggregate_id_from_bytes(&[0xfb, 0xff, 0xbf, 0xff]), "-_-__w");
    assert_eq!(aggregate_id_from_bytes(&[1, 2, 3, 4]), "AQIDBA");
}

#[test]
fn credentials_keep_their_fields() {
    let tuta = TutaCredentials {
        api_url: "http://localhost:9000".to_string(),
        client_version: "1".to_string(),
        login: "map@example.org".to_string(),
        user_id: "user".to_string(),
        access_token: "token".to_string(),
        encrypted_passphrase_key: vec![1, 2, 3],
        is_internal_credential: true,
    };
    let credentials = Credentials::try_from(tuta.clone()).unwrap();
    assert_eq!(credentials.login, "map@example.org");
    assert_eq!(credentials.user_id, "user");
    assert_eq!(credentials.access_token, "token");
    assert_eq!(credentials.encrypted_passphrase_key, vec![1, 2, 3]);
    assert_eq!(credentials.credential_type, CredentialType::Internal);
    let external = TutaCredentials { is_internal_credential: false, ..tuta };
    assert_eq!(Credentials::try_from(external.clone()).unwrap().credential_type, CredentialType::External);
    let no_login = TutaCredentials { login: String::new(), ..external.clone() };
    assert_eq!(Credentials::try_from(no_login).unwrap_err(), PreparationError::CredentialValidationError);
    let no_user = TutaCredentials { user_id: String::new(), ..external.clone() };
    assert_eq!(Credentials::try_from(no_user).unwrap_err(), PreparationError::CredentialValidationError);
    let no_token = TutaCredentials { access_token: String::new(), ..external };
    assert_eq!(Credentials::try_from(no_token).unwrap_err(), PreparationError::CredentialValidationError);
}
