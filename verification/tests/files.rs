use monkesto::authority::{Actor, Authority};
use monkesto::ids::{FileId, JournalId};
use monkesto::journal::error::JournalError;
use monkesto::journal::file::{
    FileUpload, UploadFile, check_upload_size, file_key, file_key_parts, has_file_key_id, hash_bytes, uploaded_file_of_key,
    hash_from_etag, local_file_hash, local_upload_url,
};
use monkesto::journal::event::JournalDomainEvent;
use monkesto::status::Status;
use monkesto::store::Timestamp;

#[test]
fn uploads_up_to_50_mib_are_accepted() {
    assert!(check_upload_size(52428800).is_ok());
    assert!(check_upload_size(0).is_ok());
    assert!(matches!(check_upload_size(52428801), Err(JournalError::S3(m)) if m == "File too large! 50 MB max"));
}

#[test]
fn a_file_key_holds_the_journal_file_and_name() {
    let journal_id = JournalId::from_str("abcdefghij").expect("valid");
    let file_id = FileId::from_str("klmnopqrstuvwxyz").expect("valid");
    let key = file_key(journal_id, file_id, "a-b.pdf");
    assert_eq!(key, "abcdefghij/klmnopqrstuvwxyz-a-b.pdf");
    let (id, name) = file_key_parts(&key);
    assert_eq!(id, "klmnopqrstuvwxyz");
    assert_eq!(name, Some("a-b.pdf".to_string()));
    assert_eq!(
        local_upload_url(journal_id, &key),
        "/journal/abcdefghij/file/localupload?file_key=abcdefghij/klmnopqrstuvwxyz-a-b.pdf"
    );
}

#[test]
fn a_file_key_without_a_dash_has_no_name() {
    let (id, name) = file_key_parts("journal/file");
    assert_eq!(id, "file");
    assert_eq!(name, None);
}

#[test]
fn a_hash_has_16_bytes() {
    let h = hash_bytes(&(0u8..16).collect()).expect("16 bytes");
    assert_eq!(h[15], 15);
    assert!(matches!(hash_bytes(&vec![1, 2, 3]), Err(JournalError::S3(m)) if m == "incorrect file hash length, expected 16 bytes"));
}

#[test]
fn a_local_file_is_hashed_with_md5() {
    let h = local_file_hash(&b"hello world".to_vec());
    assert_eq!(h, vec![0x5e, 0xb6, 0x3b, 0xbb, 0xe0, 0x1e, 0xee, 0xd0, 0x93, 0xcb, 0x22, 0xbb, 0x8f, 0x5a, 0xcd, 0xc3]);
}

#[test]
fn an_entity_tag_is_read_as_hexadecimal() {
    let h = hash_from_etag(Some("\"5eb63bbbe01eeed093cb22bb8f5acdc3\"".to_string())).expect("hex");
    assert_eq!(h, local_file_hash(&b"hello world".to_vec()));
    assert_eq!(hash_from_etag(Some("00FF".to_string())).expect("hex"), vec![0, 255]);
    assert!(matches!(hash_from_etag(None), Err(JournalError::S3(m)) if m == "no MD5 checksum found"));
    assert!(matches!(
        hash_from_etag(Some("\"abc\"".to_string())),
        Err(JournalError::S3(m)) if m == "failed to decode file hash: Odd number of digits"
    ));
    assert!(matches!(
        hash_from_etag(Some("zz".to_string())),
        Err(JournalError::S3(m)) if m.starts_with("failed to decode file hash: Invalid character")
    ));
}

#[test]
fn an_upload_is_recorded_once() {
    let journal_id = JournalId::new();
    let file_id = FileId::new();
    let authority = Authority::Direct(Actor::System);
    let cmd = UploadFile::new(file_id, journal_id, [1u8; 16], "a.pdf".to_string(), authority, Timestamp(5));
    let (mut upload, mut journal) = cmd.state_query();
    assert!(matches!(cmd.process(&upload, &journal), Err(JournalError::InvalidJournal(j)) if j == journal_id));
    journal.status = Status::Valid;
    let events = cmd.process(&upload, &journal).expect("recorded");
    assert_eq!(events.len(), 1);
    assert!(matches!(&events[0], JournalDomainEvent::FileUploaded { file_name, .. } if file_name == "a.pdf"));
    upload.status = Status::Valid;
    assert!(matches!(cmd.process(&upload, &journal), Err(JournalError::FileIdCollision(f)) if f == file_id));
    let mut fresh = FileUpload::new(file_id);
    for e in events {
        fresh.mutate(e);
    }
    assert_eq!(fresh.file_name, "a.pdf");
    assert_eq!(fresh.hash, [1u8; 16]);
    assert_eq!(fresh.status, Status::Valid);
    assert!(matches!(cmd.process(&fresh, &journal), Err(JournalError::FileIdCollision(f)) if f == file_id));
}

#[test]
fn file_keys_with_a_slash_before_the_dash_can_be_split() {
    assert!(has_file_key_id("journal/file-name.pdf"));
    assert!(has_file_key_id("a/b"));
    assert!(!has_file_key_id("journal-file/name.pdf"));
    assert!(!has_file_key_id("plain"));
    assert!(!has_file_key_id(""));
    assert_eq!(file_key_parts("journal/file-name.pdf"), ("file".to_string(), Some("name.pdf".to_string())));
}

#[test]
fn an_upload_key_names_its_file_and_name() {
    let file_id = FileId::new();
    let key = format!("{}/{}-report.pdf", JournalId::new().0.as_str(), file_id.0.as_str());
    let (id, name) = uploaded_file_of_key(&key).expect("a valid key");
    assert_eq!(id, file_id);
    assert_eq!(name, "report.pdf");
    assert!(uploaded_file_of_key("journal/bad-name.pdf").is_err());
}
