use doodleswap::controllers::character::{
    check_character_count, check_content_length, get_character, looks_like_uuid, CharacterUpload,
    FieldHeader, FieldProgress, UploadAction, MAX_PAYLOAD_SIZE,
};
use doodleswap::dto::errors::auth::{email_taken, incorrect_credentials, username_taken};
use doodleswap::dto::errors::characters::{
    failed_creation, file_too_large, too_many_characters, unsupported_file,
};
use doodleswap::dto::requests::characters::CreateCharacterData;
use doodleswap::reply::{Reply, ReplyBody};

const PNG: [u8; 8] = [0x89, 0x50, 0x4E, 0x47, 0x0D, 0x0A, 0x1A, 0x0A];
const JPEG: [u8; 8] = [0xFF, 0xD8, 0xFF, 0xE0, 0x00, 0x10, 0x4A, 0x46];
const STEM: &str = "67e55044-10b1-426f-9247-bb680e5fe0c8";
const OTHER_STEM: &str = "0f0e0d0c-0b0a-4909-8807-060504030201";
const GIF: [u8; 8] = [0x47, 0x49, 0x46, 0x38, 0x39, 0x61, 0x01, 0x00];

fn header(name: Option<&str>, filename: Option<&str>) -> Option<FieldHeader> {
    Some(FieldHeader { name: name.map(|s| s.to_string()), filename: filename.map(|s| s.to_string()) })
}

fn text_of(reply: &Reply) -> &str {
    match &reply.body {
        ReplyBody::Text(t) => t,
        _ => panic!("expected a text body"),
    }
}

fn error_of(reply: &Reply) -> (u16, &str, &str) {
    match &reply.body {
        ReplyBody::Error(b) => (reply.status, &b.error, &b.message),
        _ => panic!("expected an error body"),
    }
}

fn metadata() -> CreateCharacterData {
    CreateCharacterData {
        first_name: "Ada".to_string(),
        last_name: Some("Lovelace".to_string()),
        pronouns: None,
        quote: Some("hello".to_string()),
    }
}

/// Starts a `file` field named by `stem` and gives back the path the upload chose.
fn start_file_named(upload: &mut CharacterUpload, filename: Option<&str>, stem: &str) -> String {
    match upload.start_field(header(Some("file"), filename), stem) {
        UploadAction::CreateFile { directory, path } => {
            assert_eq!(directory, "/srv/up/users/7");
            path
        }
        _ => panic!("expected a file to be created"),
    }
}

fn start_file(upload: &mut CharacterUpload, filename: Option<&str>) -> String {
    start_file_named(upload, filename, STEM)
}

fn mime_of(upload: &CharacterUpload) -> Option<&str> {
    match &upload.field {
        FieldProgress::File { mime, .. } => mime.as_deref(),
        _ => None,
    }
}

#[test]
fn error_replies_have_their_status_and_text() {
    assert_eq!(error_of(&incorrect_credentials()), (401, "Unauthorized", "Username or password incorrect."));
    assert_eq!(error_of(&username_taken()), (409, "Conflict", "Username taken."));
    assert_eq!(error_of(&email_taken()), (409, "Conflict", "Email taken"));
    assert_eq!(error_of(&failed_creation()), (400, "Bad Request", "Failed to create character"));
    assert_eq!(
        error_of(&too_many_characters()),
        (403, "Forbidden", "Not allowed to create more characters.")
    );
    assert_eq!(
        error_of(&unsupported_file()),
        (415, "Unsupported Media Type", "Only image/png and image/jpeg allowed.")
    );
    assert_eq!(error_of(&file_too_large()), (413, "Payload Too Large", "File size must be 5MiB or less."));
}

#[test]
fn get_character_is_not_served_yet() {
    let reply = get_character(3);
    assert_eq!(reply.status, 501);
    assert_eq!(text_of(&reply), "Needs to send image to client.");
}

#[test]
fn content_length_checks() {
    assert!(check_content_length(None).is_ok());
    assert!(check_content_length(Some(Ok("5242880".to_string()))).is_ok());
    assert!(check_content_length(Some(Ok("+12".to_string()))).is_ok());
    let too_big = check_content_length(Some(Ok("5242881".to_string()))).err().unwrap();
    assert_eq!(error_of(&too_big).0, 413);
    let garbage = check_content_length(Some(Ok("12kb".to_string()))).err().unwrap();
    assert_eq!(garbage.status, 400);
    assert_eq!(text_of(&garbage), "Could not parse content-length.");
    let huge = check_content_length(Some(Ok("99999999999999999999999".to_string()))).err().unwrap();
    assert_eq!(text_of(&huge), "Could not parse content-length.");
    let unreadable = check_content_length(Some(Err("failed to convert header to a str".to_string())))
        .err()
        .unwrap();
    assert_eq!(unreadable.status, 400);
    assert_eq!(text_of(&unreadable), "failed to convert header to a str");
}

#[test]
fn character_count_checks() {
    assert_eq!(check_character_count(Ok(None)).ok(), Some(0));
    assert_eq!(check_character_count(Ok(Some(4))).ok(), Some(4));
    assert_eq!(error_of(&check_character_count(Ok(Some(5))).err().unwrap()).0, 403);
    // the count is cut down to a byte
    assert_eq!(check_character_count(Ok(Some(256))).ok(), Some(0));
    assert_eq!(error_of(&check_character_count(Ok(Some(261))).err().unwrap()).0, 403);
    let failed = check_character_count(Err("timeout".to_string())).err().unwrap();
    assert_eq!(failed.status, 500);
    assert_eq!(text_of(&failed), "Could not get character count.");
}

#[test]
fn field_without_disposition_answers_500() {
    let mut upload = CharacterUpload::new(7, 0, "/srv/up".to_string());
    match upload.start_field(None, STEM) {
        UploadAction::Respond(reply) => {
            assert_eq!(reply.status, 500);
            assert_eq!(text_of(&reply), "Could not get content_disposition.");
        }
        _ => panic!("expected a 500"),
    }
}

#[test]
fn unknown_fields_are_skipped() {
    let mut upload = CharacterUpload::new(7, 0, "/srv/up".to_string());
    assert!(matches!(upload.start_field(header(Some("other"), None), STEM), UploadAction::SkipField));
    assert!(matches!(upload.start_field(header(None, None), STEM), UploadAction::SkipField));
    assert!(matches!(upload.field, FieldProgress::Between));
}

#[test]
fn file_names_choose_the_extension() {
    let mut upload = CharacterUpload::new(7, 0, "/srv/up".to_string());
    let path = start_file(&mut upload, Some("portrait.final.png"));
    assert_eq!(path, format!("/srv/up/users/7/{}.png", STEM));
    let path = start_file(&mut upload, None);
    assert_eq!(path, format!("/srv/up/users/7/{}.jpg", STEM));
    let other = start_file_named(&mut upload, Some("a.jpg"), OTHER_STEM);
    assert_eq!(other, format!("/srv/up/users/7/{}.jpg", OTHER_STEM));
}

#[test]
fn uuid_shape() {
    assert!(looks_like_uuid(STEM));
    assert!(looks_like_uuid(&uuid::Uuid::new_v4().to_string()));
    assert!(!looks_like_uuid("67E55044-10B1-426F-9247-BB680E5FE0C8"));
    assert!(!looks_like_uuid("../../etc/passwd"));
    assert!(!looks_like_uuid(""));
}

#[test]
fn other_extensions_answer_415() {
    let mut upload = CharacterUpload::new(7, 0, "/srv/up".to_string());
    match upload.start_field(header(Some("file"), Some("cat.gif")), STEM) {
        UploadAction::Respond(reply) => assert_eq!(error_of(&reply).0, 415),
        _ => panic!("expected a 415"),
    }
}

#[test]
fn png_content_is_written_after_sniffing() {
    let mut upload = CharacterUpload::new(7, 0, "/srv/up".to_string());
    let path = start_file(&mut upload, Some("me.png"));
    assert!(matches!(upload.receive_chunk(PNG[..4].to_vec()), UploadAction::ReadMore));
    match upload.receive_chunk(PNG[4..].to_vec()) {
        UploadAction::Write(bytes) => assert_eq!(bytes, PNG.to_vec()),
        _ => panic!("expected the held bytes to be written"),
    }
    assert_eq!(mime_of(&upload), Some("image/png"));
    assert_eq!(upload.mime_type, None);
    match upload.receive_chunk(vec![1, 2, 3]) {
        UploadAction::Write(bytes) => assert_eq!(bytes, vec![1, 2, 3]),
        _ => panic!("expected the chunk to be written"),
    }
    assert_eq!(upload.bytes_read, 11);
    assert!(matches!(upload.end_field(), UploadAction::NextField));
    assert_eq!(upload.path.as_deref(), Some(path.as_str()));
    assert_eq!(upload.mime_type.as_deref(), Some("image/png"));
}

#[test]
fn jpeg_content_is_accepted() {
    let mut upload = CharacterUpload::new(7, 0, "/srv/up".to_string());
    let _ = start_file(&mut upload, Some("me.jpg"));
    assert!(matches!(upload.receive_chunk(JPEG.to_vec()), UploadAction::Write(_)));
    assert_eq!(mime_of(&upload), Some("image/jpeg"));
}

#[test]
fn other_content_is_removed_with_415() {
    let mut upload = CharacterUpload::new(7, 0, "/srv/up".to_string());
    let path = start_file(&mut upload, Some("me.png"));
    match upload.receive_chunk(GIF.to_vec()) {
        UploadAction::RemoveAndRespond { path: removed, reply } => {
            assert_eq!(removed, path);
            assert_eq!(error_of(&reply).0, 415);
        }
        _ => panic!("expected the file to be removed"),
    }
}

#[test]
fn file_never_recognised_is_removed_at_its_end() {
    let mut upload = CharacterUpload::new(7, 0, "/srv/up".to_string());
    let path = start_file(&mut upload, Some("me.png"));
    assert!(matches!(upload.receive_chunk(vec![0x89, 0x50]), UploadAction::ReadMore));
    match upload.end_field() {
        UploadAction::RemoveAndRespond { path: removed, reply } => {
            assert_eq!(removed, path);
            assert_eq!(error_of(&reply).0, 415);
        }
        _ => panic!("expected the file to be removed"),
    }
}

#[test]
fn more_than_five_mib_answers_413() {
    let mut upload = CharacterUpload::new(7, 0, "/srv/up".to_string());
    assert!(matches!(upload.start_field(header(Some("metadata"), None), STEM), UploadAction::ReadField));
    assert!(matches!(upload.receive_chunk(vec![b' '; MAX_PAYLOAD_SIZE]), UploadAction::ReadMore));
    match upload.receive_chunk(vec![b' ']) {
        UploadAction::Respond(reply) => assert_eq!(error_of(&reply).0, 413),
        _ => panic!("expected a 413"),
    }
    assert_eq!(upload.bytes_read, MAX_PAYLOAD_SIZE);
}

#[test]
fn metadata_text_is_handed_on() {
    let mut upload = CharacterUpload::new(7, 0, "/srv/up".to_string());
    let _ = upload.start_field(header(Some("metadata"), None), STEM);
    let _ = upload.receive_chunk(b"{\"firstName\":".to_vec());
    let _ = upload.receive_chunk(b"\"Ada\"}".to_vec());
    match upload.end_field() {
        UploadAction::ParseMetadata(text) => assert_eq!(text, "{\"firstName\":\"Ada\"}"),
        _ => panic!("expected the text to be parsed"),
    }
    assert!(matches!(upload.metadata_parsed(Ok(metadata())), UploadAction::NextField));
    assert!(upload.metadata.is_some());
}

#[test]
fn metadata_that_is_not_utf8_answers_400() {
    let mut upload = CharacterUpload::new(7, 0, "/srv/up".to_string());
    let _ = upload.start_field(header(Some("metadata"), None), STEM);
    let _ = upload.receive_chunk(vec![0xff, 0xfe]);
    match upload.end_field() {
        UploadAction::Respond(reply) => {
            assert_eq!(reply.status, 400);
            let expected = String::from_utf8(vec![0xff, 0xfe]).unwrap_err().to_string();
            assert_eq!(text_of(&reply), expected);
        }
        _ => panic!("expected a 400"),
    }
}

#[test]
fn metadata_that_does_not_parse_answers_400() {
    let mut upload = CharacterUpload::new(7, 0, "/srv/up".to_string());
    match upload.metadata_parsed(Err("missing field `firstName`".to_string())) {
        UploadAction::Respond(reply) => {
            assert_eq!(reply.status, 400);
            assert_eq!(text_of(&reply), "missing field `firstName`");
        }
        _ => panic!("expected a 400"),
    }
}

#[test]
fn complete_upload_is_stored() {
    let mut upload = CharacterUpload::new(7, 0, "/srv/up".to_string());
    let _ = upload.metadata_parsed(Ok(metadata()));
    let path = start_file(&mut upload, Some("me.png"));
    let _ = upload.receive_chunk(PNG.to_vec());
    let _ = upload.end_field();
    let record = match upload.finish() {
        UploadAction::Insert(record) => record,
        _ => panic!("expected the character to be stored"),
    };
    assert_eq!(record.user_id, 7);
    assert_eq!(record.first_name, "Ada");
    assert_eq!(record.last_name.as_deref(), Some("Lovelace"));
    assert_eq!(record.pronouns, None);
    assert_eq!(record.quote.as_deref(), Some("hello"));
    assert_eq!(record.image_path, path);
    assert_eq!(record.image_mime_type, "image/png");
    let reply = upload.inserted(Ok(31));
    assert_eq!(reply.status, 201);
    match reply.body {
        ReplyBody::CreatedCharacter(c) => {
            assert_eq!(c.id, 31);
            assert_eq!(c.image_url, "/characters/31");
            assert_eq!(c.characters_left, 4);
        }
        _ => panic!("expected the created character"),
    }
    let failed = upload.inserted(Err("insert failed".to_string()));
    assert_eq!(failed.status, 500);
    assert_eq!(text_of(&failed), "insert failed");
}

#[test]
fn image_without_metadata_is_removed() {
    let mut upload = CharacterUpload::new(7, 0, "/srv/up".to_string());
    let path = start_file(&mut upload, Some("me.png"));
    let _ = upload.receive_chunk(PNG.to_vec());
    let _ = upload.end_field();
    match upload.finish() {
        UploadAction::RemoveAndRespond { path: removed, reply } => {
            assert_eq!(removed, path);
            assert_eq!(error_of(&reply), (400, "Bad Request", "Failed to create character"));
        }
        _ => panic!("expected the image to be removed"),
    }
}

#[test]
fn metadata_without_image_fails() {
    let mut upload = CharacterUpload::new(7, 0, "/srv/up".to_string());
    let _ = upload.metadata_parsed(Ok(metadata()));
    match upload.finish() {
        UploadAction::Respond(reply) => assert_eq!(error_of(&reply).0, 400),
        _ => panic!("expected a 400"),
    }
    let last = CharacterUpload::new(1, 4, "/srv/up".to_string());
    match last.inserted(Ok(2)).body {
        ReplyBody::CreatedCharacter(c) => assert_eq!(c.characters_left, 0),
        _ => panic!("expected the created character"),
    }
}
