//! Character routes: reading a character and uploading a new one.
use vstd::prelude::*;

use crate::dto::errors::characters as err;
use crate::dto::requests::characters::CreateCharacterData;
use crate::dto::responses::characters::CreatedCharacter;
use crate::reply::{
    is_error_reply, is_text_reply, Reply, ReplyBody, STATUS_BAD_REQUEST, STATUS_CREATED,
    STATUS_INTERNAL_SERVER_ERROR, STATUS_NOT_IMPLEMENTED,
};
use crate::text::{
    after_last_dot, append_i32_decimal, extension_of, int_decimal, law_extension_after_last_dot, owned,
    parse_usize, same_text, usize_of_text, utf8_error_text, utf8_text,
};

verus! {

/// Most characters a user may have.
pub const MAX_CHARACTERS: u8 = 5;

/// Most bytes a character upload may carry: 5 MiB.
pub const MAX_PAYLOAD_SIZE: usize = 5 * 1024 * 1024;

/// `GET /characters/{character_id}`: not served yet, the image cannot be sent.
pub fn get_character(character_id: i32) -> (r: Reply)
    ensures
        is_text_reply(r, 501, "Needs to send image to client."@),
{
    Reply::text(STATUS_NOT_IMPLEMENTED, owned("Needs to send image to client."))
}

/// `r` is 413 "File size must be 5MiB or less.".
pub open spec fn is_too_large_reply(r: Reply) -> bool {
    is_error_reply(r, 413, "Payload Too Large"@, "File size must be 5MiB or less."@)
}

/// `r` is 415 "Only image/png and image/jpeg allowed.".
pub open spec fn is_unsupported_reply(r: Reply) -> bool {
    is_error_reply(r, 415, "Unsupported Media Type"@, "Only image/png and image/jpeg allowed."@)
}

/// `r` is 400 "Failed to create character".
pub open spec fn is_failed_creation_reply(r: Reply) -> bool {
    is_error_reply(r, 400, "Bad Request"@, "Failed to create character"@)
}

/// The first check of `POST /characters/`, on its `content-length` header:
/// absent, it passes; unreadable as text, 400 with the reason; not a number,
/// 400; above 5 MiB, 413.
pub fn check_content_length(header: Option<Result<String, String>>) -> (r: Result<(), Reply>)
    ensures
        header is None ==> r is Ok,
        header matches Some(Err(m)) ==> (r matches Err(reply) && is_text_reply(reply, 400, m@)),
        header matches Some(Ok(t)) ==> match usize_of_text(t@) {
            None => r matches Err(reply) && is_text_reply(reply, 400, "Could not parse content-length."@),
            Some(n) => if n > MAX_PAYLOAD_SIZE {
                r matches Err(reply) && is_too_large_reply(reply)
            } else {
                r is Ok
            },
        },
{
    match header {
        None => Ok(()),
        Some(Err(m)) => Err(Reply::text(STATUS_BAD_REQUEST, m)),
        Some(Ok(t)) => match parse_usize(t.as_str()) {
            None => Err(Reply::text(STATUS_BAD_REQUEST, owned("Could not parse content-length."))),
            Some(n) => if n > MAX_PAYLOAD_SIZE {
                Err(err::file_too_large())
            } else {
                Ok(())
            },
        },
    }
}

/// The number of characters a user has, as the upload counts it: the query's
/// count, 0 when it gave none, cut down to a byte.
pub open spec fn counted_characters(count: Option<i64>) -> u8 {
    match count {
        Some(c) => c as u8,
        None => 0,
    }
}

/// The second check of `POST /characters/`, on the user's character count:
/// 500 when the count could not be read; 403 when the user already has 5.
pub fn check_character_count(count: Result<Option<i64>, String>) -> (r: Result<u8, Reply>)
    ensures
        count is Err ==> (r matches Err(reply) && is_text_reply(reply, 500, "Could not get character count."@)),
        count matches Ok(c) ==> if counted_characters(c) >= MAX_CHARACTERS {
            r matches Err(reply) && is_error_reply(
                reply,
                403,
                "Forbidden"@,
                "Not allowed to create more characters."@,
            )
        } else {
            r == Ok::<u8, Reply>(counted_characters(c))
        },
{
    match count {
        Err(_) => Err(Reply::text(STATUS_INTERNAL_SERVER_ERROR, owned("Could not get character count."))),
        Ok(c) => {
            let n: u8 = match c {
                Some(v) => v as u8,
                None => 0,
            };
            if n >= MAX_CHARACTERS {
                Err(err::too_many_characters())
            } else {
                Ok(n)
            }
        },
    }
}

/// The MIME type that `infer::get` finds for these bytes, if any.
pub uninterp spec fn inferred_mime(bytes: Seq<u8>) -> Option<Seq<char>>;

/// `infer::get` on the bytes, and the MIME type of what it finds. The
/// contract ties the answer to `inferred_mime` and claims nothing more.
#[verifier::external_body]
fn infer_mime(bytes: &[u8]) -> (r: Option<String>)
    ensures
        r matches Some(m) ==> inferred_mime(bytes@) == Some(m@),
        r is None ==> inferred_mime(bytes@) is None,
{
    match infer::get(bytes) {
        Some(kind) => Some(kind.mime_type().to_string()),
        None => None,
    }
}

/// A character of the text of a UUID: a lower-case hex digit or a hyphen.
pub open spec fn is_uuid_char(c: char) -> bool {
    ('0' <= c && c <= '9') || ('a' <= c && c <= 'f') || c == '-'
}

/// The text of a UUID: 36 lower-case hex digits and hyphens.
pub open spec fn is_uuid_text(t: Seq<char>) -> bool {
    &&& t.len() == 36
    &&& forall|i: int| 0 <= i < t.len() ==> is_uuid_char(#[trigger] t[i])
}

/// Whether a text has the shape of a UUID's text.
pub fn looks_like_uuid(text: &str) -> (r: bool)
    ensures
        r == is_uuid_text(text@),
{
    let n = text.unicode_len();
    if n != 36 {
        return false;
    }
    let mut i: usize = 0;
    while i < n
        invariant
            n == text@.len(),
            i <= n,
            forall|k: int| 0 <= k < i ==> is_uuid_char(#[trigger] text@[k]),
        decreases n - i,
    {
        let c = text.get_char(i);
        if !(('0' <= c && c <= '9') || ('a' <= c && c <= 'f') || c == '-') {
            assert(!is_uuid_char(text@[i as int]));
            return false;
        }
        i = i + 1;
    }
    true
}

/// A MIME type that uploads may have.
pub open spec fn allowed_mime(m: Seq<char>) -> bool {
    m == "image/png"@ || m == "image/jpeg"@
}

/// A file extension that uploads may have.
pub open spec fn allowed_extension(e: Seq<char>) -> bool {
    e == "jpg"@ || e == "png"@
}

/// The directory that holds a user's uploads.
pub open spec fn user_directory(upload_path: Seq<char>, user_id: i32) -> Seq<char> {
    upload_path + "/users/"@ + int_decimal(user_id as int)
}

/// The path of the file for an image named by `stem` with extension `ext`.
pub open spec fn image_path(upload_path: Seq<char>, user_id: i32, stem: Seq<char>, ext: Seq<char>) -> Seq<char> {
    user_directory(upload_path, user_id) + "/"@ + stem + "."@ + ext
}

/// A path of an uploaded image: a file directly inside the user's directory
/// (its name holds no `/`), whose name ends in `.jpg` or `.png`.
pub open spec fn is_saved_path(p: Seq<char>, upload_path: Seq<char>, user_id: i32) -> bool {
    let dir = user_directory(upload_path, user_id) + "/"@;
    &&& dir.len() + 4 <= p.len()
    &&& p.take(dir.len() as int) == dir
    &&& !p.skip(dir.len() as int).contains('/')
    &&& p[p.len() - 4] == '.'
    &&& allowed_extension(p.skip(p.len() - 3))
}

/// The type of an image was recognised as `m`, PNG or JPEG, from `sniffed`:
/// at least 8 bytes at the start of the image's bytes `received`.
pub open spec fn recognised(sniffed: Seq<u8>, received: Seq<u8>, m: Seq<char>) -> bool {
    &&& sniffed.len() >= 8
    &&& sniffed.len() <= received.len()
    &&& sniffed == received.take(sniffed.len() as int)
    &&& inferred_mime(sniffed) == Some(m)
    &&& allowed_mime(m)
}

/// The content disposition of a multipart field: its name and file name.
pub struct FieldHeader {
    pub name: Option<String>,
    pub filename: Option<String>,
}

/// The field of the upload being read.
pub enum FieldProgress {
    /// No field is being read.
    Between,
    /// The `metadata` field, with the bytes read so far.
    Metadata { data: Vec<u8> },
    /// The `file` field, saved at `saved_path`, of type `mime` once it is
    /// recognised; until then the bytes read so far are held back in
    /// `first_bytes`. `received` are the bytes of the field read so far,
    /// `written` those handed out to be written to the file, and `sniffed`
    /// those the type was recognised from.
    File {
        saved_path: String,
        mime: Option<String>,
        first_bytes: Vec<u8>,
        received: Ghost<Seq<u8>>,
        written: Ghost<Seq<u8>>,
        sniffed: Ghost<Seq<u8>>,
    },
    /// The upload has been answered.
    Closed,
}

/// The row of a new character.
pub struct NewCharacter {
    pub user_id: i32,
    pub first_name: String,
    pub last_name: Option<String>,
    pub pronouns: Option<String>,
    pub quote: Option<String>,
    pub image_path: String,
    pub image_mime_type: String,
}

/// What the upload asks the handler to do next.
pub enum UploadAction {
    /// Read the chunks of the field just started.
    ReadField,
    /// Go on to the next field without reading this one.
    SkipField,
    /// Create this directory and this empty file, then read the field's chunks.
    CreateFile { directory: String, path: String },
    /// Append these bytes to the field's file, then read the next chunk.
    Write(Vec<u8>),
    /// Read the next chunk.
    ReadMore,
    /// Parse this JSON text as the character's metadata and report back.
    ParseMetadata(String),
    /// Go on to the next field.
    NextField,
    /// Store this character and report back.
    Insert(NewCharacter),
    /// Answer with this reply; the upload is over.
    Respond(Reply),
    /// Delete the file at `path`, then answer with the reply; the upload is over.
    RemoveAndRespond { path: String, reply: Reply },
}

/// The decisions of `POST /characters/` while its multipart fields arrive.
pub struct CharacterUpload {
    pub user_id: i32,
    /// How many characters the user had when the upload began.
    pub characters_before: u8,
    pub upload_path: String,
    /// Bytes read so far over all fields.
    pub bytes_read: usize,
    pub metadata: Option<CreateCharacterData>,
    /// Where the last accepted image was saved.
    pub path: Option<String>,
    /// The type of the last accepted image.
    pub mime_type: Option<String>,
    /// The bytes of the last accepted image, all of them written to its file.
    pub image_bytes: Ghost<Seq<u8>>,
    /// The bytes its type was recognised from.
    pub image_sniffed: Ghost<Seq<u8>>,
    pub field: FieldProgress,
}

/// The text of an optional name, or the empty text.
pub open spec fn name_or_empty(name: Option<String>) -> Seq<char> {
    match name {
        Some(n) => n@,
        None => Seq::empty(),
    }
}

/// The text of an optional file name, or `file.jpg`.
pub open spec fn filename_or_default(name: Option<String>) -> Seq<char> {
    match name {
        Some(n) => n@,
        None => "file.jpg"@,
    }
}

/// A file named by a UUID and an allowed extension, in the user's directory,
/// has a saved path.
proof fn lemma_saved_path(upload_path: Seq<char>, user_id: i32, stem: Seq<char>, ext: Seq<char>)
    requires
        is_uuid_text(stem),
        allowed_extension(ext),
    ensures
        is_saved_path(image_path(upload_path, user_id, stem, ext), upload_path, user_id),
{
    reveal_strlit("/");
    reveal_strlit(".");
    reveal_strlit("jpg");
    reveal_strlit("png");
    let dir = user_directory(upload_path, user_id) + "/"@;
    let name = stem + "."@ + ext;
    let p = image_path(upload_path, user_id, stem, ext);
    assert(p =~= dir + name);
    assert(ext.len() == 3);
    assert(p.take(dir.len() as int) =~= dir);
    assert(p.skip(dir.len() as int) =~= name);
    assert forall|k: int| 0 <= k < name.len() implies #[trigger] name[k] != '/' by {
        if k < 36 {
            assert(name[k] == stem[k]);
            assert(is_uuid_char(stem[k]));
        } else if k == 36 {
            assert(name[k] == '.');
        } else {
            assert(name[k] == ext[k - 37]);
        }
    }
    assert(p[p.len() - 4] == name[36]);
    assert(p.skip(p.len() - 3) =~= ext);
}

/// What starting a field does to the field being read and what it asks for:
/// no content disposition, 500; the `metadata` field, read it; the `file`
/// field with a `.jpg` or `.png` name (default `file.jpg`), create the file
/// named by `stem` with that extension in the user's directory and read into
/// it; with another extension, 415; any other field, skip it.
pub open spec fn field_start_fits(
    upload_path: Seq<char>,
    user_id: i32,
    header: Option<FieldHeader>,
    stem: Seq<char>,
    field: FieldProgress,
    action: UploadAction,
) -> bool {
    match header {
        None => {
            &&& field is Closed
            &&& action matches UploadAction::Respond(reply)
            &&& is_text_reply(reply, 500, "Could not get content_disposition."@)
        },
        Some(h) => if name_or_empty(h.name) == "metadata"@ {
            &&& field matches FieldProgress::Metadata { data }
            &&& data@.len() == 0
            &&& action is ReadField
        } else if name_or_empty(h.name) == "file"@ {
            let ext = after_last_dot(filename_or_default(h.filename));
            if allowed_extension(ext) {
                &&& field matches FieldProgress::File { saved_path, mime, first_bytes, received, written, sniffed }
                &&& mime is None
                &&& first_bytes@.len() == 0
                &&& received@.len() == 0
                &&& written@.len() == 0
                &&& action matches UploadAction::CreateFile { directory, path }
                &&& directory@ == user_directory(upload_path, user_id)
                &&& path@ == saved_path@
                &&& path@ == image_path(upload_path, user_id, stem, ext)
                &&& is_saved_path(path@, upload_path, user_id)
            } else {
                &&& field is Closed
                &&& action matches UploadAction::Respond(reply)
                &&& is_unsupported_reply(reply)
            }
        } else {
            &&& field is Between
            &&& action is SkipField
        },
    }
}

/// What a chunk of the field being read does. Every chunk counts towards the
/// 5 MiB limit, and one that goes past it answers 413 (a file already created
/// stays). A metadata chunk is kept. A file chunk is written once the file's
/// type is known; before that the first bytes are held back until there are
/// at least 8 and `infer` recognises them: as PNG or JPEG, they are written
/// and the type recorded; as anything else, the file is deleted and 415 given.
/// Outside a field, a chunk changes nothing.
pub open spec fn chunk_fits(before: CharacterUpload, chunk: Seq<u8>, after: CharacterUpload, action: UploadAction) -> bool {
    let total = before.bytes_read + chunk.len();
    match before.field {
        FieldProgress::Metadata { data } => if total > MAX_PAYLOAD_SIZE {
            &&& after.field is Closed
            &&& after.bytes_read == before.bytes_read
            &&& action matches UploadAction::Respond(reply)
            &&& is_too_large_reply(reply)
        } else {
            &&& after.bytes_read == total
            &&& after.field matches FieldProgress::Metadata { data: now }
            &&& now@ == data@ + chunk
            &&& action is ReadMore
        },
        FieldProgress::File { saved_path, mime, first_bytes, received, written, sniffed } => if total
            > MAX_PAYLOAD_SIZE {
            &&& after.field is Closed
            &&& after.bytes_read == before.bytes_read
            &&& action matches UploadAction::Respond(reply)
            &&& is_too_large_reply(reply)
        } else if mime is Some {
            &&& after.bytes_read == total
            &&& after.field matches FieldProgress::File {
                saved_path: p,
                mime: m,
                received: r,
                written: w,
                sniffed: s,
                ..
            }
            &&& p == saved_path
            &&& m == mime
            &&& r@ == received@ + chunk
            &&& w@ == written@ + chunk
            &&& s@ == sniffed@
            &&& action matches UploadAction::Write(bytes)
            &&& bytes@ == chunk
        } else {
            let held = first_bytes@ + chunk;
            &&& after.bytes_read == total
            &&& if held.len() >= 8 && inferred_mime(held) is Some {
                let m = inferred_mime(held)->Some_0;
                if allowed_mime(m) {
                    &&& after.field matches FieldProgress::File {
                        saved_path: p,
                        mime: Some(t),
                        received: r,
                        written: w,
                        sniffed: s,
                        ..
                    }
                    &&& p == saved_path
                    &&& t@ == m
                    &&& r@ == held
                    &&& w@ == held
                    &&& s@ == held
                    &&& action matches UploadAction::Write(bytes)
                    &&& bytes@ == held
                } else {
                    &&& after.field is Closed
                    &&& action matches UploadAction::RemoveAndRespond { path, reply }
                    &&& path == saved_path
                    &&& is_unsupported_reply(reply)
                }
            } else {
                &&& after.field matches FieldProgress::File {
                    saved_path: p,
                    mime: None,
                    first_bytes: f,
                    received: r,
                    written: w,
                    ..
                }
                &&& p == saved_path
                &&& f@ == held
                &&& r@ == held
                &&& w@.len() == 0
                &&& action is ReadMore
            }
        },
        _ => {
            &&& after == before
            &&& action is ReadMore
        },
    }
}

impl CharacterUpload {
    /// The invariant of an upload: no more than 5 MiB read; the user had
    /// fewer than 5 characters; an accepted image is recorded together with
    /// its type, lies in the user's directory, and its type was recognised
    /// from its first bytes; the file being read lies there too, and once its
    /// type is recognised every byte read of it has been handed out to be
    /// written, while before that none has and all are held back.
    pub open spec fn wf(&self) -> bool {
        &&& self.bytes_read <= MAX_PAYLOAD_SIZE
        &&& self.characters_before < MAX_CHARACTERS
        &&& self.path is Some <==> self.mime_type is Some
        &&& self.path matches Some(p) ==> is_saved_path(p@, self.upload_path@, self.user_id)
        &&& self.mime_type matches Some(m) ==> recognised(self.image_sniffed@, self.image_bytes@, m@)
        &&& self.field matches FieldProgress::File { saved_path, mime, first_bytes, received, written, sniffed }
            ==> {
            &&& is_saved_path(saved_path@, self.upload_path@, self.user_id)
            &&& match mime {
                None => written@.len() == 0 && first_bytes@ == received@,
                Some(m) => written@ == received@ && recognised(sniffed@, received@, m@),
            }
        }
    }

    /// The fields that no step changes.
    pub open spec fn same_user(&self, other: &CharacterUpload) -> bool {
        &&& self.user_id == other.user_id
        &&& self.characters_before == other.characters_before
        &&& self.upload_path == other.upload_path
    }

    /// An upload for the user, who has `characters_before` characters, saving
    /// images under `upload_path`, with nothing read yet.
    pub fn new(user_id: i32, characters_before: u8, upload_path: String) -> (r: CharacterUpload)
        requires
            characters_before < MAX_CHARACTERS,
        ensures
            r.wf(),
            r.user_id == user_id,
            r.characters_before == characters_before,
            r.upload_path == upload_path,
            r.bytes_read == 0,
            r.metadata is None,
            r.path is None,
            r.mime_type is None,
            r.field is Between,
    {
        CharacterUpload {
            user_id,
            characters_before,
            upload_path,
            bytes_read: 0,
            metadata: None,
            path: None,
            mime_type: None,
            image_bytes: Ghost(Seq::empty()),
            image_sniffed: Ghost(Seq::empty()),
            field: FieldProgress::Between,
        }
    }

    /// The directory of the user's uploads and the path in it of the file
    /// named by `stem` with this extension.
    fn saved_file_path(&self, stem: &str, ext: &String) -> (r: (String, String))
        requires
            is_uuid_text(stem@),
            allowed_extension(ext@),
        ensures
            r.0@ == user_directory(self.upload_path@, self.user_id),
            r.1@ == image_path(self.upload_path@, self.user_id, stem@, ext@),
            is_saved_path(r.1@, self.upload_path@, self.user_id),
    {
        let mut directory = self.upload_path.clone();
        directory.append("/users/");
        append_i32_decimal(&mut directory, self.user_id);
        let mut path = directory.clone();
        path.append("/");
        path.append(stem);
        path.append(".");
        path.append(ext.as_str());
        proof {
            lemma_saved_path(self.upload_path@, self.user_id, stem@, ext@);
            assert(path@ =~= image_path(self.upload_path@, self.user_id, stem@, ext@));
        }
        (directory, path)
    }

    /// A new field starts, with this content disposition; a file it carries
    /// is to be named by `stem`, a freshly drawn UUID.
    pub fn start_field(&mut self, header: Option<FieldHeader>, stem: &str) -> (action: UploadAction)
        requires
            old(self).wf(),
            is_uuid_text(stem@),
        ensures
            final(self).wf(),
            final(self).same_user(old(self)),
            final(self).bytes_read == old(self).bytes_read,
            final(self).metadata == old(self).metadata,
            final(self).path == old(self).path,
            final(self).mime_type == old(self).mime_type,
            final(self).image_bytes == old(self).image_bytes,
            final(self).image_sniffed == old(self).image_sniffed,
            field_start_fits(old(self).upload_path@, old(self).user_id, header, stem@, final(self).field, action),
    {
        match header {
            None => {
                self.field = FieldProgress::Closed;
                UploadAction::Respond(
                    Reply::text(STATUS_INTERNAL_SERVER_ERROR, owned("Could not get content_disposition.")),
                )
            },
            Some(h) => {
                let name = match h.name {
                    Some(n) => n,
                    None => owned(""),
                };
                proof {
                    reveal_strlit("");
                }
                assert(name@ == name_or_empty(h.name));
                if same_text(name.as_str(), "metadata") {
                    self.field = FieldProgress::Metadata { data: Vec::new() };
                    UploadAction::ReadField
                } else if same_text(name.as_str(), "file") {
                    let filename = match h.filename {
                        Some(f) => f,
                        None => owned("file.jpg"),
                    };
                    let ext = extension_of(filename.as_str());
                    if !same_text(ext.as_str(), "jpg") && !same_text(ext.as_str(), "png") {
                        self.field = FieldProgress::Closed;
                        UploadAction::Respond(err::unsupported_file())
                    } else {
                        let (directory, path) = self.saved_file_path(stem, &ext);
                        self.field = FieldProgress::File {
                            saved_path: path.clone(),
                            mime: None,
                            first_bytes: Vec::new(),
                            received: Ghost(Seq::empty()),
                            written: Ghost(Seq::empty()),
                            sniffed: Ghost(Seq::empty()),
                        };
                        UploadAction::CreateFile { directory, path }
                    }
                } else {
                    self.field = FieldProgress::Between;
                    UploadAction::SkipField
                }
            },
        }
    }

    /// A chunk of the field being read arrives.
    pub fn receive_chunk(&mut self, chunk: Vec<u8>) -> (action: UploadAction)
        requires
            old(self).wf(),
        ensures
            final(self).wf(),
            final(self).same_user(old(self)),
            final(self).metadata == old(self).metadata,
            final(self).path == old(self).path,
            final(self).mime_type == old(self).mime_type,
            final(self).image_bytes == old(self).image_bytes,
            final(self).image_sniffed == old(self).image_sniffed,
            chunk_fits(*old(self), chunk@, *final(self), action),
    {
        let mut chunk = chunk;
        let ghost incoming = chunk@;
        let len = chunk.len();
        let mut field = FieldProgress::Closed;
        std::mem::swap(&mut field, &mut self.field);
        match field {
            FieldProgress::Metadata { mut data } => {
                if len > MAX_PAYLOAD_SIZE - self.bytes_read {
                    UploadAction::Respond(err::file_too_large())
                } else {
                    self.bytes_read = self.bytes_read + len;
                    data.append(&mut chunk);
                    self.field = FieldProgress::Metadata { data };
                    UploadAction::ReadMore
                }
            },
            FieldProgress::File { saved_path, mime, mut first_bytes, received, written, sniffed } => {
                if len > MAX_PAYLOAD_SIZE - self.bytes_read {
                    UploadAction::Respond(err::file_too_large())
                } else if mime.is_some() {
                    assert((received@ + incoming).take(sniffed@.len() as int) =~= received@.take(
                        sniffed@.len() as int,
                    ));
                    self.bytes_read = self.bytes_read + len;
                    self.field = FieldProgress::File {
                        saved_path,
                        mime,
                        first_bytes,
                        received: Ghost(received@ + incoming),
                        written: Ghost(written@ + incoming),
                        sniffed,
                    };
                    UploadAction::Write(chunk)
                } else {
                    self.bytes_read = self.bytes_read + len;
                    first_bytes.append(&mut chunk);
                    let ghost held = first_bytes@;
                    if first_bytes.len() >= 8 {
                        match infer_mime(first_bytes.as_slice()) {
                            Some(m) => {
                                if same_text(m.as_str(), "image/png") || same_text(m.as_str(), "image/jpeg") {
                                    assert(held.take(held.len() as int) =~= held);
                                    self.field = FieldProgress::File {
                                        saved_path,
                                        mime: Some(m),
                                        first_bytes: Vec::new(),
                                        received: Ghost(held),
                                        written: Ghost(held),
                                        sniffed: Ghost(held),
                                    };
                                    UploadAction::Write(first_bytes)
                                } else {
                                    UploadAction::RemoveAndRespond {
                                        path: saved_path,
                                        reply: err::unsupported_file(),
                                    }
                                }
                            },
                            None => {
                                self.field = FieldProgress::File {
                                    saved_path,
                                    mime,
                                    first_bytes,
                                    received: Ghost(held),
                                    written,
                                    sniffed,
                                };
                                UploadAction::ReadMore
                            },
                        }
                    } else {
                        self.field = FieldProgress::File {
                            saved_path,
                            mime,
                            first_bytes,
                            received: Ghost(held),
                            written,
                            sniffed,
                        };
                        UploadAction::ReadMore
                    }
                }
            },
            other => {
                self.field = other;
                UploadAction::ReadMore
            },
        }
    }

    /// The chunks of the field being read have run out. Metadata bytes that
    /// are not UTF-8 answer 400 with the decoding error's text; otherwise
    /// their text is handed on to be parsed. A file whose type was recognised
    /// becomes the character's image, and every byte read of it has been
    /// handed out to be written; one whose type never was is deleted and
    /// answers 415.
    pub fn end_field(&mut self) -> (action: UploadAction)
        requires
            old(self).wf(),
        ensures
            final(self).wf(),
            final(self).same_user(old(self)),
            final(self).bytes_read == old(self).bytes_read,
            final(self).metadata == old(self).metadata,
            match old(self).field {
                FieldProgress::Metadata { data } => {
                    &&& final(self).path == old(self).path
                    &&& final(self).mime_type == old(self).mime_type
                    &&& final(self).image_bytes == old(self).image_bytes
                    &&& if vstd::utf8::valid_utf8(data@) {
                        &&& final(self).field is Between
                        &&& action matches UploadAction::ParseMetadata(t)
                        &&& t@ == vstd::utf8::decode_utf8(data@)
                    } else {
                        &&& final(self).field is Closed
                        &&& action matches UploadAction::Respond(reply)
                        &&& is_text_reply(reply, 400, utf8_error_text(data@))
                    }
                },
                FieldProgress::File { saved_path, mime, received, written, sniffed, .. } => match mime {
                    Some(m) => {
                        &&& final(self).path == Some(saved_path)
                        &&& final(self).mime_type == Some(m)
                        &&& final(self).image_bytes@ == received@
                        &&& final(self).image_bytes@ == written@
                        &&& final(self).image_sniffed@ == sniffed@
                        &&& final(self).field is Between
                        &&& action is NextField
                    },
                    None => {
                        &&& final(self).path == old(self).path
                        &&& final(self).mime_type == old(self).mime_type
                        &&& final(self).image_bytes == old(self).image_bytes
                        &&& final(self).field is Closed
                        &&& action matches UploadAction::RemoveAndRespond { path, reply }
                        &&& path == saved_path
                        &&& is_unsupported_reply(reply)
                    },
                },
                _ => {
                    &&& final(self).path == old(self).path
                    &&& final(self).mime_type == old(self).mime_type
                    &&& final(self).image_bytes == old(self).image_bytes
                    &&& final(self).field == old(self).field
                    &&& action is NextField
                },
            },
    {
        let mut field = FieldProgress::Closed;
        std::mem::swap(&mut field, &mut self.field);
        match field {
            FieldProgress::Metadata { data } => match utf8_text(data) {
                Ok(text) => {
                    self.field = FieldProgress::Between;
                    UploadAction::ParseMetadata(text)
                },
                Err(message) => UploadAction::Respond(Reply::text(STATUS_BAD_REQUEST, message)),
            },
            FieldProgress::File { saved_path, mime, first_bytes, received, written, sniffed } => {
                match mime {
                    Some(m) => {
                        self.path = Some(saved_path);
                        self.mime_type = Some(m);
                        self.image_bytes = Ghost(received@);
                        self.image_sniffed = Ghost(sniffed@);
                        self.field = FieldProgress::Between;
                        UploadAction::NextField
                    },
                    None => UploadAction::RemoveAndRespond {
                        path: saved_path,
                        reply: err::unsupported_file(),
                    },
                }
            },
            other => {
                self.field = other;
                UploadAction::NextField
            },
        }
    }

    /// The metadata text was parsed: its error answers 400, its value is kept.
    pub fn metadata_parsed(&mut self, parsed: Result<CreateCharacterData, String>) -> (action: UploadAction)
        requires
            old(self).wf(),
        ensures
            final(self).wf(),
            final(self).same_user(old(self)),
            final(self).bytes_read == old(self).bytes_read,
            final(self).path == old(self).path,
            final(self).mime_type == old(self).mime_type,
            final(self).image_bytes == old(self).image_bytes,
            final(self).image_sniffed == old(self).image_sniffed,
            parsed matches Err(m) ==> {
                &&& final(self).field is Closed
                &&& final(self).metadata == old(self).metadata
                &&& action matches UploadAction::Respond(reply)
                &&& is_text_reply(reply, 400, m@)
            },
            parsed matches Ok(d) ==> {
                &&& final(self).field == old(self).field
                &&& final(self).metadata == Some(d)
                &&& action is NextField
            },
    {
        match parsed {
            Err(m) => {
                self.field = FieldProgress::Closed;
                UploadAction::Respond(Reply::text(STATUS_BAD_REQUEST, m))
            },
            Ok(d) => {
                self.metadata = Some(d);
                UploadAction::NextField
            },
        }
    }

    /// The fields have run out. With both metadata and an image, the
    /// character is stored, with the image's path and recognised type; an
    /// image without metadata is deleted; either way without both, 400.
    pub fn finish(&mut self) -> (action: UploadAction)
        requires
            old(self).wf(),
        ensures
            final(self).wf(),
            final(self).same_user(old(self)),
            final(self).path == old(self).path,
            final(self).field is Closed,
            match (old(self).metadata, old(self).path) {
                (Some(md), Some(p)) => action matches UploadAction::Insert(record) && {
                    &&& record.user_id == old(self).user_id
                    &&& record.first_name == md.first_name
                    &&& record.last_name == md.last_name
                    &&& record.pronouns == md.pronouns
                    &&& record.quote == md.quote
                    &&& record.image_path@ == p@
                    &&& old(self).mime_type matches Some(m) && record.image_mime_type@ == m@
                    &&& recognised(old(self).image_sniffed@, old(self).image_bytes@, record.image_mime_type@)
                    &&& is_saved_path(record.image_path@, old(self).upload_path@, old(self).user_id)
                },
                (None, Some(p)) => action matches UploadAction::RemoveAndRespond { path, reply } && path@ == p@
                    && is_failed_creation_reply(reply),
                _ => action matches UploadAction::Respond(reply) && is_failed_creation_reply(reply),
            },
    {
        self.field = FieldProgress::Closed;
        let metadata = self.metadata.take();
        match (metadata, &self.path) {
            (Some(md), Some(p)) => {
                let mime = self.mime_type.as_ref().unwrap().clone();
                UploadAction::Insert(
                    NewCharacter {
                        user_id: self.user_id,
                        first_name: md.first_name,
                        last_name: md.last_name,
                        pronouns: md.pronouns,
                        quote: md.quote,
                        image_path: p.clone(),
                        image_mime_type: mime,
                    },
                )
            },
            (None, Some(p)) => UploadAction::RemoveAndRespond { path: p.clone(), reply: err::failed_creation() },
            _ => UploadAction::Respond(err::failed_creation()),
        }
    }

    /// The reply once the new character's row has been stored: 500 with the
    /// query's error, or 201 with the new id, the URL of the character, and
    /// how many more characters the user may create.
    pub fn inserted(&self, result: Result<i32, String>) -> (r: Reply)
        requires
            self.wf(),
        ensures
            result matches Err(m) ==> is_text_reply(r, 500, m@),
            result matches Ok(id) ==> {
                &&& r.status == 201
                &&& r.body matches ReplyBody::CreatedCharacter(c)
                &&& c.id == id
                &&& c.image_url@ == "/characters/"@ + int_decimal(id as int)
                &&& c.characters_left == MAX_CHARACTERS - self.characters_before - 1
            },
    {
        match result {
            Err(m) => Reply::text(STATUS_INTERNAL_SERVER_ERROR, m),
            Ok(id) => {
                let mut url = owned("/characters/");
                append_i32_decimal(&mut url, id);
                Reply {
                    status: STATUS_CREATED,
                    body: ReplyBody::CreatedCharacter(
                        CreatedCharacter {
                            id,
                            image_url: url,
                            characters_left: MAX_CHARACTERS - self.characters_before - 1,
                        },
                    ),
                }
            },
        }
    }
}

/// A user with 5 characters or more cannot upload another: the count the
/// upload checks is at least the limit. (The count is cut down to a byte, so
/// this holds for counts up to 255 only; a count of 256 is read as 0.)
pub proof fn law_character_limit(count: i64)
    requires
        MAX_CHARACTERS <= count <= 255,
    ensures
        counted_characters(Some(count)) >= MAX_CHARACTERS,
{
    assert(0 <= count <= 255 ==> count as u8 == count) by (bit_vector);
}

/// The file of an accepted image holds exactly the bytes read of its field:
/// once a file's type is recognised, every byte read of it has been handed
/// out to be written, in order, and the bytes it was recognised from begin
/// them; when the field ends, these are the upload's image bytes.
pub proof fn law_accepted_image_is_written_whole(upload: CharacterUpload)
    requires
        upload.wf(),
    ensures
        upload.field matches FieldProgress::File { mime: Some(m), received, written, sniffed, .. } ==> {
            &&& written@ == received@
            &&& recognised(sniffed@, received@, m@)
        },
        upload.mime_type matches Some(m) ==> recognised(upload.image_sniffed@, upload.image_bytes@, m@),
{
}

/// A `file` field whose file name ends in `.jpg` or `.png` (whatever comes
/// before, dots and length included) creates, in the user's directory, the
/// file named by the drawn stem with that extension; a field without a file
/// name creates a `.jpg` file.
pub proof fn law_file_named_by_its_extension(
    upload_path: Seq<char>,
    user_id: i32,
    h: FieldHeader,
    stem: Seq<char>,
    field: FieldProgress,
    action: UploadAction,
    prefix: Seq<char>,
    ext: Seq<char>,
)
    requires
        field_start_fits(upload_path, user_id, Some(h), stem, field, action),
        h.name matches Some(x) && x@ == seq!['f', 'i', 'l', 'e'],
        h.filename matches Some(f) ==> f@ == prefix + seq!['.'] + ext,
        h.filename is None ==> ext == seq!['j', 'p', 'g'],
        ext == seq!['j', 'p', 'g'] || ext == seq!['p', 'n', 'g'],
    ensures
        action matches UploadAction::CreateFile { directory, path } && {
            &&& directory@ == upload_path + "/users/"@ + int_decimal(user_id as int)
            &&& path@ == upload_path + "/users/"@ + int_decimal(user_id as int) + seq!['/'] + stem + seq!['.']
                + ext
        },
{
    reveal_strlit("file");
    reveal_strlit("metadata");
    reveal_strlit("jpg");
    reveal_strlit("png");
    reveal_strlit("file.jpg");
    reveal_strlit("/");
    reveal_strlit(".");
    assert("file"@ =~= seq!['f', 'i', 'l', 'e']);
    assert(name_or_empty(h.name) == "file"@);
    assert("metadata"@ != "file"@) by {
        assert("metadata"@.len() != "file"@.len());
    }
    assert(!ext.contains('.'));
    match h.filename {
        Some(f) => {
            law_extension_after_last_dot(prefix, ext);
        },
        None => {
            assert("file.jpg"@ =~= seq!['f', 'i', 'l', 'e'] + seq!['.'] + seq!['j', 'p', 'g']);
            law_extension_after_last_dot(seq!['f', 'i', 'l', 'e'], seq!['j', 'p', 'g']);
        },
    }
    assert(after_last_dot(filename_or_default(h.filename)) == ext);
    assert("jpg"@ =~= seq!['j', 'p', 'g']);
    assert("png"@ =~= seq!['p', 'n', 'g']);
}

/// A `file` field whose file name's last extension is neither `jpg` nor
/// `png` is refused with 415 before any file is created.
pub proof fn law_other_extensions_refused(
    upload_path: Seq<char>,
    user_id: i32,
    h: FieldHeader,
    stem: Seq<char>,
    field: FieldProgress,
    action: UploadAction,
    prefix: Seq<char>,
    ext: Seq<char>,
)
    requires
        field_start_fits(upload_path, user_id, Some(h), stem, field, action),
        h.name matches Some(x) && x@ == seq!['f', 'i', 'l', 'e'],
        h.filename matches Some(f) && f@ == prefix + seq!['.'] + ext,
        !ext.contains('.'),
        ext != seq!['j', 'p', 'g'] && ext != seq!['p', 'n', 'g'],
    ensures
        action matches UploadAction::Respond(reply) && reply.status == 415,
        field is Closed,
{
    reveal_strlit("file");
    reveal_strlit("metadata");
    reveal_strlit("jpg");
    reveal_strlit("png");
    assert("file"@ =~= seq!['f', 'i', 'l', 'e']);
    assert("metadata"@ != "file"@) by {
        assert("metadata"@.len() != "file"@.len());
    }
    law_extension_after_last_dot(prefix, ext);
    assert("jpg"@ =~= seq!['j', 'p', 'g']);
    assert("png"@ =~= seq!['p', 'n', 'g']);
}

/// Below 256 the count the upload checks is the query's count, and no count
/// gives 0 characters but 0 or none: a user under the limit goes on with
/// their real count, and one with 5 to 255 characters is refused.
pub proof fn law_counted_is_the_count(count: i64)
    ensures
        0 <= count <= 255 ==> counted_characters(Some(count)) == count,
        counted_characters(None) == 0,
        0 <= count < 5 ==> counted_characters(Some(count)) < MAX_CHARACTERS,
{
    assert(0 <= count <= 255 ==> count as u8 == count) by (bit_vector);
}

} // verus!
