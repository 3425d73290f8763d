//! An image upload: what the form must hold, and where the file goes.
//!
//! Reading the form and storing the file are done by the caller. Here the
//! fields are sorted as they arrive, the form is checked once it is read,
//! and the object in the bucket is named.

use crate::error::AppError;
use crate::status::StatusCode;
use crate::text::{after_last, begins_with, last_part, same_text};
use vstd::prelude::*;
use vstd::utf8::{decode_utf8, encode_utf8, valid_utf8};

verus! {

/// The largest file that is taken, in bytes: 10 MB.
pub const MAX_FILE_SIZE: usize = 10 * 1024 * 1024;

/// What the media type of an image begins with.
pub const IMAGE_PREFIX: &'static str = "image/";

/// The folder of the bucket that uploads go to.
pub const UPLOAD_FOLDER: &'static str = "axum-app-uploads/";

/// The extension of a file that was sent without a name.
pub const DEFAULT_EXTENSION: &'static str = "jpg";

/// What follows the project's name in the name of its default bucket.
pub const BUCKET_SUFFIX: &'static str = ".appspot.com";

/// How long a stored object may be cached.
pub const CACHE_CONTROL: &'static str = "public, max-age=31536000";

/// The metadata key under which the download token of an object is kept.
pub const TOKEN_METADATA_KEY: &'static str = "firebaseStorageDownloadTokens";

/// Where stored objects are served from.
pub const DOWNLOAD_HOST: &'static str = "https://firebasestorage.googleapis.com/v0/b/";

/// What the client learns of a stored file.
#[derive(Debug)]
pub struct UploadResponse {
    pub url: String,
    pub filename: String,
    pub size: u64,
}

/// What can go wrong with an upload.
#[derive(Clone, Copy, Debug, PartialEq, Eq, Structural)]
pub enum UploadFault {
    /// The form could not be taken apart.
    UnreadableForm,
    /// The bytes of the file could not be read.
    UnreadableFile,
    /// The bytes of the credentials could not be read.
    UnreadableCredentials,
    /// The bytes of the bucket name could not be read.
    UnreadableBucket,
    /// The credentials are not UTF-8.
    CredentialsNotText,
    /// The bucket name is not UTF-8.
    BucketNotText,
    /// The form holds no file.
    NoFile,
    /// The file is larger than `MAX_FILE_SIZE`.
    TooLarge,
    /// The file is no image.
    NotAnImage,
    /// The form holds no credentials.
    NoCredentials,
    /// The credentials are not of the expected form.
    BadCredentials,
    /// The bucket did not take the file.
    StoreFailed,
}

impl UploadFault {
    /// The status that the fault is answered with.
    pub open spec fn status(self) -> u16 {
        match self {
            UploadFault::TooLarge => 413,
            UploadFault::StoreFailed => 500,
            _ => 400,
        }
    }

    /// Whether the message ends with the cause of the fault.
    pub open spec fn names_cause(self) -> bool {
        match self {
            UploadFault::NoFile => false,
            UploadFault::TooLarge => false,
            UploadFault::NotAnImage => false,
            UploadFault::NoCredentials => false,
            _ => true,
        }
    }

    /// The words that the fault is answered with, up to the cause.
    pub open spec fn words_text(self) -> Seq<char> {
        match self {
            UploadFault::UnreadableForm => "無法解析表單欄位: "@,
            UploadFault::UnreadableFile => "無法讀取檔案數據: "@,
            UploadFault::UnreadableCredentials => "無法讀取 credentials: "@,
            UploadFault::UnreadableBucket => "無法讀取 bucket 名稱: "@,
            UploadFault::CredentialsNotText => "credentials 非有效 UTF-8: "@,
            UploadFault::BucketNotText => "bucket 名稱非有效 UTF-8: "@,
            UploadFault::NoFile => "未提供檔案"@,
            UploadFault::TooLarge => "檔案大小超過 10MB 限制"@,
            UploadFault::NotAnImage => "只允許上傳圖片檔案"@,
            UploadFault::NoCredentials => "未提供 Firebase credentials"@,
            UploadFault::BadCredentials => "無效的 Firebase credentials 格式: "@,
            UploadFault::StoreFailed => "Firebase 上傳失敗: "@,
        }
    }

    /// The message that the fault is answered with, given its cause.
    pub open spec fn message_text(self, cause: Seq<char>) -> Seq<char> {
        if self.names_cause() {
            self.words_text() + cause
        } else {
            self.words_text()
        }
    }

    /// The words that the fault is answered with, up to the cause.
    pub fn words(self) -> (text: &'static str)
        ensures
            text@ == self.words_text(),
    {
        match self {
            UploadFault::UnreadableForm => "無法解析表單欄位: ",
            UploadFault::UnreadableFile => "無法讀取檔案數據: ",
            UploadFault::UnreadableCredentials => "無法讀取 credentials: ",
            UploadFault::UnreadableBucket => "無法讀取 bucket 名稱: ",
            UploadFault::CredentialsNotText => "credentials 非有效 UTF-8: ",
            UploadFault::BucketNotText => "bucket 名稱非有效 UTF-8: ",
            UploadFault::NoFile => "未提供檔案",
            UploadFault::TooLarge => "檔案大小超過 10MB 限制",
            UploadFault::NotAnImage => "只允許上傳圖片檔案",
            UploadFault::NoCredentials => "未提供 Firebase credentials",
            UploadFault::BadCredentials => "無效的 Firebase credentials 格式: ",
            UploadFault::StoreFailed => "Firebase 上傳失敗: ",
        }
    }

    /// The error that the fault is answered with. `cause` describes what
    /// lies behind it; it is left out where the message names no cause.
    pub fn report(self, cause: &str) -> (e: AppError)
        ensures
            e.says(self.status(), self.message_text(cause@)),
            e.source is None,
    {
        let status = match self {
            UploadFault::TooLarge => StatusCode::payload_too_large(),
            UploadFault::StoreFailed => StatusCode::internal_server_error(),
            _ => StatusCode::bad_request(),
        };
        let names_cause = match self {
            UploadFault::NoFile => false,
            UploadFault::TooLarge => false,
            UploadFault::NotAnImage => false,
            UploadFault::NoCredentials => false,
            _ => true,
        };
        if names_cause {
            let message = self.words().to_owned().concat(cause);
            AppError::new(status, message.as_str())
        } else {
            AppError::new(status, self.words())
        }
    }
}

/// What a field of the form is for.
#[derive(Clone, Copy, Debug, PartialEq, Eq, Structural)]
pub enum FieldKind {
    /// The file to store.
    File,
    /// The credentials of the bucket's owner.
    Credentials,
    /// The name of the bucket.
    Bucket,
    /// Anything else; it is passed over.
    Other,
}

/// What the field named `name` is for: `image` and `file` hold the file,
/// `credentials` and `bucket` what they say.
pub open spec fn field_kind(name: Seq<char>) -> FieldKind {
    if name == "image"@ || name == "file"@ {
        FieldKind::File
    } else if name == "credentials"@ {
        FieldKind::Credentials
    } else if name == "bucket"@ {
        FieldKind::Bucket
    } else {
        FieldKind::Other
    }
}

/// Sorts a field of the form by its name.
pub fn classify_field(name: &str) -> (kind: FieldKind)
    ensures
        kind == field_kind(name@),
{
    if same_text(name, "image") || same_text(name, "file") {
        FieldKind::File
    } else if same_text(name, "credentials") {
        FieldKind::Credentials
    } else if same_text(name, "bucket") {
        FieldKind::Bucket
    } else {
        FieldKind::Other
    }
}

/// `String::from_utf8` of the standard library: the text that the bytes
/// encode, where they are UTF-8; where they are not, the `Display` text of
/// its error, of which nothing is said.
#[verifier::external_body]
fn text_of_bytes(bytes: Vec<u8>) -> (r: Result<String, String>)
    ensures
        r is Ok <==> valid_utf8(bytes@),
        r is Ok ==> r.unwrap()@ == decode_utf8(bytes@),
{
    match String::from_utf8(bytes) {
        Ok(text) => Ok(text),
        Err(e) => Err(e.to_string()),
    }
}

/// What has been read of the form so far. A field that comes twice counts
/// as it came last.
#[derive(Debug)]
pub struct UploadForm {
    pub file_data: Option<Vec<u8>>,
    pub original_filename: Option<String>,
    pub content_type: Option<String>,
    pub credentials_json: Option<String>,
    pub bucket_name: Option<String>,
}

impl UploadForm {
    /// A form of which nothing has been read.
    pub fn new() -> (form: UploadForm)
        ensures
            form.file_data is None,
            form.original_filename is None,
            form.content_type is None,
            form.credentials_json is None,
            form.bucket_name is None,
    {
        UploadForm {
            file_data: None,
            original_filename: None,
            content_type: None,
            credentials_json: None,
            bucket_name: None,
        }
    }

    /// Takes a file field: its bytes, and the name and the media type that
    /// it came with, if any.
    pub fn accept_file(
        &mut self,
        file_name: Option<String>,
        content_type: Option<String>,
        data: Vec<u8>,
    )
        ensures
            final(self).file_data == Some(data),
            final(self).original_filename == file_name,
            final(self).content_type == content_type,
            final(self).credentials_json == old(self).credentials_json,
            final(self).bucket_name == old(self).bucket_name,
    {
        self.original_filename = file_name;
        self.content_type = content_type;
        self.file_data = Some(data);
    }

    /// Takes the credentials field. Bytes that are not UTF-8 are refused
    /// and leave the form as it was.
    pub fn accept_credentials(&mut self, bytes: Vec<u8>) -> (r: Result<(), AppError>)
        ensures
            r is Ok <==> valid_utf8(bytes@),
            r is Ok ==> final(self).credentials_json is Some,
            r is Ok ==> final(self).credentials_json.unwrap()@ == decode_utf8(bytes@),
            r is Err ==> final(self).credentials_json == old(self).credentials_json,
            r is Err ==> exists|cause: Seq<char>|
                r.unwrap_err().says(400, #[trigger] UploadFault::CredentialsNotText.message_text(cause)),
            final(self).file_data == old(self).file_data,
            final(self).original_filename == old(self).original_filename,
            final(self).content_type == old(self).content_type,
            final(self).bucket_name == old(self).bucket_name,
    {
        match text_of_bytes(bytes) {
            Ok(text) => {
                self.credentials_json = Some(text);
                Ok(())
            },
            Err(cause) => {
                let e = UploadFault::CredentialsNotText.report(cause.as_str());
                assert(e.says(400, UploadFault::CredentialsNotText.message_text(cause@)));
                Err(e)
            },
        }
    }

    /// Takes the bucket field. Bytes that are not UTF-8 are refused and
    /// leave the form as it was.
    pub fn accept_bucket(&mut self, bytes: Vec<u8>) -> (r: Result<(), AppError>)
        ensures
            r is Ok <==> valid_utf8(bytes@),
            r is Ok ==> final(self).bucket_name is Some,
            r is Ok ==> final(self).bucket_name.unwrap()@ == decode_utf8(bytes@),
            r is Err ==> final(self).bucket_name == old(self).bucket_name,
            r is Err ==> exists|cause: Seq<char>|
                r.unwrap_err().says(400, #[trigger] UploadFault::BucketNotText.message_text(cause)),
            final(self).file_data == old(self).file_data,
            final(self).original_filename == old(self).original_filename,
            final(self).content_type == old(self).content_type,
            final(self).credentials_json == old(self).credentials_json,
    {
        match text_of_bytes(bytes) {
            Ok(text) => {
                self.bucket_name = Some(text);
                Ok(())
            },
            Err(cause) => {
                let e = UploadFault::BucketNotText.report(cause.as_str());
                assert(e.says(400, UploadFault::BucketNotText.message_text(cause@)));
                Err(e)
            },
        }
    }
}

/// `mime_guess::from_path` and `first_or_octet_stream`: the media type
/// that the extension of a file name suggests. Where the extension of a
/// name begins is for the platform to say, so nothing is claimed of the
/// result.
#[verifier::external_body]
fn guess_media_type(file_name: &str) -> (media_type: String) {
    mime_guess::from_path(file_name).first_or_octet_stream().to_string()
}

/// `Uuid::new_v4` of the uuid crate, as text: a random identifier, fresh
/// at every call. Nothing is claimed of it.
#[verifier::external_body]
fn random_id() -> (id: String) {
    uuid::Uuid::new_v4().to_string()
}

/// Whether a byte stands for itself in a URL: a letter, a digit, or one of
/// `-`, `.`, `_` and `~`.
pub open spec fn is_unreserved(byte: u8) -> bool {
    ||| 0x30 <= byte <= 0x39
    ||| 0x41 <= byte <= 0x5a
    ||| 0x61 <= byte <= 0x7a
    ||| byte == 0x2d
    ||| byte == 0x2e
    ||| byte == 0x5f
    ||| byte == 0x7e
}

/// The hexadecimal digit of a number below 16, in upper case.
pub open spec fn hex_digit(value: u8) -> char {
    if value < 10 {
        (0x30 + value) as char
    } else {
        (0x41 + value - 10) as char
    }
}

/// A byte as it is written in a URL: itself where it is unreserved, else
/// `%` and its two hexadecimal digits.
pub open spec fn escaped(byte: u8) -> Seq<char> {
    if is_unreserved(byte) {
        seq![byte as char]
    } else {
        seq!['%', hex_digit(byte / 16), hex_digit(byte % 16)]
    }
}

/// The bytes as they are written in a URL, one after the other.
pub open spec fn percent_encoded(bytes: Seq<u8>) -> Seq<char>
    decreases bytes.len(),
{
    if bytes.len() == 0 {
        Seq::empty()
    } else {
        percent_encoded(bytes.drop_last()) + escaped(bytes.last())
    }
}

/// `urlencoding::encode`: the UTF-8 bytes of the text, each kept where it
/// is a letter, a digit or one of `-`, `.`, `_`, `~`, and written as `%`
/// with two upper-case hexadecimal digits where it is not.
#[verifier::external_body]
fn url_encode(text: &str) -> (encoded: String)
    ensures
        encoded@ == percent_encoded(encode_utf8(text@)),
{
    urlencoding::encode(text).into_owned()
}

/// The name that the media type of a file is guessed from: the name that
/// the file came with, or the empty text where it came with none.
pub open spec fn name_to_guess_from(form: UploadForm) -> Seq<char> {
    match form.original_filename {
        Some(name) => name@,
        None => Seq::empty(),
    }
}

/// The name that the media type of the file is guessed from.
pub fn guess_name<'a>(form: &'a UploadForm) -> (name: &'a str)
    ensures
        name@ == name_to_guess_from(*form),
{
    match &form.original_filename {
        Some(name) => name.as_str(),
        None => {
            proof {
                reveal_strlit("");
                assert(""@ =~= Seq::<char>::empty());
            }
            ""
        },
    }
}

/// The media type that a file counts as: the one it was sent with, or,
/// without one, a guess from the name that `guess_name` gives.
pub fn media_type_of(form: &UploadForm) -> (media_type: String)
    ensures
        form.content_type is Some ==> media_type@ == form.content_type.unwrap()@,
{
    match &form.content_type {
        Some(sent) => sent.clone(),
        None => guess_media_type(guess_name(form)),
    }
}

/// The first thing that is wrong with a form whose file counts as
/// `media_type`: no file, a file that is too large, a file that is no
/// image, no credentials, in this order.
pub open spec fn form_fault(form: UploadForm, media_type: Seq<char>) -> Option<UploadFault> {
    if form.file_data is None {
        Some(UploadFault::NoFile)
    } else if form.file_data.unwrap()@.len() > MAX_FILE_SIZE {
        Some(UploadFault::TooLarge)
    } else if !IMAGE_PREFIX@.is_prefix_of(media_type) {
        Some(UploadFault::NotAnImage)
    } else if form.credentials_json is None {
        Some(UploadFault::NoCredentials)
    } else {
        None
    }
}

/// A form that holds what an upload needs.
#[derive(Debug)]
pub struct CheckedUpload {
    pub data: Vec<u8>,
    pub media_type: String,
    pub original_filename: Option<String>,
    pub credentials_json: String,
    pub bucket_name: Option<String>,
}

impl CheckedUpload {
    /// The checked upload holds what the form held, under the given media
    /// type.
    pub open spec fn holds(&self, form: UploadForm, media_type: Seq<char>) -> bool {
        &&& Some(self.data) == form.file_data
        &&& self.media_type@ == media_type
        &&& self.original_filename == form.original_filename
        &&& Some(self.credentials_json) == form.credentials_json
        &&& self.bucket_name == form.bucket_name
    }
}

/// Checks a form whose file counts as `media_type`.
pub fn check_upload(form: UploadForm, media_type: String) -> (r: Result<CheckedUpload, AppError>)
    ensures
        match form_fault(form, media_type@) {
            Some(fault) => r is Err && r.unwrap_err().says(
                fault.status(),
                fault.message_text(Seq::empty()),
            ) && r.unwrap_err().source is None,
            None => r is Ok && r.unwrap().holds(form, media_type@),
        },
{
    let data = match form.file_data {
        Some(data) => data,
        None => {
            return Err(UploadFault::NoFile.report(""));
        },
    };
    if data.len() > MAX_FILE_SIZE {
        return Err(UploadFault::TooLarge.report(""));
    }
    if !begins_with(media_type.as_str(), IMAGE_PREFIX) {
        return Err(UploadFault::NotAnImage.report(""));
    }
    let credentials_json = match form.credentials_json {
        Some(text) => text,
        None => {
            return Err(UploadFault::NoCredentials.report(""));
        },
    };
    Ok(
        CheckedUpload {
            data,
            media_type,
            original_filename: form.original_filename,
            credentials_json,
            bucket_name: form.bucket_name,
        },
    )
}

/// Checks a form once it has been read: settles what media type its file
/// counts as, then checks it under that type.
///
/// A file that was sent with a media type counts as that. For one that
/// was sent without, the type is guessed from its name, and the outcome
/// is that of the check under some type.
pub fn check_form(form: UploadForm) -> (r: Result<CheckedUpload, AppError>)
    ensures
        exists|media_type: Seq<char>|
            {
                &&& form.content_type is Some ==> media_type == form.content_type.unwrap()@
                &&& match #[trigger] form_fault(form, media_type) {
                    Some(fault) => r is Err && r.unwrap_err().says(
                        fault.status(),
                        fault.message_text(Seq::empty()),
                    ),
                    None => r is Ok && r.unwrap().holds(form, media_type),
                }
            },
        r is Err ==> r.unwrap_err().source is None,
        form.file_data is None ==> r is Err && r.unwrap_err().says(
            400,
            UploadFault::NoFile.message_text(Seq::empty()),
        ),
        form.file_data is Some && form.file_data.unwrap()@.len() > MAX_FILE_SIZE ==> r is Err
            && r.unwrap_err().says(413, UploadFault::TooLarge.message_text(Seq::empty())),
{
    let media_type = media_type_of(&form);
    let ghost counted = media_type@;
    let r = check_upload(form, media_type);
    proof {
        assert(form.content_type is Some ==> counted == form.content_type.unwrap()@);
        assert(match form_fault(form, counted) {
            Some(fault) => r is Err && r.unwrap_err().says(
                fault.status(),
                fault.message_text(Seq::empty()),
            ),
            None => r is Ok && r.unwrap().holds(form, counted),
        });
    }
    r
}

/// The bucket that a file goes to: the one that was named, or, where none
/// was, the default bucket of the project.
pub open spec fn bucket_for(bucket_name: Option<String>, project_id: Seq<char>) -> Seq<char> {
    match bucket_name {
        Some(name) => name@,
        None => project_id + BUCKET_SUFFIX@,
    }
}

/// The extension under which a file is stored: what follows the last
/// point of its name, all of the name where it has no point, and `jpg`
/// where it has no name.
pub open spec fn extension_of(file_name: Option<String>) -> Seq<char> {
    match file_name {
        Some(name) => after_last(name@, '.'),
        None => DEFAULT_EXTENSION@,
    }
}

/// The name of the stored object: the upload folder, the identifier, a
/// point, the extension.
pub open spec fn object_name_for(object_id: Seq<char>, extension: Seq<char>) -> Seq<char> {
    UPLOAD_FOLDER@ + object_id + seq!['.'] + extension
}

/// The address under which a stored object can be fetched.
pub open spec fn public_url_for(
    bucket: Seq<char>,
    object_name: Seq<char>,
    token: Seq<char>,
) -> Seq<char> {
    DOWNLOAD_HOST@ + bucket + "/o/"@ + percent_encoded(encode_utf8(object_name))
        + "?alt=media&token="@ + token
}

/// What is to be stored, and where.
#[derive(Debug)]
pub struct UploadPlan {
    pub bucket: String,
    pub object_name: String,
    pub content_type: String,
    pub download_token: String,
    pub data: Vec<u8>,
}

/// Plans an upload under the given identifiers.
///
/// `project_id` is what the credentials gave: the name of the project, or
/// the reason why they could not be read. `object_id` names the object,
/// `token` lets it be downloaded.
pub fn plan_upload_with(
    checked: CheckedUpload,
    project_id: Result<String, String>,
    object_id: &str,
    token: &str,
) -> (r: Result<UploadPlan, AppError>)
    ensures
        match project_id {
            Ok(project) => {
                &&& r is Ok
                &&& r.unwrap().bucket@ == bucket_for(checked.bucket_name, project@)
                &&& r.unwrap().object_name@ == object_name_for(
                    object_id@,
                    extension_of(checked.original_filename),
                )
                &&& r.unwrap().content_type@ == checked.media_type@
                &&& r.unwrap().download_token@ == token@
                &&& r.unwrap().data == checked.data
            },
            Err(cause) => r is Err && r.unwrap_err().says(
                400,
                UploadFault::BadCredentials.message_text(cause@),
            ),
        },
{
    let project = match project_id {
        Ok(project) => project,
        Err(cause) => {
            return Err(UploadFault::BadCredentials.report(cause.as_str()));
        },
    };
    let bucket = match checked.bucket_name {
        Some(name) => name,
        None => project.concat(BUCKET_SUFFIX),
    };
    let extension = match &checked.original_filename {
        Some(name) => last_part(name.as_str(), '.'),
        None => DEFAULT_EXTENSION.to_owned(),
    };
    let object_name = UPLOAD_FOLDER.to_owned().concat(object_id).concat(".").concat(
        extension.as_str(),
    );
    proof {
        reveal_strlit(".");
        assert("."@ =~= seq!['.']);
    }
    Ok(
        UploadPlan {
            bucket,
            object_name,
            content_type: checked.media_type,
            download_token: token.to_owned(),
            data: checked.data,
        },
    )
}

/// Plans an upload: draws a fresh identifier for the object and a fresh
/// download token, and plans under them.
pub fn plan_upload(checked: CheckedUpload, project_id: Result<String, String>) -> (r: Result<
    UploadPlan,
    AppError,
>)
    ensures
        match project_id {
            Ok(project) => {
                &&& r is Ok
                &&& r.unwrap().bucket@ == bucket_for(checked.bucket_name, project@)
                &&& exists|object_id: Seq<char>|
                    r.unwrap().object_name@ == #[trigger] object_name_for(
                        object_id,
                        extension_of(checked.original_filename),
                    )
                &&& r.unwrap().content_type@ == checked.media_type@
                &&& r.unwrap().data == checked.data
            },
            Err(cause) => r is Err && r.unwrap_err().says(
                400,
                UploadFault::BadCredentials.message_text(cause@),
            ),
        },
{
    let object_id = random_id();
    let token = random_id();
    let r = plan_upload_with(checked, project_id, object_id.as_str(), token.as_str());
    proof {
        if project_id is Ok {
            assert(r.unwrap().object_name@ == object_name_for(
                object_id@,
                extension_of(checked.original_filename),
            ));
        }
    }
    r
}

impl UploadPlan {
    /// The size of the file, in bytes.
    pub fn size(&self) -> (size: u64)
        ensures
            size == self.data@.len(),
    {
        self.data.len() as u64
    }

    /// The address under which the object can be fetched once it is
    /// stored.
    pub fn public_url(&self) -> (url: String)
        ensures
            url@ == public_url_for(self.bucket@, self.object_name@, self.download_token@),
    {
        let encoded = url_encode(self.object_name.as_str());
        DOWNLOAD_HOST.to_owned().concat(self.bucket.as_str()).concat("/o/").concat(
            encoded.as_str(),
        ).concat("?alt=media&token=").concat(self.download_token.as_str())
    }

    /// What the client is told once the object is stored.
    pub fn response(&self) -> (response: UploadResponse)
        ensures
            response.url@ == public_url_for(self.bucket@, self.object_name@, self.download_token@),
            response.filename@ == self.object_name@,
            response.size == self.data@.len(),
    {
        UploadResponse {
            url: self.public_url(),
            filename: self.object_name.clone(),
            size: self.size(),
        }
    }
}

} // verus!
