//! The typed records the service exchanges: response entries and request
//! descriptions.
//!
//! Every type carries a mathematical view (`@`) over character sequences and
//! plain values; the contracts of the dispatcher and the builders speak of
//! those views.

use vstd::prelude::*;
use vstd::string::StringExecFns;

verus! {

/// How long a stored file will be kept: the service reports either a number
/// of milliseconds or a human-readable string, chosen by a request flag.
#[derive(Debug, Clone)]
pub enum RetentionPeriod {
    /// Remaining lifetime in milliseconds.
    Millis(u64),
    /// Remaining lifetime as formatted text.
    Text(String),
}

/// View of [`RetentionPeriod`].
pub enum RetentionPeriodV {
    Millis(u64),
    Text(Seq<char>),
}

impl View for RetentionPeriod {
    type V = RetentionPeriodV;

    open spec fn view(&self) -> RetentionPeriodV {
        match self {
            RetentionPeriod::Millis(n) => RetentionPeriodV::Millis(*n),
            RetentionPeriod::Text(s) => RetentionPeriodV::Text(s@),
        }
    }
}

impl DeepView for RetentionPeriod {
    type V = RetentionPeriodV;

    open spec fn deep_view(&self) -> RetentionPeriodV {
        self.view()
    }
}

/// Response options attached to an uploaded file.
#[derive(Debug, Clone, Copy, PartialEq, Eq, Structural)]
pub struct WaifuFileOptions {
    /// If the filename is hidden.
    pub hide_filename: bool,
    /// If the file will be deleted when it is accessed.
    pub one_time_download: bool,
    /// If the file requires a password.
    pub protected: bool,
}

impl View for WaifuFileOptions {
    type V = WaifuFileOptions;

    open spec fn view(&self) -> WaifuFileOptions {
        *self
    }
}

impl DeepView for WaifuFileOptions {
    type V = WaifuFileOptions;

    open spec fn deep_view(&self) -> WaifuFileOptions {
        *self
    }
}

/// Album metadata embedded inside a file entry: a lightweight cross-reference
/// to the album a file belongs to, without the album's file contents.
#[derive(Debug, Clone)]
pub struct WaifuAlbumMetadata {
    /// Album token.
    pub token: String,
    /// Public token, if the album is shared.
    pub public_token: Option<String>,
    /// Album name.
    pub name: String,
    /// Name of the owning bucket.
    pub bucket: String,
    /// Creation timestamp of the album.
    pub date_created: u64,
}

/// View of [`WaifuAlbumMetadata`].
pub struct AlbumMetadataV {
    pub token: Seq<char>,
    pub public_token: Option<Seq<char>>,
    pub name: Seq<char>,
    pub bucket: Seq<char>,
    pub date_created: u64,
}

impl View for WaifuAlbumMetadata {
    type V = AlbumMetadataV;

    open spec fn view(&self) -> AlbumMetadataV {
        AlbumMetadataV {
            token: self.token@,
            public_token: self.public_token.deep_view(),
            name: self.name@,
            bucket: self.bucket@,
            date_created: self.date_created,
        }
    }
}

impl DeepView for WaifuAlbumMetadata {
    type V = AlbumMetadataV;

    open spec fn deep_view(&self) -> AlbumMetadataV {
        self.view()
    }
}

/// Information the service returns about one stored file.
#[derive(Debug, Clone)]
pub struct WaifuFileEntry {
    /// File token, used for file info and deletion.
    pub token: String,
    /// Location of the uploaded file.
    pub url: String,
    /// Token of the bucket holding the file, if any.
    pub bucket: Option<String>,
    /// Album the file is associated with, if any.
    pub album: Option<WaifuAlbumMetadata>,
    /// Number of views the file has.
    pub views: usize,
    /// How long the file will be kept.
    pub retention_period: RetentionPeriod,
    /// Options attached to the file, if reported.
    pub options: Option<WaifuFileOptions>,
}

/// View of [`WaifuFileEntry`].
pub struct FileEntryV {
    pub token: Seq<char>,
    pub url: Seq<char>,
    pub bucket: Option<Seq<char>>,
    pub album: Option<AlbumMetadataV>,
    pub views: usize,
    pub retention_period: RetentionPeriodV,
    pub options: Option<WaifuFileOptions>,
}

impl View for WaifuFileEntry {
    type V = FileEntryV;

    open spec fn view(&self) -> FileEntryV {
        FileEntryV {
            token: self.token@,
            url: self.url@,
            bucket: self.bucket.deep_view(),
            album: self.album.deep_view(),
            views: self.views,
            retention_period: self.retention_period@,
            options: self.options.deep_view(),
        }
    }
}

impl DeepView for WaifuFileEntry {
    type V = FileEntryV;

    open spec fn deep_view(&self) -> FileEntryV {
        self.view()
    }
}

/// Information the service returns about a bucket.
#[derive(Debug, Clone)]
pub struct WaifuBucketEntry {
    /// Bucket token.
    pub token: String,
    /// Files contained within the bucket.
    pub files: Vec<WaifuFileEntry>,
    /// Albums associated with the bucket, if any.
    pub albums: Option<Vec<WaifuAlbumMetadata>>,
}

/// View of [`WaifuBucketEntry`].
pub struct BucketEntryV {
    pub token: Seq<char>,
    pub files: Seq<FileEntryV>,
    pub albums: Option<Seq<AlbumMetadataV>>,
}

impl View for WaifuBucketEntry {
    type V = BucketEntryV;

    open spec fn view(&self) -> BucketEntryV {
        BucketEntryV {
            token: self.token@,
            files: self.files.deep_view(),
            albums: self.albums.deep_view(),
        }
    }
}

impl DeepView for WaifuBucketEntry {
    type V = BucketEntryV;

    open spec fn deep_view(&self) -> BucketEntryV {
        self.view()
    }
}

/// Information the service returns about an album.
#[derive(Debug, Clone)]
pub struct WaifuAlbumEntry {
    /// Album token.
    pub token: String,
    /// Token of the owning bucket.
    pub bucket_token: String,
    /// Public token, if the album is shared.
    pub public_token: Option<String>,
    /// Name of the album.
    pub name: String,
    /// Files contained within the album.
    pub files: Vec<WaifuFileEntry>,
}

/// View of [`WaifuAlbumEntry`].
pub struct AlbumEntryV {
    pub token: Seq<char>,
    pub bucket_token: Seq<char>,
    pub public_token: Option<Seq<char>>,
    pub name: Seq<char>,
    pub files: Seq<FileEntryV>,
}

impl View for WaifuAlbumEntry {
    type V = AlbumEntryV;

    open spec fn view(&self) -> AlbumEntryV {
        AlbumEntryV {
            token: self.token@,
            bucket_token: self.bucket_token@,
            public_token: self.public_token.deep_view(),
            name: self.name@,
            files: self.files.deep_view(),
        }
    }
}

impl DeepView for WaifuAlbumEntry {
    type V = AlbumEntryV;

    open spec fn deep_view(&self) -> AlbumEntryV {
        self.view()
    }
}

/// Generic success / failure message for fire-and-forget operations.
#[derive(Debug, Clone)]
pub struct WaifuGenericMessage {
    /// Whether the operation succeeded.
    pub success: bool,
    /// Description provided by the service.
    pub description: String,
}

/// View of [`WaifuGenericMessage`].
pub struct GenericMessageV {
    pub success: bool,
    pub description: Seq<char>,
}

impl View for WaifuGenericMessage {
    type V = GenericMessageV;

    open spec fn view(&self) -> GenericMessageV {
        GenericMessageV { success: self.success, description: self.description@ }
    }
}

impl DeepView for WaifuGenericMessage {
    type V = GenericMessageV;

    open spec fn deep_view(&self) -> GenericMessageV {
        self.view()
    }
}

/// The service's own error envelope; its fields are kept verbatim so callers
/// can inspect them.
#[derive(Debug, Clone)]
pub struct WaifuError {
    /// Name of the error, conventionally the HTTP exception class.
    pub name: String,
    /// What went wrong.
    pub message: String,
    /// The HTTP status.
    pub status: u16,
}

/// View of [`WaifuError`].
pub struct WaifuErrorV {
    pub name: Seq<char>,
    pub message: Seq<char>,
    pub status: u16,
}

impl View for WaifuError {
    type V = WaifuErrorV;

    open spec fn view(&self) -> WaifuErrorV {
        WaifuErrorV { name: self.name@, message: self.message@, status: self.status }
    }
}

impl DeepView for WaifuError {
    type V = WaifuErrorV;

    open spec fn deep_view(&self) -> WaifuErrorV {
        self.view()
    }
}

/// Text describing a service error.
pub open spec fn spec_error_text(e: WaifuErrorV) -> Seq<char> {
    "WaifuError "@ + e.name + " ("@ + crate::render::spec_dec(e.status as int) + ")\nMessage: "@
        + e.message
}

impl WaifuError {
    /// One-line-per-part human-readable description of the error.
    pub fn describe(&self) -> (r: String)
        ensures
            r@ == spec_error_text(self@),
    {
        let mut out = String::from_str("WaifuError ");
        out.append(self.name.as_str());
        out.append(" (");
        crate::render::push_dec(&mut out, self.status as u64);
        out.append(")\nMessage: ");
        out.append(self.message.as_str());
        out
    }
}

/// Description of an upload: exactly one content source (a local file path, a
/// remote URL, or raw bytes with a filename) plus optional metadata.
#[derive(Debug, Clone)]
pub struct WaifuUploadRequest {
    /// Path to a file to upload.
    pub file: Option<String>,
    /// URL of a resource to upload.
    pub url: Option<String>,
    /// Raw bytes to upload.
    pub bytes: Option<Vec<u8>>,
    /// Token of the bucket to upload to.
    pub bucket: Option<String>,
    /// Filename to be used when uploading raw bytes.
    pub filename: Option<String>,
    /// Expiry for the content: a number and a unit letter (m, h or d). Leave
    /// unset to keep the file for as long as the retention policy allows.
    pub expires: Option<String>,
    /// Hide the filename from the generated URL.
    pub hide_filename: bool,
    /// Password protecting the file; the file can then only be retrieved
    /// with the matching password header.
    pub password: Option<String>,
    /// Delete the file after first access.
    pub one_time_download: bool,
}

/// View of [`WaifuUploadRequest`].
pub struct UploadRequestV {
    pub file: Option<Seq<char>>,
    pub url: Option<Seq<char>>,
    pub bytes: Option<Seq<u8>>,
    pub bucket: Option<Seq<char>>,
    pub filename: Option<Seq<char>>,
    pub expires: Option<Seq<char>>,
    pub hide_filename: bool,
    pub password: Option<Seq<char>>,
    pub one_time_download: bool,
}

impl UploadRequestV {
    /// The request every upload starts from: nothing set.
    pub open spec fn initial() -> UploadRequestV {
        UploadRequestV {
            file: None,
            url: None,
            bytes: None,
            bucket: None,
            filename: None,
            expires: None,
            hide_filename: false,
            password: None,
            one_time_download: false,
        }
    }
}

impl View for WaifuUploadRequest {
    type V = UploadRequestV;

    open spec fn view(&self) -> UploadRequestV {
        UploadRequestV {
            file: self.file.deep_view(),
            url: self.url.deep_view(),
            bytes: self.bytes.deep_view(),
            bucket: self.bucket.deep_view(),
            filename: self.filename.deep_view(),
            expires: self.expires.deep_view(),
            hide_filename: self.hide_filename,
            password: self.password.deep_view(),
            one_time_download: self.one_time_download,
        }
    }
}

impl Default for WaifuUploadRequest {
    /// An upload request with nothing set.
    fn default() -> (r: Self)
        ensures
            r@ == UploadRequestV::initial(),
    {
        WaifuUploadRequest {
            file: None,
            url: None,
            bytes: None,
            bucket: None,
            filename: None,
            expires: None,
            hide_filename: false,
            password: None,
            one_time_download: false,
        }
    }
}

impl WaifuUploadRequest {
    /// Create a new upload request.
    pub fn new() -> (r: Self)
        ensures
            r@ == UploadRequestV::initial(),
    {
        Self::default()
    }

    /// Sets the file field on the request.
    pub fn file(self, file: &str) -> (r: Self)
        ensures
            r@ == (UploadRequestV { file: Some(file@), ..self@ }),
    {
        WaifuUploadRequest { file: Some(file.to_owned()), ..self }
    }

    /// Sets the url field on the request.
    pub fn url(self, url: &str) -> (r: Self)
        ensures
            r@ == (UploadRequestV { url: Some(url@), ..self@ }),
    {
        WaifuUploadRequest { url: Some(url.to_owned()), ..self }
    }

    /// Sets the bytes field on the request.
    pub fn bytes(self, bytes: Vec<u8>, filename: &str) -> (r: Self)
        ensures
            r@ == (UploadRequestV { bytes: Some(bytes@), filename: Some(filename@), ..self@ }),
    {
        proof {
            assert(bytes.deep_view() =~= bytes@);
        }
        WaifuUploadRequest { bytes: Some(bytes), filename: Some(filename.to_owned()), ..self }
    }

    /// Sets the bucket token on the request.
    pub fn bucket(self, token: &str) -> (r: Self)
        ensures
            r@ == (UploadRequestV { bucket: Some(token@), ..self@ }),
    {
        WaifuUploadRequest { bucket: Some(token.to_owned()), ..self }
    }

    /// Sets the expires field on the request.
    pub fn expires(self, expires: &str) -> (r: Self)
        ensures
            r@ == (UploadRequestV { expires: Some(expires@), ..self@ }),
    {
        WaifuUploadRequest { expires: Some(expires.to_owned()), ..self }
    }

    /// Sets the hide_filename field on the request.
    pub fn hide_filename(self, hide: bool) -> (r: Self)
        ensures
            r@ == (UploadRequestV { hide_filename: hide, ..self@ }),
    {
        WaifuUploadRequest { hide_filename: hide, ..self }
    }

    /// Sets the password field on the request.
    pub fn password(self, password: &str) -> (r: Self)
        ensures
            r@ == (UploadRequestV { password: Some(password@), ..self@ }),
    {
        WaifuUploadRequest { password: Some(password.to_owned()), ..self }
    }

    /// Sets the one_time_download field on the request.
    pub fn one_time_download(self, otd: bool) -> (r: Self)
        ensures
            r@ == (UploadRequestV { one_time_download: otd, ..self@ }),
    {
        WaifuUploadRequest { one_time_download: otd, ..self }
    }
}

/// Request for information about one stored file.
#[derive(Debug, Clone)]
pub struct WaifuGetRequest {
    /// Token of the file.
    pub token: String,
    /// Whether to report the expiry as human-readable text rather than
    /// milliseconds.
    pub formatted: bool,
}

/// View of [`WaifuGetRequest`].
pub struct GetRequestV {
    pub token: Seq<char>,
    pub formatted: bool,
}

impl View for WaifuGetRequest {
    type V = GetRequestV;

    open spec fn view(&self) -> GetRequestV {
        GetRequestV { token: self.token@, formatted: self.formatted }
    }
}

impl Default for WaifuGetRequest {
    /// A get request with an empty token and the millisecond expiry format.
    fn default() -> (r: Self)
        ensures
            r@ == (GetRequestV { token: Seq::empty(), formatted: false }),
    {
        WaifuGetRequest { token: String::new(), formatted: false }
    }
}

impl WaifuGetRequest {
    /// Create a new get request for the given file token.
    pub fn new(token: &str) -> (r: Self)
        ensures
            r@ == (GetRequestV { token: token@, formatted: false }),
    {
        WaifuGetRequest { token: token.to_owned(), formatted: false }
    }

    /// Set the formatted field on the request.
    pub fn formatted(self, format: bool) -> (r: Self)
        ensures
            r@ == (GetRequestV { formatted: format, ..self@ }),
    {
        WaifuGetRequest { formatted: format, ..self }
    }
}

/// Description of a modification to a stored file: any subset of the fields
/// may be set, and only the set fields are sent, so the service can tell
/// "leave unchanged" from "clear this value".
#[derive(Debug, Clone)]
pub struct WaifuModificationRequest {
    /// Token of the file to modify; part of the path, never of the body.
    pub token: String,
    /// New password for the content.
    pub password: Option<String>,
    /// Previous password, needed when replacing an existing one.
    pub previous_password: Option<String>,
    /// New expiry for the content.
    pub custom_expiry: Option<String>,
    /// New value of the hide-filename flag.
    pub hide_filename: Option<bool>,
}

/// View of [`WaifuModificationRequest`].
pub struct ModificationRequestV {
    pub token: Seq<char>,
    pub password: Option<Seq<char>>,
    pub previous_password: Option<Seq<char>>,
    pub custom_expiry: Option<Seq<char>>,
    pub hide_filename: Option<bool>,
}

impl View for WaifuModificationRequest {
    type V = ModificationRequestV;

    open spec fn view(&self) -> ModificationRequestV {
        ModificationRequestV {
            token: self.token@,
            password: self.password.deep_view(),
            previous_password: self.previous_password.deep_view(),
            custom_expiry: self.custom_expiry.deep_view(),
            hide_filename: self.hide_filename,
        }
    }
}

impl Default for WaifuModificationRequest {
    /// A modification request with an empty token and no field set.
    fn default() -> (r: Self)
        ensures
            r@ == (ModificationRequestV {
                token: Seq::empty(),
                password: None,
                previous_password: None,
                custom_expiry: None,
                hide_filename: None,
            }),
    {
        WaifuModificationRequest {
            token: String::new(),
            password: None,
            previous_password: None,
            custom_expiry: None,
            hide_filename: None,
        }
    }
}

impl WaifuModificationRequest {
    /// Create a new modification request for the given file token, with no
    /// field set.
    pub fn new(token: &str) -> (r: Self)
        ensures
            r@ == (ModificationRequestV {
                token: token@,
                password: None,
                previous_password: None,
                custom_expiry: None,
                hide_filename: None,
            }),
    {
        WaifuModificationRequest {
            token: token.to_owned(),
            password: None,
            previous_password: None,
            custom_expiry: None,
            hide_filename: None,
        }
    }

    /// Set the password field on the request.
    pub fn password(self, password: &str) -> (r: Self)
        ensures
            r@ == (ModificationRequestV { password: Some(password@), ..self@ }),
    {
        WaifuModificationRequest { password: Some(password.to_owned()), ..self }
    }

    /// Set the previous_password field on the request.
    pub fn previous_password(self, prev_pwd: &str) -> (r: Self)
        ensures
            r@ == (ModificationRequestV { previous_password: Some(prev_pwd@), ..self@ }),
    {
        WaifuModificationRequest { previous_password: Some(prev_pwd.to_owned()), ..self }
    }

    /// Set the custom_expiry field on the request.
    pub fn custom_expiry(self, expiry: &str) -> (r: Self)
        ensures
            r@ == (ModificationRequestV { custom_expiry: Some(expiry@), ..self@ }),
    {
        WaifuModificationRequest { custom_expiry: Some(expiry.to_owned()), ..self }
    }

    /// Set the hide_filename field on the request.
    pub fn hide_filename(self, hide: bool) -> (r: Self)
        ensures
            r@ == (ModificationRequestV { hide_filename: Some(hide), ..self@ }),
    {
        WaifuModificationRequest { hide_filename: Some(hide), ..self }
    }
}

} // verus!
