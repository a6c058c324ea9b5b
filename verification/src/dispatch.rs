//! The response-envelope dispatcher.
//!
//! Every endpoint of the service answers with one untagged JSON shape (or a
//! bare boolean for deletions). The dispatcher classifies a decoded value by
//! trying structural matches in a fixed priority order — file entry, album
//! entry, bucket entry, generic message, error envelope, boolean — and
//! converts the winning shape into its typed record. The order is
//! load-bearing: an album entry also carries `token` and `files`, so it must
//! be tried before the less specific bucket shape.

use vstd::prelude::*;

use crate::api::AlbumEntryV;
use crate::api::AlbumMetadataV;
use crate::api::BucketEntryV;
use crate::api::FileEntryV;
use crate::api::GenericMessageV;
use crate::api::RetentionPeriod;
use crate::api::RetentionPeriodV;
use crate::api::WaifuAlbumEntry;
use crate::api::WaifuAlbumMetadata;
use crate::api::WaifuBucketEntry;
use crate::api::WaifuError;
use crate::api::WaifuErrorV;
use crate::api::WaifuFileEntry;
use crate::api::WaifuFileOptions;
use crate::api::WaifuGenericMessage;
use crate::error::ProtocolError;
use crate::error::VaultError;
use crate::json::JsonValue;
use crate::json::obj_get;
use crate::json::spec_lookup;

verus! {

/// The field list of a JSON object, if the value is an object.
pub open spec fn spec_fields_of(v: JsonValue) -> Option<Seq<(String, JsonValue)>> {
    match v {
        JsonValue::Obj(fields) => Some(fields@),
        _ => None,
    }
}

/// A required string field: present and a string, else no match.
pub open spec fn spec_req_str(fields: Seq<(String, JsonValue)>, key: Seq<char>) -> Option<
    Seq<char>,
> {
    match spec_lookup(fields, key) {
        Some(JsonValue::Str(s)) => Some(s@),
        _ => None,
    }
}

/// A required boolean field.
pub open spec fn spec_req_bool(fields: Seq<(String, JsonValue)>, key: Seq<char>) -> Option<bool> {
    match spec_lookup(fields, key) {
        Some(JsonValue::Bool(b)) => Some(b),
        _ => None,
    }
}

/// A required non-negative integer field.
pub open spec fn spec_req_u64(fields: Seq<(String, JsonValue)>, key: Seq<char>) -> Option<u64> {
    match spec_lookup(fields, key) {
        Some(JsonValue::UInt(n)) => Some(n),
        _ => None,
    }
}

/// An optional string field: absent or `null` counts as unset, a string
/// matches, and any other value breaks the shape (the outer `None`).
pub open spec fn spec_opt_str(fields: Seq<(String, JsonValue)>, key: Seq<char>) -> Option<
    Option<Seq<char>>,
> {
    match spec_lookup(fields, key) {
        None => Some(None),
        Some(JsonValue::Null) => Some(None),
        Some(JsonValue::Str(s)) => Some(Some(s@)),
        Some(_) => None,
    }
}

/// Shape of the options record attached to a file entry: the three booleans,
/// all required.
pub open spec fn spec_parse_options(v: JsonValue) -> Option<WaifuFileOptions> {
    match spec_fields_of(v) {
        None => None,
        Some(fields) => {
            let hide = spec_req_bool(fields, "hideFilename"@);
            let once = spec_req_bool(fields, "oneTimeDownload"@);
            let protected = spec_req_bool(fields, "protected"@);
            if hide is Some && once is Some && protected is Some {
                Some(
                    WaifuFileOptions {
                        hide_filename: hide->Some_0,
                        one_time_download: once->Some_0,
                        protected: protected->Some_0,
                    },
                )
            } else {
                None
            }
        },
    }
}

/// Shape of the album metadata embedded in a file entry.
pub open spec fn spec_parse_album_meta(v: JsonValue) -> Option<AlbumMetadataV> {
    match spec_fields_of(v) {
        None => None,
        Some(fields) => {
            let token = spec_req_str(fields, "token"@);
            let public_token = spec_opt_str(fields, "publicToken"@);
            let name = spec_req_str(fields, "name"@);
            let bucket = spec_req_str(fields, "bucket"@);
            let date_created = spec_req_u64(fields, "dateCreated"@);
            if token is Some && public_token is Some && name is Some && bucket is Some
                && date_created is Some {
                Some(
                    AlbumMetadataV {
                        token: token->Some_0,
                        public_token: public_token->Some_0,
                        name: name->Some_0,
                        bucket: bucket->Some_0,
                        date_created: date_created->Some_0,
                    },
                )
            } else {
                None
            }
        },
    }
}

/// The album reference of a file entry: absent or `null` counts as no album,
/// an album-metadata object matches, anything else breaks the shape.
pub open spec fn spec_opt_album(fields: Seq<(String, JsonValue)>) -> Option<
    Option<AlbumMetadataV>,
> {
    match spec_lookup(fields, "album"@) {
        None => Some(None),
        Some(JsonValue::Null) => Some(None),
        Some(av) => match spec_parse_album_meta(av) {
            Some(m) => Some(Some(m)),
            None => None,
        },
    }
}

/// The retention descriptor of a file entry: a number of milliseconds or a
/// human-readable string, required.
pub open spec fn spec_retention(fields: Seq<(String, JsonValue)>) -> Option<RetentionPeriodV> {
    match spec_lookup(fields, "retentionPeriod"@) {
        Some(JsonValue::UInt(n)) => Some(RetentionPeriodV::Millis(n)),
        Some(JsonValue::Str(s)) => Some(RetentionPeriodV::Text(s@)),
        _ => None,
    }
}

/// The options record of a file entry: absent or `null` counts as unset.
pub open spec fn spec_opt_options(fields: Seq<(String, JsonValue)>) -> Option<
    Option<WaifuFileOptions>,
> {
    match spec_lookup(fields, "options"@) {
        None => Some(None),
        Some(JsonValue::Null) => Some(None),
        Some(ov) => match spec_parse_options(ov) {
            Some(o) => Some(Some(o)),
            None => None,
        },
    }
}

/// Shape of a file entry: `token`, `url`, `views` and `retentionPeriod`
/// required, the rest optional.
pub open spec fn spec_parse_file(v: JsonValue) -> Option<FileEntryV> {
    match spec_fields_of(v) {
        None => None,
        Some(fields) => {
            let token = spec_req_str(fields, "token"@);
            let url = spec_req_str(fields, "url"@);
            let views = spec_req_u64(fields, "views"@);
            let bucket = spec_opt_str(fields, "bucket"@);
            let album = spec_opt_album(fields);
            let retention = spec_retention(fields);
            let options = spec_opt_options(fields);
            if token is Some && url is Some && views is Some && views->Some_0 <= usize::MAX as u64
                && bucket is Some && album is Some && retention is Some && options is Some {
                Some(
                    FileEntryV {
                        token: token->Some_0,
                        url: url->Some_0,
                        bucket: bucket->Some_0,
                        album: album->Some_0,
                        views: views->Some_0 as usize,
                        retention_period: retention->Some_0,
                        options: options->Some_0,
                    },
                )
            } else {
                None
            }
        },
    }
}

/// Whether every element of an array matches the file-entry shape.
pub open spec fn spec_all_files_ok(a: Seq<JsonValue>) -> bool {
    forall|i: int| 0 <= i < a.len() ==> spec_parse_file(#[trigger] a[i]) is Some
}

/// Shape of an array of file entries: every element must match.
pub open spec fn spec_parse_file_seq(a: Seq<JsonValue>) -> Option<Seq<FileEntryV>> {
    if spec_all_files_ok(a) {
        Some(Seq::new(a.len(), |i: int| spec_parse_file(a[i])->Some_0))
    } else {
        None
    }
}

/// Whether every element of an array matches the album-metadata shape.
pub open spec fn spec_all_metas_ok(a: Seq<JsonValue>) -> bool {
    forall|i: int| 0 <= i < a.len() ==> spec_parse_album_meta(#[trigger] a[i]) is Some
}

/// Shape of an array of album metadata: every element must match.
pub open spec fn spec_parse_meta_seq(a: Seq<JsonValue>) -> Option<Seq<AlbumMetadataV>> {
    if spec_all_metas_ok(a) {
        Some(Seq::new(a.len(), |i: int| spec_parse_album_meta(a[i])->Some_0))
    } else {
        None
    }
}

/// Shape of a bucket entry: `token` and `files` required, `albums` optional,
/// and no `bucketToken` — an object carrying `bucketToken` is an album entry,
/// never a bucket.
pub open spec fn spec_parse_bucket(v: JsonValue) -> Option<BucketEntryV> {
    match spec_fields_of(v) {
        None => None,
        Some(fields) => {
            let token = spec_req_str(fields, "token"@);
            let files = match spec_lookup(fields, "files"@) {
                Some(JsonValue::Arr(a)) => spec_parse_file_seq(a@),
                _ => None,
            };
            let albums = match spec_lookup(fields, "albums"@) {
                None => Some(None),
                Some(JsonValue::Null) => Some(None),
                Some(JsonValue::Arr(a)) => match spec_parse_meta_seq(a@) {
                    Some(ms) => Some(Some(ms)),
                    None => None,
                },
                Some(_) => None,
            };
            if token is Some && files is Some && albums is Some && spec_lookup(
                fields,
                "bucketToken"@,
            ) is None {
                Some(
                    BucketEntryV {
                        token: token->Some_0,
                        files: files->Some_0,
                        albums: albums->Some_0,
                    },
                )
            } else {
                None
            }
        },
    }
}

/// Shape of an album entry: `token`, `bucketToken`, `name` and `files`
/// required, `publicToken` optional.
pub open spec fn spec_parse_album(v: JsonValue) -> Option<AlbumEntryV> {
    match spec_fields_of(v) {
        None => None,
        Some(fields) => {
            let token = spec_req_str(fields, "token"@);
            let bucket_token = spec_req_str(fields, "bucketToken"@);
            let public_token = spec_opt_str(fields, "publicToken"@);
            let name = spec_req_str(fields, "name"@);
            let files = match spec_lookup(fields, "files"@) {
                Some(JsonValue::Arr(a)) => spec_parse_file_seq(a@),
                _ => None,
            };
            if token is Some && bucket_token is Some && public_token is Some && name is Some
                && files is Some {
                Some(
                    AlbumEntryV {
                        token: token->Some_0,
                        bucket_token: bucket_token->Some_0,
                        public_token: public_token->Some_0,
                        name: name->Some_0,
                        files: files->Some_0,
                    },
                )
            } else {
                None
            }
        },
    }
}

/// Shape of a generic message: `success` and `description` required, and no
/// `token` — an object carrying `token` is one of the entry shapes.
pub open spec fn spec_parse_generic(v: JsonValue) -> Option<GenericMessageV> {
    match spec_fields_of(v) {
        None => None,
        Some(fields) => {
            let success = spec_req_bool(fields, "success"@);
            let description = spec_req_str(fields, "description"@);
            if success is Some && description is Some && spec_lookup(fields, "token"@) is None {
                Some(
                    GenericMessageV {
                        success: success->Some_0,
                        description: description->Some_0,
                    },
                )
            } else {
                None
            }
        },
    }
}

/// Shape of the error envelope: `name`, `message` and a `status` that fits an
/// HTTP status code, all required and kept verbatim.
pub open spec fn spec_parse_error(v: JsonValue) -> Option<WaifuErrorV> {
    match spec_fields_of(v) {
        None => None,
        Some(fields) => {
            let name = spec_req_str(fields, "name"@);
            let message = spec_req_str(fields, "message"@);
            let status = spec_req_u64(fields, "status"@);
            if name is Some && message is Some && status is Some && status->Some_0
                <= u16::MAX as u64 {
                Some(
                    WaifuErrorV {
                        name: name->Some_0,
                        message: message->Some_0,
                        status: status->Some_0 as u16,
                    },
                )
            } else {
                None
            }
        },
    }
}

/// Looks a required string field up and clones it.
fn get_req_str(fields: &Vec<(String, JsonValue)>, key: &str) -> (r: Option<String>)
    ensures
        match r {
            Some(s) => spec_req_str(fields@, key@) == Some(s@),
            None => spec_req_str(fields@, key@) is None,
        },
{
    match obj_get(fields, key) {
        Some(JsonValue::Str(s)) => Some(s.clone()),
        _ => None,
    }
}

/// Looks a required boolean field up.
fn get_req_bool(fields: &Vec<(String, JsonValue)>, key: &str) -> (r: Option<bool>)
    ensures
        r == spec_req_bool(fields@, key@),
{
    match obj_get(fields, key) {
        Some(JsonValue::Bool(b)) => Some(*b),
        _ => None,
    }
}

/// Looks a required integer field up.
fn get_req_u64(fields: &Vec<(String, JsonValue)>, key: &str) -> (r: Option<u64>)
    ensures
        r == spec_req_u64(fields@, key@),
{
    match obj_get(fields, key) {
        Some(JsonValue::UInt(n)) => Some(*n),
        _ => None,
    }
}

/// Looks an optional string field up; the outer `None` reports a value of the
/// wrong kind.
fn get_opt_str(fields: &Vec<(String, JsonValue)>, key: &str) -> (r: Option<Option<String>>)
    ensures
        match r {
            Some(o) => spec_opt_str(fields@, key@) == Some(o.deep_view()),
            None => spec_opt_str(fields@, key@) is None,
        },
{
    match obj_get(fields, key) {
        None => Some(None),
        Some(JsonValue::Null) => Some(None),
        Some(JsonValue::Str(s)) => Some(Some(s.clone())),
        Some(_) => None,
    }
}

/// Parses the options record of a file entry.
pub fn parse_options(v: &JsonValue) -> (r: Option<WaifuFileOptions>)
    ensures
        r == spec_parse_options(*v),
{
    match v {
        JsonValue::Obj(fields) => {
            let hide = get_req_bool(fields, "hideFilename");
            let once = get_req_bool(fields, "oneTimeDownload");
            let protected = get_req_bool(fields, "protected");
            match (hide, once, protected) {
                (Some(h), Some(o), Some(p)) => Some(
                    WaifuFileOptions { hide_filename: h, one_time_download: o, protected: p },
                ),
                _ => None,
            }
        },
        _ => None,
    }
}

/// Parses the album metadata embedded in a file entry.
pub fn parse_album_meta(v: &JsonValue) -> (r: Option<WaifuAlbumMetadata>)
    ensures
        match r {
            Some(m) => spec_parse_album_meta(*v) == Some(m@),
            None => spec_parse_album_meta(*v) is None,
        },
{
    match v {
        JsonValue::Obj(fields) => {
            let token = get_req_str(fields, "token");
            let public_token = get_opt_str(fields, "publicToken");
            let name = get_req_str(fields, "name");
            let bucket = get_req_str(fields, "bucket");
            let date_created = get_req_u64(fields, "dateCreated");
            match (token, public_token, name, bucket, date_created) {
                (Some(t), Some(p), Some(n), Some(b), Some(d)) => Some(
                    WaifuAlbumMetadata {
                        token: t,
                        public_token: p,
                        name: n,
                        bucket: b,
                        date_created: d,
                    },
                ),
                _ => None,
            }
        },
        _ => None,
    }
}

/// Parses a file entry.
pub fn parse_file_entry(v: &JsonValue) -> (r: Option<WaifuFileEntry>)
    ensures
        match r {
            Some(e) => spec_parse_file(*v) == Some(e@),
            None => spec_parse_file(*v) is None,
        },
{
    match v {
        JsonValue::Obj(fields) => {
            let token = get_req_str(fields, "token");
            let url = get_req_str(fields, "url");
            let views = get_req_u64(fields, "views");
            let bucket = get_opt_str(fields, "bucket");
            let album: Option<Option<WaifuAlbumMetadata>> = match obj_get(fields, "album") {
                None => Some(None),
                Some(JsonValue::Null) => Some(None),
                Some(av) => match parse_album_meta(av) {
                    Some(m) => Some(Some(m)),
                    None => None,
                },
            };
            let retention: Option<RetentionPeriod> = match obj_get(fields, "retentionPeriod") {
                Some(JsonValue::UInt(n)) => Some(RetentionPeriod::Millis(*n)),
                Some(JsonValue::Str(s)) => Some(RetentionPeriod::Text(s.clone())),
                _ => None,
            };
            let options: Option<Option<WaifuFileOptions>> = match obj_get(fields, "options") {
                None => Some(None),
                Some(JsonValue::Null) => Some(None),
                Some(ov) => match parse_options(ov) {
                    Some(o) => Some(Some(o)),
                    None => None,
                },
            };
            match (token, url, views, bucket, album, retention, options) {
                (Some(t), Some(u), Some(n), Some(b), Some(a), Some(rp), Some(o)) => {
                    if n <= usize::MAX as u64 {
                        Some(
                            WaifuFileEntry {
                                token: t,
                                url: u,
                                bucket: b,
                                album: a,
                                views: n as usize,
                                retention_period: rp,
                                options: o,
                            },
                        )
                    } else {
                        None
                    }
                },
                _ => None,
            }
        },
        _ => None,
    }
}

/// Parses an array of file entries; every element must match.
pub fn parse_file_seq(a: &Vec<JsonValue>) -> (r: Option<Vec<WaifuFileEntry>>)
    ensures
        match r {
            Some(es) => spec_parse_file_seq(a@) == Some(es.deep_view()),
            None => spec_parse_file_seq(a@) is None,
        },
{
    let mut out: Vec<WaifuFileEntry> = Vec::new();
    let mut i: usize = 0;
    while i < a.len()
        invariant
            i <= a.len(),
            out.len() == i,
            forall|j: int| 0 <= j < i ==> spec_parse_file(#[trigger] a@[j]) is Some,
            forall|j: int|
                0 <= j < i ==> out.deep_view()[j] == spec_parse_file(#[trigger] a@[j])->Some_0,
        decreases a.len() - i,
    {
        match parse_file_entry(&a[i]) {
            Some(e) => {
                out.push(e);
            },
            None => {
                assert(!spec_all_files_ok(a@));
                return None;
            },
        }
        i += 1;
    }
    proof {
        assert(out.deep_view() =~= Seq::new(a@.len(), |i: int| spec_parse_file(a@[i])->Some_0));
    }
    Some(out)
}

/// Parses an array of album metadata; every element must match.
pub fn parse_meta_seq(a: &Vec<JsonValue>) -> (r: Option<Vec<WaifuAlbumMetadata>>)
    ensures
        match r {
            Some(ms) => spec_parse_meta_seq(a@) == Some(ms.deep_view()),
            None => spec_parse_meta_seq(a@) is None,
        },
{
    let mut out: Vec<WaifuAlbumMetadata> = Vec::new();
    let mut i: usize = 0;
    while i < a.len()
        invariant
            i <= a.len(),
            out.len() == i,
            forall|j: int| 0 <= j < i ==> spec_parse_album_meta(#[trigger] a@[j]) is Some,
            forall|j: int|
                0 <= j < i ==> out.deep_view()[j] == spec_parse_album_meta(
                    #[trigger] a@[j],
                )->Some_0,
        decreases a.len() - i,
    {
        match parse_album_meta(&a[i]) {
            Some(m) => {
                out.push(m);
            },
            None => {
                assert(!spec_all_metas_ok(a@));
                return None;
            },
        }
        i += 1;
    }
    proof {
        assert(out.deep_view() =~= Seq::new(
            a@.len(),
            |i: int| spec_parse_album_meta(a@[i])->Some_0,
        ));
    }
    Some(out)
}

/// Parses a bucket entry.
pub fn parse_bucket_entry(v: &JsonValue) -> (r: Option<WaifuBucketEntry>)
    ensures
        match r {
            Some(e) => spec_parse_bucket(*v) == Some(e@),
            None => spec_parse_bucket(*v) is None,
        },
{
    match v {
        JsonValue::Obj(fields) => {
            let token = get_req_str(fields, "token");
            let files: Option<Vec<WaifuFileEntry>> = match obj_get(fields, "files") {
                Some(JsonValue::Arr(a)) => parse_file_seq(a),
                _ => None,
            };
            let albums: Option<Option<Vec<WaifuAlbumMetadata>>> = match obj_get(fields, "albums") {
                None => Some(None),
                Some(JsonValue::Null) => Some(None),
                Some(JsonValue::Arr(a)) => match parse_meta_seq(a) {
                    Some(ms) => Some(Some(ms)),
                    None => None,
                },
                Some(_) => None,
            };
            let no_bucket_token = obj_get(fields, "bucketToken").is_none();
            match (token, files, albums) {
                (Some(t), Some(fs), Some(al)) => {
                    if no_bucket_token {
                        Some(WaifuBucketEntry { token: t, files: fs, albums: al })
                    } else {
                        None
                    }
                },
                _ => None,
            }
        },
        _ => None,
    }
}

/// Parses an album entry.
pub fn parse_album_entry(v: &JsonValue) -> (r: Option<WaifuAlbumEntry>)
    ensures
        match r {
            Some(e) => spec_parse_album(*v) == Some(e@),
            None => spec_parse_album(*v) is None,
        },
{
    match v {
        JsonValue::Obj(fields) => {
            let token = get_req_str(fields, "token");
            let bucket_token = get_req_str(fields, "bucketToken");
            let public_token = get_opt_str(fields, "publicToken");
            let name = get_req_str(fields, "name");
            let files: Option<Vec<WaifuFileEntry>> = match obj_get(fields, "files") {
                Some(JsonValue::Arr(a)) => parse_file_seq(a),
                _ => None,
            };
            match (token, bucket_token, public_token, name, files) {
                (Some(t), Some(bt), Some(pt), Some(n), Some(fs)) => Some(
                    WaifuAlbumEntry {
                        token: t,
                        bucket_token: bt,
                        public_token: pt,
                        name: n,
                        files: fs,
                    },
                ),
                _ => None,
            }
        },
        _ => None,
    }
}

/// Parses a generic message.
pub fn parse_generic_message(v: &JsonValue) -> (r: Option<WaifuGenericMessage>)
    ensures
        match r {
            Some(m) => spec_parse_generic(*v) == Some(m@),
            None => spec_parse_generic(*v) is None,
        },
{
    match v {
        JsonValue::Obj(fields) => {
            let success = get_req_bool(fields, "success");
            let description = get_req_str(fields, "description");
            let no_token = obj_get(fields, "token").is_none();
            match (success, description) {
                (Some(s), Some(d)) => {
                    if no_token {
                        Some(WaifuGenericMessage { success: s, description: d })
                    } else {
                        None
                    }
                },
                _ => None,
            }
        },
        _ => None,
    }
}

/// Parses the error envelope.
pub fn parse_error(v: &JsonValue) -> (r: Option<WaifuError>)
    ensures
        match r {
            Some(e) => spec_parse_error(*v) == Some(e@),
            None => spec_parse_error(*v) is None,
        },
{
    match v {
        JsonValue::Obj(fields) => {
            let name = get_req_str(fields, "name");
            let message = get_req_str(fields, "message");
            let status = get_req_u64(fields, "status");
            match (name, message, status) {
                (Some(n), Some(m), Some(s)) => {
                    if s <= u16::MAX as u64 {
                        Some(WaifuError { name: n, message: m, status: s as u16 })
                    } else {
                        None
                    }
                },
                _ => None,
            }
        },
        _ => None,
    }
}

/// The classified response: exactly one of the six result kinds.
#[derive(Debug, Clone)]
pub enum WaifuApiResponse {
    /// The response is a file entry.
    WaifuFileResponse(WaifuFileEntry),
    /// The response is an album entry.
    WaifuAlbumResponse(WaifuAlbumEntry),
    /// The response is a bucket entry.
    WaifuBucketResponse(WaifuBucketEntry),
    /// The response is a generic success / failure message.
    WaifuGenericResponse(WaifuGenericMessage),
    /// The response is the service's error envelope.
    WaifuError(WaifuError),
    /// The response is the bare boolean of a delete endpoint.
    Delete(bool),
}

/// View of [`WaifuApiResponse`].
pub enum ApiResponseV {
    File(FileEntryV),
    Album(AlbumEntryV),
    Bucket(BucketEntryV),
    Generic(GenericMessageV),
    Error(WaifuErrorV),
    Delete(bool),
}

impl View for WaifuApiResponse {
    type V = ApiResponseV;

    open spec fn view(&self) -> ApiResponseV {
        match self {
            WaifuApiResponse::WaifuFileResponse(e) => ApiResponseV::File(e@),
            WaifuApiResponse::WaifuAlbumResponse(e) => ApiResponseV::Album(e@),
            WaifuApiResponse::WaifuBucketResponse(e) => ApiResponseV::Bucket(e@),
            WaifuApiResponse::WaifuGenericResponse(m) => ApiResponseV::Generic(m@),
            WaifuApiResponse::WaifuError(e) => ApiResponseV::Error(e@),
            WaifuApiResponse::Delete(b) => ApiResponseV::Delete(*b),
        }
    }
}

/// The classification of a response: structural matches are tried in this
/// priority order — file, album, bucket, generic, error, bare boolean — and
/// the first match wins. `None` means the value matches no known shape.
pub open spec fn spec_classify(v: JsonValue) -> Option<ApiResponseV> {
    if spec_parse_file(v) is Some {
        Some(ApiResponseV::File(spec_parse_file(v)->Some_0))
    } else if spec_parse_album(v) is Some {
        Some(ApiResponseV::Album(spec_parse_album(v)->Some_0))
    } else if spec_parse_bucket(v) is Some {
        Some(ApiResponseV::Bucket(spec_parse_bucket(v)->Some_0))
    } else if spec_parse_generic(v) is Some {
        Some(ApiResponseV::Generic(spec_parse_generic(v)->Some_0))
    } else if spec_parse_error(v) is Some {
        Some(ApiResponseV::Error(spec_parse_error(v)->Some_0))
    } else {
        match v {
            JsonValue::Bool(b) => Some(ApiResponseV::Delete(b)),
            _ => None,
        }
    }
}

/// Classifies a decoded response body into the one result shape it
/// represents, in the documented priority order; `None` reports a malformed
/// response.
pub fn classify_response(v: &JsonValue) -> (r: Option<WaifuApiResponse>)
    ensures
        match r {
            Some(resp) => spec_classify(*v) == Some(resp@),
            None => spec_classify(*v) is None,
        },
{
    if let Some(f) = parse_file_entry(v) {
        return Some(WaifuApiResponse::WaifuFileResponse(f));
    }
    if let Some(a) = parse_album_entry(v) {
        return Some(WaifuApiResponse::WaifuAlbumResponse(a));
    }
    if let Some(b) = parse_bucket_entry(v) {
        return Some(WaifuApiResponse::WaifuBucketResponse(b));
    }
    if let Some(m) = parse_generic_message(v) {
        return Some(WaifuApiResponse::WaifuGenericResponse(m));
    }
    if let Some(e) = parse_error(v) {
        return Some(WaifuApiResponse::WaifuError(e));
    }
    match v {
        JsonValue::Bool(b) => Some(WaifuApiResponse::Delete(*b)),
        _ => None,
    }
}

/// Narrows a response to a file entry, for the endpoints that only ever
/// return one (upload, file info, modification): the error envelope becomes
/// the propagated service error, any other shape is a protocol violation.
pub fn expect_file_entry(v: JsonValue) -> (r: Result<WaifuFileEntry, VaultError>)
    ensures
        match spec_classify(v) {
            Some(ApiResponseV::File(f)) => r matches Ok(e) && e@ == f,
            Some(ApiResponseV::Error(w)) => r matches Err(VaultError::Service(e)) && e@ == w,
            Some(x) => r matches Err(
                VaultError::Protocol(ProtocolError::UnexpectedVariant(resp)),
            ) && resp@ == x,
            None => r matches Err(VaultError::Protocol(ProtocolError::MalformedResponse(b))) && b
                == v,
        },
{
    match classify_response(&v) {
        Some(WaifuApiResponse::WaifuFileResponse(e)) => Ok(e),
        Some(WaifuApiResponse::WaifuError(e)) => Err(VaultError::Service(e)),
        Some(other) => Err(VaultError::Protocol(ProtocolError::UnexpectedVariant(other))),
        None => Err(VaultError::Protocol(ProtocolError::MalformedResponse(v))),
    }
}

/// Narrows a response to a bucket entry, for the bucket create and get
/// endpoints.
pub fn expect_bucket_entry(v: JsonValue) -> (r: Result<WaifuBucketEntry, VaultError>)
    ensures
        match spec_classify(v) {
            Some(ApiResponseV::Bucket(f)) => r matches Ok(e) && e@ == f,
            Some(ApiResponseV::Error(w)) => r matches Err(VaultError::Service(e)) && e@ == w,
            Some(x) => r matches Err(
                VaultError::Protocol(ProtocolError::UnexpectedVariant(resp)),
            ) && resp@ == x,
            None => r matches Err(VaultError::Protocol(ProtocolError::MalformedResponse(b))) && b
                == v,
        },
{
    match classify_response(&v) {
        Some(WaifuApiResponse::WaifuBucketResponse(e)) => Ok(e),
        Some(WaifuApiResponse::WaifuError(e)) => Err(VaultError::Service(e)),
        Some(other) => Err(VaultError::Protocol(ProtocolError::UnexpectedVariant(other))),
        None => Err(VaultError::Protocol(ProtocolError::MalformedResponse(v))),
    }
}

/// Narrows a response to an album entry, for the album create, associate,
/// disassociate and get endpoints.
pub fn expect_album_entry(v: JsonValue) -> (r: Result<WaifuAlbumEntry, VaultError>)
    ensures
        match spec_classify(v) {
            Some(ApiResponseV::Album(f)) => r matches Ok(e) && e@ == f,
            Some(ApiResponseV::Error(w)) => r matches Err(VaultError::Service(e)) && e@ == w,
            Some(x) => r matches Err(
                VaultError::Protocol(ProtocolError::UnexpectedVariant(resp)),
            ) && resp@ == x,
            None => r matches Err(VaultError::Protocol(ProtocolError::MalformedResponse(b))) && b
                == v,
        },
{
    match classify_response(&v) {
        Some(WaifuApiResponse::WaifuAlbumResponse(e)) => Ok(e),
        Some(WaifuApiResponse::WaifuError(e)) => Err(VaultError::Service(e)),
        Some(other) => Err(VaultError::Protocol(ProtocolError::UnexpectedVariant(other))),
        None => Err(VaultError::Protocol(ProtocolError::MalformedResponse(v))),
    }
}

/// Narrows a response to a generic message, for the album delete, share and
/// revoke endpoints.
pub fn expect_generic_message(v: JsonValue) -> (r: Result<WaifuGenericMessage, VaultError>)
    ensures
        match spec_classify(v) {
            Some(ApiResponseV::Generic(f)) => r matches Ok(e) && e@ == f,
            Some(ApiResponseV::Error(w)) => r matches Err(VaultError::Service(e)) && e@ == w,
            Some(x) => r matches Err(
                VaultError::Protocol(ProtocolError::UnexpectedVariant(resp)),
            ) && resp@ == x,
            None => r matches Err(VaultError::Protocol(ProtocolError::MalformedResponse(b))) && b
                == v,
        },
{
    match classify_response(&v) {
        Some(WaifuApiResponse::WaifuGenericResponse(e)) => Ok(e),
        Some(WaifuApiResponse::WaifuError(e)) => Err(VaultError::Service(e)),
        Some(other) => Err(VaultError::Protocol(ProtocolError::UnexpectedVariant(other))),
        None => Err(VaultError::Protocol(ProtocolError::MalformedResponse(v))),
    }
}

/// Narrows a response to the bare boolean of the delete endpoints.
pub fn expect_delete_confirmation(v: JsonValue) -> (r: Result<bool, VaultError>)
    ensures
        match spec_classify(v) {
            Some(ApiResponseV::Delete(b)) => r == Ok::<bool, VaultError>(b),
            Some(ApiResponseV::Error(w)) => r matches Err(VaultError::Service(e)) && e@ == w,
            Some(x) => r matches Err(
                VaultError::Protocol(ProtocolError::UnexpectedVariant(resp)),
            ) && resp@ == x,
            None => r matches Err(VaultError::Protocol(ProtocolError::MalformedResponse(b))) && b
                == v,
        },
{
    match classify_response(&v) {
        Some(WaifuApiResponse::Delete(b)) => Ok(b),
        Some(WaifuApiResponse::WaifuError(e)) => Err(VaultError::Service(e)),
        Some(other) => Err(VaultError::Protocol(ProtocolError::UnexpectedVariant(other))),
        None => Err(VaultError::Protocol(ProtocolError::MalformedResponse(v))),
    }
}

/// Converts the envelope of a failed raw-bytes download (or album archive
/// download) into the propagated error: the error shape becomes the service
/// error, anything else is a protocol violation.
pub fn interpret_error_envelope(v: JsonValue) -> (r: VaultError)
    ensures
        match spec_classify(v) {
            Some(ApiResponseV::Error(w)) => r matches VaultError::Service(e) && e@ == w,
            Some(x) => r matches VaultError::Protocol(ProtocolError::UnexpectedVariant(resp))
                && resp@ == x,
            None => r matches VaultError::Protocol(ProtocolError::MalformedResponse(b)) && b == v,
        },
{
    match classify_response(&v) {
        Some(WaifuApiResponse::WaifuError(e)) => VaultError::Service(e),
        Some(other) => VaultError::Protocol(ProtocolError::UnexpectedVariant(other)),
        None => VaultError::Protocol(ProtocolError::MalformedResponse(v)),
    }
}

/// What to do with a raw-bytes download, by HTTP status. A forbidden download
/// is not a JSON envelope case: it is reported as "password required" or
/// "password incorrect" depending on whether a password was supplied, because
/// the endpoint does not always return a JSON body on that status.
#[derive(Debug, Clone, Copy, PartialEq, Eq, Structural)]
pub enum DownloadStatusAction {
    /// The body is the requested content.
    Content,
    /// Forbidden without a password: the file requires one.
    PasswordRequired,
    /// Forbidden despite a password: the supplied password is incorrect.
    PasswordIncorrect,
    /// Any other failure: the body is the standard error envelope.
    ErrorEnvelope,
}

/// The download decision by status code and whether a password was supplied.
pub open spec fn spec_download_action(status: u16, password_supplied: bool) -> DownloadStatusAction {
    if status == 200 {
        DownloadStatusAction::Content
    } else if status == 403 {
        if password_supplied {
            DownloadStatusAction::PasswordIncorrect
        } else {
            DownloadStatusAction::PasswordRequired
        }
    } else {
        DownloadStatusAction::ErrorEnvelope
    }
}

/// Classifies the status of a download response.
pub fn classify_download_status(status: u16, password_supplied: bool) -> (r: DownloadStatusAction)
    ensures
        r == spec_download_action(status, password_supplied),
{
    if status == 200 {
        DownloadStatusAction::Content
    } else if status == 403 {
        if password_supplied {
            DownloadStatusAction::PasswordIncorrect
        } else {
            DownloadStatusAction::PasswordRequired
        }
    } else {
        DownloadStatusAction::ErrorEnvelope
    }
}

} // verus!
