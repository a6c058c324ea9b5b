//! Dispatcher tests: shape classification in priority order, narrowing, and
//! the download status decision.

use waifuvault::api::RetentionPeriod;
use waifuvault::dispatch::DownloadStatusAction;
use waifuvault::dispatch::WaifuApiResponse;
use waifuvault::dispatch::classify_download_status;
use waifuvault::dispatch::classify_response;
use waifuvault::dispatch::expect_delete_confirmation;
use waifuvault::dispatch::expect_file_entry;
use waifuvault::dispatch::interpret_error_envelope;
use waifuvault::error::ProtocolError;
use waifuvault::error::VaultError;
use waifuvault::json::JsonValue;

fn s(x: &str) -> JsonValue {
    JsonValue::Str(x.to_string())
}

fn obj(fields: Vec<(&str, JsonValue)>) -> JsonValue {
    JsonValue::Obj(fields.into_iter().map(|(k, v)| (k.to_string(), v)).collect())
}

fn options_json(hide: bool, otd: bool, protected: bool) -> JsonValue {
    obj(vec![
        ("hideFilename", JsonValue::Bool(hide)),
        ("oneTimeDownload", JsonValue::Bool(otd)),
        ("protected", JsonValue::Bool(protected)),
    ])
}

fn file_entry_json(token: &str) -> JsonValue {
    obj(vec![
        ("token", s(token)),
        ("url", s("https://vault.example/f/x.bin")),
        ("views", JsonValue::UInt(7)),
        ("retentionPeriod", JsonValue::UInt(3_600_000)),
        ("options", options_json(false, false, false)),
    ])
}

#[test]
fn classifies_file_entry_with_all_fields() {
    let v = obj(vec![
        ("token", s("file-tkn")),
        ("url", s("https://vault.example/f/a.png")),
        ("bucket", s("bucket-tkn")),
        (
            "album",
            obj(vec![
                ("token", s("album-tkn")),
                ("publicToken", JsonValue::Null),
                ("name", s("holiday")),
                ("bucket", s("main")),
                ("dateCreated", JsonValue::UInt(1_700_000_000)),
            ]),
        ),
        ("views", JsonValue::UInt(42)),
        ("retentionPeriod", s("23 days")),
        ("options", options_json(true, false, true)),
    ]);
    match classify_response(&v) {
        Some(WaifuApiResponse::WaifuFileResponse(e)) => {
            assert_eq!(e.token, "file-tkn");
            assert_eq!(e.url, "https://vault.example/f/a.png");
            assert_eq!(e.bucket, Some("bucket-tkn".to_string()));
            assert_eq!(e.views, 42);
            let album = e.album.expect("album metadata expected");
            assert_eq!(album.token, "album-tkn");
            assert_eq!(album.public_token, None);
            assert_eq!(album.name, "holiday");
            assert_eq!(album.bucket, "main");
            assert_eq!(album.date_created, 1_700_000_000);
            assert!(matches!(e.retention_period, RetentionPeriod::Text(ref t) if t == "23 days"));
            let o = e.options.expect("options expected");
            assert!(o.hide_filename);
            assert!(!o.one_time_download);
            assert!(o.protected);
        },
        other => panic!("expected a file entry, got {other:?}"),
    }
}

#[test]
fn album_shape_beats_bucket_shape() {
    // Carries `token` and `files` (the bucket features) and `bucketToken`
    // (the album feature): the more specific album shape must win.
    let v = obj(vec![
        ("token", s("album-tkn")),
        ("bucketToken", s("bucket-tkn")),
        ("publicToken", JsonValue::Null),
        ("name", s("holiday")),
        ("files", JsonValue::Arr(vec![file_entry_json("f1")])),
    ]);
    match classify_response(&v) {
        Some(WaifuApiResponse::WaifuAlbumResponse(a)) => {
            assert_eq!(a.token, "album-tkn");
            assert_eq!(a.bucket_token, "bucket-tkn");
            assert_eq!(a.public_token, None);
            assert_eq!(a.name, "holiday");
            assert_eq!(a.files.len(), 1);
            assert_eq!(a.files[0].token, "f1");
        },
        other => panic!("expected an album entry, got {other:?}"),
    }
}

#[test]
fn bucket_shape_requires_absent_bucket_token() {
    let bucket = obj(vec![
        ("token", s("bucket-tkn")),
        ("files", JsonValue::Arr(vec![])),
    ]);
    assert!(matches!(
        classify_response(&bucket),
        Some(WaifuApiResponse::WaifuBucketResponse(_))
    ));

    // The same object with a bucketToken field is no bucket; lacking the
    // album's name and files shape it matches nothing at all.
    let not_bucket = obj(vec![
        ("token", s("bucket-tkn")),
        ("files", JsonValue::Arr(vec![])),
        ("bucketToken", s("other")),
    ]);
    assert!(classify_response(&not_bucket).is_none());
}

#[test]
fn classifies_bucket_with_files_and_albums() {
    let v = obj(vec![
        ("token", s("bucket-tkn")),
        ("files", JsonValue::Arr(vec![file_entry_json("f1"), file_entry_json("f2")])),
        (
            "albums",
            JsonValue::Arr(vec![obj(vec![
                ("token", s("album-tkn")),
                ("publicToken", s("pub-tkn")),
                ("name", s("holiday")),
                ("bucket", s("main")),
                ("dateCreated", JsonValue::UInt(5)),
            ])]),
        ),
    ]);
    match classify_response(&v) {
        Some(WaifuApiResponse::WaifuBucketResponse(b)) => {
            assert_eq!(b.token, "bucket-tkn");
            assert_eq!(b.files.len(), 2);
            assert_eq!(b.files[0].token, "f1");
            assert_eq!(b.files[1].token, "f2");
            let albums = b.albums.expect("albums expected");
            assert_eq!(albums.len(), 1);
            assert_eq!(albums[0].public_token, Some("pub-tkn".to_string()));
        },
        other => panic!("expected a bucket entry, got {other:?}"),
    }
}

#[test]
fn classifies_generic_message_without_token() {
    let v = obj(vec![
        ("success", JsonValue::Bool(true)),
        ("description", s("https://vault.example/album/pub-tkn")),
    ]);
    match classify_response(&v) {
        Some(WaifuApiResponse::WaifuGenericResponse(m)) => {
            assert!(m.success);
            assert_eq!(m.description, "https://vault.example/album/pub-tkn");
        },
        other => panic!("expected a generic message, got {other:?}"),
    }

    // With a token present the generic shape must not match.
    let with_token = obj(vec![
        ("success", JsonValue::Bool(true)),
        ("description", s("done")),
        ("token", s("t")),
    ]);
    assert!(!matches!(
        classify_response(&with_token),
        Some(WaifuApiResponse::WaifuGenericResponse(_))
    ));
}

#[test]
fn error_envelope_round_trips_status() {
    let v = obj(vec![
        ("name", s("NotFoundException")),
        ("message", s("no such token")),
        ("status", JsonValue::UInt(404)),
    ]);
    match classify_response(&v) {
        Some(WaifuApiResponse::WaifuError(e)) => {
            assert_eq!(e.name, "NotFoundException");
            assert_eq!(e.message, "no such token");
            assert_eq!(e.status, 404);
        },
        other => panic!("expected the error envelope, got {other:?}"),
    }
}

#[test]
fn bare_boolean_is_delete_confirmation() {
    assert!(matches!(
        classify_response(&JsonValue::Bool(true)),
        Some(WaifuApiResponse::Delete(true))
    ));
    assert!(matches!(
        classify_response(&JsonValue::Bool(false)),
        Some(WaifuApiResponse::Delete(false))
    ));
    assert_eq!(expect_delete_confirmation(JsonValue::Bool(true)).unwrap(), true);
}

#[test]
fn unknown_shape_is_malformed() {
    assert!(classify_response(&JsonValue::Null).is_none());
    assert!(classify_response(&s("just a string")).is_none());
    let v = obj(vec![("unrelated", JsonValue::UInt(1))]);
    assert!(matches!(
        expect_file_entry(v),
        Err(VaultError::Protocol(ProtocolError::MalformedResponse(_)))
    ));
}

#[test]
fn wrong_variant_for_endpoint_is_protocol_error() {
    // A structurally valid bucket entry arriving where a file entry is
    // expected is a protocol violation, not silently coerced.
    let bucket = obj(vec![("token", s("b")), ("files", JsonValue::Arr(vec![]))]);
    assert!(matches!(
        expect_file_entry(bucket),
        Err(VaultError::Protocol(ProtocolError::UnexpectedVariant(_)))
    ));
}

#[test]
fn service_error_propagates_through_narrowing() {
    let err = obj(vec![
        ("name", s("BadRequestException")),
        ("message", s("bucket token is wrong")),
        ("status", JsonValue::UInt(400)),
    ]);
    match expect_delete_confirmation(err) {
        Err(VaultError::Service(e)) => {
            assert_eq!(e.status, 400);
            assert_eq!(e.name, "BadRequestException");
        },
        other => panic!("expected the service error, got {other:?}"),
    }
}

#[test]
fn download_status_decisions() {
    assert_eq!(classify_download_status(200, false), DownloadStatusAction::Content);
    assert_eq!(classify_download_status(200, true), DownloadStatusAction::Content);
    assert_eq!(classify_download_status(403, false), DownloadStatusAction::PasswordRequired);
    assert_eq!(classify_download_status(403, true), DownloadStatusAction::PasswordIncorrect);
    assert_eq!(classify_download_status(404, false), DownloadStatusAction::ErrorEnvelope);
    assert_eq!(classify_download_status(500, true), DownloadStatusAction::ErrorEnvelope);
}

#[test]
fn download_error_envelope_interpretation() {
    let err = obj(vec![
        ("name", s("TeapotException")),
        ("message", s("cannot brew")),
        ("status", JsonValue::UInt(418)),
    ]);
    match interpret_error_envelope(err) {
        VaultError::Service(e) => assert_eq!(e.status, 418),
        other => panic!("expected the service error, got {other:?}"),
    }
    match interpret_error_envelope(JsonValue::Null) {
        VaultError::Protocol(ProtocolError::MalformedResponse(_)) => {},
        other => panic!("expected a malformed-response error, got {other:?}"),
    }
}

#[test]
fn duplicate_keys_resolve_to_the_first_binding() {
    let v = JsonValue::Obj(vec![
        ("name".to_string(), s("FirstException")),
        ("name".to_string(), s("SecondException")),
        ("message".to_string(), s("msg")),
        ("status".to_string(), JsonValue::UInt(500)),
    ]);
    match classify_response(&v) {
        Some(WaifuApiResponse::WaifuError(e)) => assert_eq!(e.name, "FirstException"),
        other => panic!("expected the error envelope, got {other:?}"),
    }
}

#[test]
fn error_status_beyond_http_range_breaks_the_shape() {
    let v = obj(vec![
        ("name", s("Weird")),
        ("message", s("status does not fit")),
        ("status", JsonValue::UInt(70_000)),
    ]);
    assert!(classify_response(&v).is_none());
}

#[test]
fn file_entry_rejects_bad_field_kinds() {
    // A numeric token breaks the file shape: nothing matches.
    let v = obj(vec![
        ("token", JsonValue::UInt(1)),
        ("url", s("https://vault.example/f/a")),
        ("views", JsonValue::UInt(0)),
        ("retentionPeriod", JsonValue::UInt(1)),
    ]);
    assert!(classify_response(&v).is_none());

    // A fractional or negative number in `views` breaks the shape too.
    let v = obj(vec![
        ("token", s("t")),
        ("url", s("u")),
        ("views", JsonValue::BadNumber),
        ("retentionPeriod", JsonValue::UInt(1)),
    ]);
    assert!(classify_response(&v).is_none());
}
