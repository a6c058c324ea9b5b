//! An end-to-end walk through the builder and the dispatcher, with the
//! service's side played by hand-built responses: upload raw bytes, read the
//! entry back, protect it with a password, and re-fetch its info.

use waifuvault::api::WaifuModificationRequest;
use waifuvault::api::WaifuUploadRequest;
use waifuvault::dispatch::expect_file_entry;
use waifuvault::json::JsonValue;
use waifuvault::plan::HttpMethod;
use waifuvault::plan::RequestBody;
use waifuvault::plan::build_modification;
use waifuvault::plan::build_upload;

fn s(x: &str) -> JsonValue {
    JsonValue::Str(x.to_string())
}

fn obj(fields: Vec<(&str, JsonValue)>) -> JsonValue {
    JsonValue::Obj(fields.into_iter().map(|(k, v)| (k.to_string(), v)).collect())
}

fn entry_json(protected: bool, hide: bool) -> JsonValue {
    obj(vec![
        ("token", s("scenario-tkn")),
        ("url", s("https://vault.example/f/x.bin")),
        ("views", JsonValue::UInt(0)),
        ("retentionPeriod", JsonValue::UInt(86_400_000)),
        (
            "options",
            obj(vec![
                ("hideFilename", JsonValue::Bool(hide)),
                ("oneTimeDownload", JsonValue::Bool(false)),
                ("protected", JsonValue::Bool(protected)),
            ]),
        ),
    ])
}

#[test]
fn upload_modify_refetch_round_trip() {
    // Upload a 16KB buffer under the name x.bin, with no password.
    let data = vec![0xabu8; 16_384];
    let req = WaifuUploadRequest::new().bytes(data.clone(), "x.bin");
    let plan = build_upload(req).unwrap();
    assert_eq!(plan.method, HttpMethod::Put);
    match plan.body {
        RequestBody::MultipartBytes { content, filename, password } => {
            assert_eq!(content.len(), 16_384);
            assert_eq!(content, data);
            assert_eq!(filename, "x.bin");
            assert_eq!(password, None, "no password part may be sent");
        },
        other => panic!("expected a multipart body from bytes, got {other:?}"),
    }

    // The service answers with a fresh, unprotected entry.
    let entry = expect_file_entry(entry_json(false, false)).unwrap();
    let options = entry.options.expect("expected options when there are none");
    assert!(!options.protected);
    assert!(!options.one_time_download);
    let hide_before = options.hide_filename;

    // Modify the entry with only a new password: the body carries solely
    // that field.
    let req = WaifuModificationRequest::new(&entry.token).password("banana");
    let plan = build_modification(&req);
    assert_eq!(plan.path, "/scenario-tkn");
    match plan.body {
        RequestBody::Json(body) => assert_eq!(body, "{\"password\":\"banana\"}"),
        other => panic!("expected a JSON body, got {other:?}"),
    }

    // Re-fetching the info now shows a protected entry whose hide-filename
    // flag is unchanged.
    let entry = expect_file_entry(entry_json(true, hide_before)).unwrap();
    let options = entry.options.expect("expected options when there are none");
    assert!(options.protected);
    assert_eq!(options.hide_filename, hide_before);
}
