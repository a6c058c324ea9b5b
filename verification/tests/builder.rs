//! Builder tests: the upload encoding rules, the modification body, and the
//! per-endpoint plans.

use waifuvault::api::WaifuGetRequest;
use waifuvault::api::WaifuModificationRequest;
use waifuvault::api::WaifuUploadRequest;
use waifuvault::error::BuildError;
use waifuvault::error::VaultError;
use waifuvault::plan::HttpMethod;
use waifuvault::plan::RequestBody;
use waifuvault::plan::build_file_info;
use waifuvault::plan::build_modification;
use waifuvault::plan::build_upload;
use waifuvault::plan::download_headers;
use waifuvault::plan::file_name_of;
use waifuvault::plan::plan_associate_with_album;
use waifuvault::plan::plan_create_album;
use waifuvault::plan::plan_create_bucket;
use waifuvault::plan::plan_delete_album;
use waifuvault::plan::plan_delete_bucket;
use waifuvault::plan::plan_delete_file;
use waifuvault::plan::plan_disassociate_from_album;
use waifuvault::plan::plan_download_album;
use waifuvault::plan::plan_get_album;
use waifuvault::plan::plan_get_bucket;
use waifuvault::plan::plan_revoke_album;
use waifuvault::plan::plan_share_album;

#[test]
fn upload_without_source_fails_before_transport() {
    let req = WaifuUploadRequest::new();
    match build_upload(req) {
        Err(VaultError::Build(BuildError::MissingContentSource)) => {},
        other => panic!("expected a missing-source build error, got {other:?}"),
    }
}

#[test]
fn upload_with_two_sources_fails_before_transport() {
    let req = WaifuUploadRequest::new()
        .file("/tmp/a.bin")
        .url("https://example/a.png");
    match build_upload(req) {
        Err(VaultError::Build(BuildError::MultipleContentSources)) => {},
        other => panic!("expected a multiple-sources build error, got {other:?}"),
    }
}

#[test]
fn upload_from_file_is_multipart_with_derived_filename() {
    let req = WaifuUploadRequest::new()
        .file("/tmp/nested/upload_basic.bin")
        .password("apple");
    let plan = build_upload(req).unwrap();
    assert_eq!(plan.method, HttpMethod::Put);
    assert_eq!(plan.path, "");
    match plan.body {
        RequestBody::MultipartPath { path, filename, password } => {
            assert_eq!(path, "/tmp/nested/upload_basic.bin");
            assert_eq!(filename, "upload_basic.bin");
            assert_eq!(password, Some("apple".to_string()));
        },
        other => panic!("expected a multipart body from a path, got {other:?}"),
    }
}

#[test]
fn upload_from_bad_path_fails_before_transport() {
    let req = WaifuUploadRequest::new().file("/tmp/ends/in/slash/");
    match build_upload(req) {
        Err(VaultError::Build(BuildError::InvalidFilePath)) => {},
        other => panic!("expected an invalid-path build error, got {other:?}"),
    }
}

#[test]
fn upload_from_url_is_form_encoded() {
    let req = WaifuUploadRequest::new().url("https://example/a.png");
    let plan = build_upload(req).unwrap();
    match plan.body {
        RequestBody::Form(fields) => {
            assert_eq!(fields, vec![("url".to_string(), "https://example/a.png".to_string())]);
        },
        other => panic!("expected a form body, got {other:?}"),
    }

    let req = WaifuUploadRequest::new()
        .url("https://example/a.png")
        .password("banana");
    let plan = build_upload(req).unwrap();
    match plan.body {
        RequestBody::Form(fields) => {
            assert_eq!(fields, vec![
                ("url".to_string(), "https://example/a.png".to_string()),
                ("password".to_string(), "banana".to_string()),
            ]);
        },
        other => panic!("expected a form body, got {other:?}"),
    }
}

#[test]
fn upload_from_bytes_is_multipart_without_disk_read() {
    let req = WaifuUploadRequest::new().bytes(vec![1, 2, 3], "test_raw_bytes.bin");
    let plan = build_upload(req).unwrap();
    match plan.body {
        RequestBody::MultipartBytes { content, filename, password } => {
            assert_eq!(content, vec![1, 2, 3]);
            assert_eq!(filename, "test_raw_bytes.bin");
            assert_eq!(password, None);
        },
        other => panic!("expected a multipart body from bytes, got {other:?}"),
    }
}

#[test]
fn upload_query_carries_flags_and_expiry() {
    let req = WaifuUploadRequest::new()
        .url("https://example/a.png")
        .hide_filename(true)
        .one_time_download(true)
        .expires("1h");
    let plan = build_upload(req).unwrap();
    assert_eq!(plan.query, vec![
        ("hide_filename".to_string(), "true".to_string()),
        ("oneTimeDownload".to_string(), "true".to_string()),
        ("expires".to_string(), "1h".to_string()),
    ]);

    let req = WaifuUploadRequest::new().url("https://example/a.png");
    let plan = build_upload(req).unwrap();
    assert_eq!(plan.query, vec![
        ("hide_filename".to_string(), "false".to_string()),
        ("oneTimeDownload".to_string(), "false".to_string()),
    ]);
}

#[test]
fn upload_path_is_bucket_scoped_when_bucket_is_set() {
    let req = WaifuUploadRequest::new()
        .url("https://example/a.png")
        .bucket("bucket-tkn");
    let plan = build_upload(req).unwrap();
    assert_eq!(plan.path, "/bucket-tkn");
}

#[test]
fn filename_derivation_takes_the_last_segment() {
    assert_eq!(file_name_of("a/b/c.txt"), "c.txt");
    assert_eq!(file_name_of("plain.bin"), "plain.bin");
    assert_eq!(file_name_of("trailing/"), "");
    assert_eq!(file_name_of(""), "");
}

#[test]
fn modification_body_with_single_flag_is_minimal() {
    let req = WaifuModificationRequest::new("tkn").hide_filename(true);
    let plan = build_modification(&req);
    assert_eq!(plan.method, HttpMethod::Patch);
    assert_eq!(plan.path, "/tkn");
    assert_eq!(plan.headers, vec![(
        "Content-Type".to_string(),
        "application/json".to_string(),
    )]);
    match plan.body {
        RequestBody::Json(body) => assert_eq!(body, "{\"hideFilename\":true}"),
        other => panic!("expected a JSON body, got {other:?}"),
    }
}

#[test]
fn modification_body_omits_unset_fields() {
    let req = WaifuModificationRequest::new("tkn");
    match build_modification(&req).body {
        RequestBody::Json(body) => assert_eq!(body, "{}"),
        other => panic!("expected a JSON body, got {other:?}"),
    }

    let req = WaifuModificationRequest::new("tkn").password("banana");
    match build_modification(&req).body {
        RequestBody::Json(body) => assert_eq!(body, "{\"password\":\"banana\"}"),
        other => panic!("expected a JSON body, got {other:?}"),
    }
}

#[test]
fn modification_body_keeps_wire_names_and_order() {
    let req = WaifuModificationRequest::new("tkn")
        .password("new")
        .previous_password("old")
        .custom_expiry("5m")
        .hide_filename(false);
    match build_modification(&req).body {
        RequestBody::Json(body) => assert_eq!(
            body,
            "{\"password\":\"new\",\"previousPassword\":\"old\",\
             \"customExpiry\":\"5m\",\"hideFilename\":false}"
        ),
        other => panic!("expected a JSON body, got {other:?}"),
    }
}

#[test]
fn file_info_plan_uses_token_path_and_formatted_flag() {
    let req = WaifuGetRequest::new("file-tkn").formatted(true);
    let plan = build_file_info(&req);
    assert_eq!(plan.method, HttpMethod::Get);
    assert_eq!(plan.path, "/file-tkn");
    assert_eq!(plan.query, vec![("formatted".to_string(), "true".to_string())]);
    assert!(matches!(plan.body, RequestBody::Empty));
}

#[test]
fn bucket_plans() {
    let plan = plan_create_bucket();
    assert_eq!(plan.method, HttpMethod::Get);
    assert_eq!(plan.path, "/bucket/create");
    assert!(matches!(plan.body, RequestBody::Empty));

    let plan = plan_delete_bucket("bucket-tkn");
    assert_eq!(plan.method, HttpMethod::Delete);
    assert_eq!(plan.path, "/bucket/bucket-tkn");

    let plan = plan_get_bucket("bucket-tkn");
    assert_eq!(plan.method, HttpMethod::Post);
    assert_eq!(plan.path, "/bucket/get");
    match plan.body {
        RequestBody::Json(body) => assert_eq!(body, "{\"bucket_token\":\"bucket-tkn\"}"),
        other => panic!("expected a JSON body, got {other:?}"),
    }
}

#[test]
fn file_deletion_plan() {
    let plan = plan_delete_file("file-tkn");
    assert_eq!(plan.method, HttpMethod::Delete);
    assert_eq!(plan.path, "/file-tkn");
    assert!(matches!(plan.body, RequestBody::Empty));
}

#[test]
fn album_plans() {
    let plan = plan_create_album("bucket-tkn", "holiday");
    assert_eq!(plan.method, HttpMethod::Post);
    assert_eq!(plan.path, "/album/bucket-tkn");
    match plan.body {
        RequestBody::Json(body) => assert_eq!(body, "{\"name\":\"holiday\"}"),
        other => panic!("expected a JSON body, got {other:?}"),
    }

    let tokens = vec!["f1".to_string(), "f2".to_string()];
    let plan = plan_associate_with_album("album-tkn", &tokens);
    assert_eq!(plan.path, "/album/album-tkn/associate");
    match plan.body {
        RequestBody::Json(body) => assert_eq!(body, "{\"fileTokens\":[\"f1\",\"f2\"]}"),
        other => panic!("expected a JSON body, got {other:?}"),
    }

    let plan = plan_disassociate_from_album("album-tkn", &tokens);
    assert_eq!(plan.path, "/album/album-tkn/disassociate");

    let plan = plan_delete_album("album-tkn", true);
    assert_eq!(plan.method, HttpMethod::Delete);
    assert_eq!(plan.path, "/album/album-tkn");
    assert_eq!(plan.query, vec![("deleteFiles".to_string(), "true".to_string())]);

    let plan = plan_get_album("album-tkn");
    assert_eq!(plan.path, "/album/album-tkn");

    let plan = plan_share_album("album-tkn");
    assert_eq!(plan.path, "/album/share/album-tkn");

    let plan = plan_revoke_album("album-tkn");
    assert_eq!(plan.path, "/album/revoke/album-tkn");
}

#[test]
fn album_download_plan_renders_chosen_identifiers() {
    let ids = vec![0usize, 1, 2];
    let plan = plan_download_album("album-tkn", Some(&ids));
    assert_eq!(plan.method, HttpMethod::Post);
    assert_eq!(plan.path, "/album/download/album-tkn");
    match plan.body {
        RequestBody::Json(body) => assert_eq!(body, "[0,1,2]"),
        other => panic!("expected a JSON body, got {other:?}"),
    }

    let plan = plan_download_album("album-tkn", None);
    match plan.body {
        RequestBody::Json(body) => assert_eq!(body, "[]"),
        other => panic!("expected a JSON body, got {other:?}"),
    }
}

#[test]
fn download_headers_carry_password_exactly_when_set() {
    assert_eq!(download_headers(&None), vec![]);
    assert_eq!(download_headers(&Some("banana".to_string())), vec![(
        "x-password".to_string(),
        "banana".to_string(),
    )]);
}
