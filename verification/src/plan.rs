//! The request builder.
//!
//! Every operation is rendered into a transport-neutral plan: an HTTP method,
//! a path relative to the service's REST base, query parameters, headers, and
//! a body. The transport only has to execute the plan; every decision — which
//! encoding an upload uses, which fields a modification body carries, how a
//! path is assembled — is made and proved here.

use vstd::prelude::*;
use vstd::string::StrSliceExecFns;
use vstd::string::StringExecFns;

use crate::api::ModificationRequestV;
use crate::api::UploadRequestV;
use crate::api::WaifuGetRequest;
use crate::api::WaifuModificationRequest;
use crate::api::WaifuUploadRequest;
use crate::error::BuildError;
use crate::error::VaultError;
use crate::render::bool_member;
use crate::render::bool_string;
use crate::render::dec_string;
use crate::render::json_arr;
use crate::render::json_obj;
use crate::render::quoted;
use crate::render::spec_bool_text;
use crate::render::spec_dec;
use crate::render::spec_json_arr;
use crate::render::spec_json_obj;
use crate::render::spec_member;
use crate::render::spec_quote;
use crate::render::string_member;

verus! {

/// The HTTP method of a plan.
#[derive(Debug, Clone, Copy, PartialEq, Eq, Structural)]
pub enum HttpMethod {
    Get,
    Put,
    Post,
    Patch,
    Delete,
}

/// The body of a plan.
#[derive(Debug, Clone)]
pub enum RequestBody {
    /// No body.
    Empty,
    /// A JSON body, already rendered; sent with the JSON content type.
    Json(String),
    /// A form-urlencoded body from named fields.
    Form(Vec<(String, String)>),
    /// A multipart body with a named `file` part whose bytes the transport
    /// reads from this local path, plus a `password` text part if set.
    MultipartPath { path: String, filename: String, password: Option<String> },
    /// A multipart body with a named `file` part from these bytes, plus a
    /// `password` text part if set.
    MultipartBytes { content: Vec<u8>, filename: String, password: Option<String> },
}

/// View of [`RequestBody`].
pub enum RequestBodyV {
    Empty,
    Json(Seq<char>),
    Form(Seq<(Seq<char>, Seq<char>)>),
    MultipartPath { path: Seq<char>, filename: Seq<char>, password: Option<Seq<char>> },
    MultipartBytes { content: Seq<u8>, filename: Seq<char>, password: Option<Seq<char>> },
}

impl View for RequestBody {
    type V = RequestBodyV;

    open spec fn view(&self) -> RequestBodyV {
        match self {
            RequestBody::Empty => RequestBodyV::Empty,
            RequestBody::Json(s) => RequestBodyV::Json(s@),
            RequestBody::Form(fields) => RequestBodyV::Form(fields.deep_view()),
            RequestBody::MultipartPath { path, filename, password } => RequestBodyV::MultipartPath {
                path: path@,
                filename: filename@,
                password: password.deep_view(),
            },
            RequestBody::MultipartBytes { content, filename, password } => RequestBodyV::MultipartBytes {
                content: content.deep_view(),
                filename: filename@,
                password: password.deep_view(),
            },
        }
    }
}

/// A transport-neutral description of one HTTP call.
#[derive(Debug, Clone)]
pub struct RequestPlan {
    /// The HTTP method.
    pub method: HttpMethod,
    /// The path, relative to the service's REST base URL.
    pub path: String,
    /// Query parameters, in order.
    pub query: Vec<(String, String)>,
    /// Headers, in order.
    pub headers: Vec<(String, String)>,
    /// The body.
    pub body: RequestBody,
}

/// View of [`RequestPlan`].
pub struct RequestPlanV {
    pub method: HttpMethod,
    pub path: Seq<char>,
    pub query: Seq<(Seq<char>, Seq<char>)>,
    pub headers: Seq<(Seq<char>, Seq<char>)>,
    pub body: RequestBodyV,
}

impl View for RequestPlan {
    type V = RequestPlanV;

    open spec fn view(&self) -> RequestPlanV {
        RequestPlanV {
            method: self.method,
            path: self.path@,
            query: self.query.deep_view(),
            headers: self.headers.deep_view(),
            body: self.body@,
        }
    }
}

/// The one header list of a JSON body.
pub open spec fn spec_json_headers() -> Seq<(Seq<char>, Seq<char>)> {
    seq![("Content-Type"@, "application/json"@)]
}

fn json_headers() -> (h: Vec<(String, String)>)
    ensures
        h.deep_view() == spec_json_headers(),
{
    let mut h: Vec<(String, String)> = Vec::new();
    h.push(("Content-Type".to_owned(), "application/json".to_owned()));
    proof {
        assert(h.deep_view() =~= spec_json_headers());
    }
    h
}

/// The filename a path denotes: the suffix after the last `/`, or the whole
/// path if it has none; empty when the path ends with `/` or is empty.
pub open spec fn spec_file_name_of(s: Seq<char>) -> Seq<char>
    decreases s.len(),
{
    if s.len() == 0 {
        s
    } else if s[s.len() - 1] == '/' {
        Seq::empty()
    } else {
        spec_file_name_of(s.drop_last()).push(s[s.len() - 1])
    }
}

/// A slash-free suffix that starts at the beginning or right after a slash is
/// the filename.
proof fn lemma_file_name_suffix(s: Seq<char>, i: int)
    requires
        0 <= i <= s.len(),
        i == 0 || s[i - 1] == '/',
        forall|k: int| i <= k < s.len() ==> s[k] != '/',
    ensures
        spec_file_name_of(s) == s.subrange(i, s.len() as int),
    decreases s.len(),
{
    if s.len() == i {
        assert(s.subrange(i, s.len() as int) =~= Seq::<char>::empty());
        if i == 0 {
            assert(spec_file_name_of(s) == s);
            assert(s =~= Seq::<char>::empty());
        }
    } else {
        assert(s[s.len() - 1] != '/');
        let t = s.drop_last();
        assert(t =~= s.subrange(0, s.len() - 1));
        lemma_file_name_suffix(t, i);
        assert(t.subrange(i, t.len() as int) =~= s.subrange(i, s.len() - 1));
        assert(spec_file_name_of(s) =~= s.subrange(i, s.len() - 1).push(s[s.len() - 1]));
        assert(s.subrange(i, s.len() - 1).push(s[s.len() - 1]) =~= s.subrange(i, s.len() as int));
    }
}

/// Derives the filename from a path: the suffix after the last `/`.
pub fn file_name_of(path: &str) -> (r: String)
    ensures
        r@ == spec_file_name_of(path@),
{
    let n = path.unicode_len();
    let mut cut: usize = n;
    let mut found = false;
    while cut > 0 && !found
        invariant
            cut <= n,
            n == path@.len(),
            forall|k: int| cut <= k < n ==> path@[k] != '/',
            found ==> 0 < cut && path@[cut - 1] == '/',
        decreases cut, (if found { 0int } else { 1int }),
    {
        if path.get_char(cut - 1) == '/' {
            found = true;
        } else {
            cut -= 1;
        }
    }
    let tail = path.substring_char(cut, n);
    proof {
        lemma_file_name_suffix(path@, cut as int);
    }
    tail.to_owned()
}

/// How many content sources an upload request has set: a file path, a remote
/// URL, or raw bytes together with their filename.
pub open spec fn spec_upload_source_count(r: UploadRequestV) -> int {
    (if r.file is Some {
        1int
    } else {
        0int
    }) + (if r.url is Some {
        1int
    } else {
        0int
    }) + (if r.bytes is Some && r.filename is Some {
        1int
    } else {
        0int
    })
}

/// The upload path: scoped under the bucket when one is set.
pub open spec fn spec_upload_path(bucket: Option<Seq<char>>) -> Seq<char> {
    match bucket {
        Some(b) => seq!['/'] + b,
        None => Seq::empty(),
    }
}

/// The upload query: the two flags always, `expires` only when set.
pub open spec fn spec_upload_query(r: UploadRequestV) -> Seq<(Seq<char>, Seq<char>)> {
    let base = seq![
        ("hide_filename"@, spec_bool_text(r.hide_filename)),
        ("oneTimeDownload"@, spec_bool_text(r.one_time_download)),
    ];
    match r.expires {
        Some(e) => base.push(("expires"@, e)),
        None => base,
    }
}

/// The form fields of a remote-URL upload: the URL, and the password when
/// set.
pub open spec fn spec_url_form_fields(url: Seq<char>, password: Option<Seq<char>>) -> Seq<
    (Seq<char>, Seq<char>),
> {
    match password {
        Some(p) => seq![("url"@, url), ("password"@, p)],
        None => seq![("url"@, url)],
    }
}

fn upload_path(bucket: &Option<String>) -> (r: String)
    ensures
        r@ == spec_upload_path(bucket.deep_view()),
{
    proof {
        reveal_strlit("/");
        assert("/"@ =~= seq!['/']);
    }
    match bucket {
        Some(b) => {
            let mut p = String::from_str("/");
            p.append(b.as_str());
            p
        },
        None => String::new(),
    }
}

fn upload_query(hide: bool, otd: bool, expires: &Option<String>) -> (q: Vec<(String, String)>)
    ensures
        q.deep_view() == spec_upload_query(
            UploadRequestV {
                hide_filename: hide,
                one_time_download: otd,
                expires: expires.deep_view(),
                ..UploadRequestV::initial()
            },
        ),
{
    let mut q: Vec<(String, String)> = Vec::new();
    q.push(("hide_filename".to_owned(), bool_string(hide)));
    q.push(("oneTimeDownload".to_owned(), bool_string(otd)));
    match expires {
        Some(e) => {
            q.push(("expires".to_owned(), e.clone()));
        },
        None => {},
    }
    proof {
        assert(q.deep_view() =~~= spec_upload_query(
            UploadRequestV {
                hide_filename: hide,
                one_time_download: otd,
                expires: expires.deep_view(),
                ..UploadRequestV::initial()
            },
        ));
    }
    q
}

/// Renders an upload request into its plan.
///
/// Exactly one content source must be set; zero or several fail with a build
/// error before any transport call, as does a file path with no filename. A
/// local file and raw bytes are encoded as a multipart body, a remote URL as
/// a form body; the optional password joins the body either way.
pub fn build_upload(req: WaifuUploadRequest) -> (r: Result<RequestPlan, VaultError>)
    ensures
        spec_upload_source_count(req@) == 0 ==> (r matches Err(VaultError::Build(e)) && e
            == BuildError::MissingContentSource),
        spec_upload_source_count(req@) > 1 ==> (r matches Err(VaultError::Build(e)) && e
            == BuildError::MultipleContentSources),
        spec_upload_source_count(req@) == 1 && req@.file is Some ==> if spec_file_name_of(
            req@.file->Some_0,
        ).len() == 0 {
            r matches Err(VaultError::Build(e)) && e == BuildError::InvalidFilePath
        } else {
            r matches Ok(p) && p@ == (RequestPlanV {
                method: HttpMethod::Put,
                path: spec_upload_path(req@.bucket),
                query: spec_upload_query(req@),
                headers: Seq::empty(),
                body: RequestBodyV::MultipartPath {
                    path: req@.file->Some_0,
                    filename: spec_file_name_of(req@.file->Some_0),
                    password: req@.password,
                },
            })
        },
        spec_upload_source_count(req@) == 1 && req@.url is Some ==> (r matches Ok(p) && p@
            == (RequestPlanV {
            method: HttpMethod::Put,
            path: spec_upload_path(req@.bucket),
            query: spec_upload_query(req@),
            headers: Seq::empty(),
            body: RequestBodyV::Form(spec_url_form_fields(req@.url->Some_0, req@.password)),
        })),
        spec_upload_source_count(req@) == 1 && req@.bytes is Some && req@.filename is Some ==> (
        r matches Ok(p) && p@
            == (RequestPlanV {
            method: HttpMethod::Put,
            path: spec_upload_path(req@.bucket),
            query: spec_upload_query(req@),
            headers: Seq::empty(),
            body: RequestBodyV::MultipartBytes {
                content: req@.bytes->Some_0,
                filename: req@.filename->Some_0,
                password: req@.password,
            },
        })),
{
    let has_file = req.file.is_some();
    let has_url = req.url.is_some();
    let has_bytes = req.bytes.is_some() && req.filename.is_some();
    let count: u32 = (if has_file {
        1
    } else {
        0
    }) + (if has_url {
        1
    } else {
        0
    }) + (if has_bytes {
        1
    } else {
        0
    });
    if count == 0 {
        return Err(VaultError::Build(BuildError::MissingContentSource));
    }
    if count > 1 {
        return Err(VaultError::Build(BuildError::MultipleContentSources));
    }
    let path = upload_path(&req.bucket);
    let query = upload_query(req.hide_filename, req.one_time_download, &req.expires);
    let headers: Vec<(String, String)> = Vec::new();
    proof {
        assert(headers.deep_view() =~= Seq::<(Seq<char>, Seq<char>)>::empty());
        assert(query.deep_view() == spec_upload_query(req@));
    }
    let WaifuUploadRequest { file, url, bytes, filename, password, .. } = req;
    if let Some(f) = file {
        let fname = file_name_of(f.as_str());
        if fname.as_str().is_empty() {
            return Err(VaultError::Build(BuildError::InvalidFilePath));
        }
        Ok(
            RequestPlan {
                method: HttpMethod::Put,
                path,
                query,
                headers,
                body: RequestBody::MultipartPath { path: f, filename: fname, password },
            },
        )
    } else if let Some(u) = url {
        let mut fields: Vec<(String, String)> = Vec::new();
        fields.push(("url".to_owned(), u));
        match password {
            Some(p) => {
                fields.push(("password".to_owned(), p));
            },
            None => {},
        }
        proof {
            assert(fields.deep_view() =~~= spec_url_form_fields(req@.url->Some_0, req@.password));
        }
        Ok(
            RequestPlan {
                method: HttpMethod::Put,
                path,
                query,
                headers,
                body: RequestBody::Form(fields),
            },
        )
    } else {
        let b = bytes.unwrap();
        let fname = filename.unwrap();
        proof {
            assert(b.deep_view() =~= req@.bytes->Some_0);
        }
        Ok(
            RequestPlan {
                method: HttpMethod::Put,
                path,
                query,
                headers,
                body: RequestBody::MultipartBytes { content: b, filename: fname, password },
            },
        )
    }
}

/// The members of a modification body, in wire order: only the fields the
/// request actually sets, each under its camelCase wire name.
pub open spec fn spec_mod_members(m: ModificationRequestV) -> Seq<Seq<char>> {
    (match m.password {
        Some(p) => seq![spec_member("password"@, spec_quote(p))],
        None => Seq::empty(),
    }) + (match m.previous_password {
        Some(p) => seq![spec_member("previousPassword"@, spec_quote(p))],
        None => Seq::empty(),
    }) + (match m.custom_expiry {
        Some(e) => seq![spec_member("customExpiry"@, spec_quote(e))],
        None => Seq::empty(),
    }) + (match m.hide_filename {
        Some(h) => seq![spec_member("hideFilename"@, spec_bool_text(h))],
        None => Seq::empty(),
    })
}

/// The rendered modification body: a JSON object holding exactly the set
/// fields.
pub open spec fn spec_mod_body(m: ModificationRequestV) -> Seq<char> {
    spec_json_obj(spec_mod_members(m))
}

/// Renders the body of a modification request: fields left unset are omitted
/// entirely, never sent as `null`.
pub fn render_modification_body(req: &WaifuModificationRequest) -> (r: String)
    ensures
        r@ == spec_mod_body(req@),
{
    let mut members: Vec<String> = Vec::new();
    if let Some(p) = &req.password {
        members.push(string_member("password", p.as_str()));
    }
    if let Some(p) = &req.previous_password {
        members.push(string_member("previousPassword", p.as_str()));
    }
    if let Some(e) = &req.custom_expiry {
        members.push(string_member("customExpiry", e.as_str()));
    }
    if let Some(h) = req.hide_filename {
        members.push(bool_member("hideFilename", h));
    }
    proof {
        assert(members.deep_view() =~= spec_mod_members(req@));
    }
    json_obj(&members)
}

/// Renders a modification request into its plan: a JSON body holding only
/// the set fields, sent to the file's own path.
pub fn build_modification(req: &WaifuModificationRequest) -> (r: RequestPlan)
    ensures
        r@ == (RequestPlanV {
            method: HttpMethod::Patch,
            path: seq!['/'] + req@.token,
            query: Seq::empty(),
            headers: spec_json_headers(),
            body: RequestBodyV::Json(spec_mod_body(req@)),
        }),
{
    proof {
        reveal_strlit("/");
        assert("/"@ =~= seq!['/']);
    }
    let body = render_modification_body(req);
    let mut path = String::from_str("/");
    path.append(req.token.as_str());
    let r = RequestPlan {
        method: HttpMethod::Patch,
        path,
        query: Vec::new(),
        headers: json_headers(),
        body: RequestBody::Json(body),
    };
    proof {
        assert(r.query.deep_view() =~= Seq::<(Seq<char>, Seq<char>)>::empty());
    }
    r
}

/// An empty parameter list.
fn empty_pairs() -> (v: Vec<(String, String)>)
    ensures
        v.deep_view() == Seq::<(Seq<char>, Seq<char>)>::empty(),
{
    let v: Vec<(String, String)> = Vec::new();
    proof {
        assert(v.deep_view() =~= Seq::<(Seq<char>, Seq<char>)>::empty());
    }
    v
}

/// Renders the plan of the bucket-creation endpoint.
pub fn plan_create_bucket() -> (r: RequestPlan)
    ensures
        r@ == (RequestPlanV {
            method: HttpMethod::Get,
            path: "/bucket/create"@,
            query: Seq::empty(),
            headers: Seq::empty(),
            body: RequestBodyV::Empty,
        }),
{
    RequestPlan {
        method: HttpMethod::Get,
        path: "/bucket/create".to_owned(),
        query: empty_pairs(),
        headers: empty_pairs(),
        body: RequestBody::Empty,
    }
}

/// Renders the plan of the bucket-deletion endpoint; the service answers with
/// a bare boolean.
pub fn plan_delete_bucket(token: &str) -> (r: RequestPlan)
    ensures
        r@ == (RequestPlanV {
            method: HttpMethod::Delete,
            path: "/bucket/"@ + token@,
            query: Seq::empty(),
            headers: Seq::empty(),
            body: RequestBodyV::Empty,
        }),
{
    RequestPlan {
        method: HttpMethod::Delete,
        path: String::from_str("/bucket/").concat(token),
        query: empty_pairs(),
        headers: empty_pairs(),
        body: RequestBody::Empty,
    }
}

/// The body of the bucket-information endpoint.
pub open spec fn spec_get_bucket_body(token: Seq<char>) -> Seq<char> {
    spec_json_obj(seq![spec_member("bucket_token"@, spec_quote(token))])
}

/// Renders the plan of the bucket-information endpoint.
pub fn plan_get_bucket(token: &str) -> (r: RequestPlan)
    ensures
        r@ == (RequestPlanV {
            method: HttpMethod::Post,
            path: "/bucket/get"@,
            query: Seq::empty(),
            headers: spec_json_headers(),
            body: RequestBodyV::Json(spec_get_bucket_body(token@)),
        }),
{
    let mut members: Vec<String> = Vec::new();
    members.push(string_member("bucket_token", token));
    proof {
        assert(members.deep_view() =~= seq![spec_member("bucket_token"@, spec_quote(token@))]);
    }
    RequestPlan {
        method: HttpMethod::Post,
        path: "/bucket/get".to_owned(),
        query: empty_pairs(),
        headers: json_headers(),
        body: RequestBody::Json(json_obj(&members)),
    }
}

/// Renders the plan of the file-deletion endpoint; the service answers with a
/// bare boolean.
pub fn plan_delete_file(token: &str) -> (r: RequestPlan)
    ensures
        r@ == (RequestPlanV {
            method: HttpMethod::Delete,
            path: "/"@ + token@,
            query: Seq::empty(),
            headers: Seq::empty(),
            body: RequestBodyV::Empty,
        }),
{
    RequestPlan {
        method: HttpMethod::Delete,
        path: String::from_str("/").concat(token),
        query: empty_pairs(),
        headers: empty_pairs(),
        body: RequestBody::Empty,
    }
}

/// The body of the album-creation endpoint.
pub open spec fn spec_create_album_body(name: Seq<char>) -> Seq<char> {
    spec_json_obj(seq![spec_member("name"@, spec_quote(name))])
}

/// Renders the plan of the album-creation endpoint: the album is created
/// inside the given bucket under the given name.
pub fn plan_create_album(bucket_token: &str, album_name: &str) -> (r: RequestPlan)
    ensures
        r@ == (RequestPlanV {
            method: HttpMethod::Post,
            path: "/album/"@ + bucket_token@,
            query: Seq::empty(),
            headers: spec_json_headers(),
            body: RequestBodyV::Json(spec_create_album_body(album_name@)),
        }),
{
    let mut members: Vec<String> = Vec::new();
    members.push(string_member("name", album_name));
    proof {
        assert(members.deep_view() =~= seq![spec_member("name"@, spec_quote(album_name@))]);
    }
    RequestPlan {
        method: HttpMethod::Post,
        path: String::from_str("/album/").concat(bucket_token),
        query: empty_pairs(),
        headers: json_headers(),
        body: RequestBody::Json(json_obj(&members)),
    }
}

/// The body of the association endpoints: the file tokens under their wire
/// name.
pub open spec fn spec_file_tokens_body(tokens: Seq<Seq<char>>) -> Seq<char> {
    spec_json_obj(
        seq![
            spec_member(
                "fileTokens"@,
                spec_json_arr(Seq::new(tokens.len(), |i: int| spec_quote(tokens[i]))),
            ),
        ],
    )
}

/// Renders each token as a quoted JSON string.
fn quoted_all(tokens: &Vec<String>) -> (r: Vec<String>)
    ensures
        r.deep_view() == Seq::new(
            tokens.deep_view().len(),
            |i: int| spec_quote(tokens.deep_view()[i]),
        ),
{
    let mut out: Vec<String> = Vec::new();
    let mut i: usize = 0;
    while i < tokens.len()
        invariant
            i <= tokens.len(),
            out.len() == i,
            forall|j: int| 0 <= j < i ==> out@[j]@ == spec_quote(tokens@[j]@),
        decreases tokens.len() - i,
    {
        out.push(quoted(tokens[i].as_str()));
        i += 1;
    }
    proof {
        assert forall|k: int|
            0 <= k < tokens@.len() implies out.deep_view()[k] == spec_quote(
            tokens.deep_view()[k],
        ) by {
            assert(out.deep_view()[k] == out@[k]@);
            assert(tokens.deep_view()[k] == tokens@[k]@);
        }
        assert(out.deep_view() =~= Seq::new(
            tokens.deep_view().len(),
            |i: int| spec_quote(tokens.deep_view()[i]),
        ));
    }
    out
}

fn file_tokens_body(tokens: &Vec<String>) -> (r: String)
    ensures
        r@ == spec_file_tokens_body(tokens.deep_view()),
{
    let items = quoted_all(tokens);
    let arr = json_arr(&items);
    let mut members: Vec<String> = Vec::new();
    let mut member = String::new();
    crate::render::push_quoted(&mut member, "fileTokens");
    member.append(":");
    member.append(arr.as_str());
    proof {
        reveal_strlit(":");
        assert(":"@ =~= seq![':']);
        assert(member@ =~= spec_member(
            "fileTokens"@,
            spec_json_arr(
                Seq::new(tokens.deep_view().len(), |i: int| spec_quote(tokens.deep_view()[i])),
            ),
        ));
    }
    members.push(member);
    proof {
        assert(members.deep_view() =~= seq![
            spec_member(
                "fileTokens"@,
                spec_json_arr(
                    Seq::new(tokens.deep_view().len(), |i: int| spec_quote(tokens.deep_view()[i])),
                ),
            ),
        ]);
    }
    json_obj(&members)
}

/// Renders the plan of the album-association endpoint: the given files join
/// the album.
pub fn plan_associate_with_album(album_token: &str, file_tokens: &Vec<String>) -> (r: RequestPlan)
    ensures
        r@ == (RequestPlanV {
            method: HttpMethod::Post,
            path: "/album/"@ + album_token@ + "/associate"@,
            query: Seq::empty(),
            headers: spec_json_headers(),
            body: RequestBodyV::Json(spec_file_tokens_body(file_tokens.deep_view())),
        }),
{
    RequestPlan {
        method: HttpMethod::Post,
        path: String::from_str("/album/").concat(album_token).concat("/associate"),
        query: empty_pairs(),
        headers: json_headers(),
        body: RequestBody::Json(file_tokens_body(file_tokens)),
    }
}

/// Renders the plan of the album-disassociation endpoint: the given files
/// leave the album.
pub fn plan_disassociate_from_album(album_token: &str, file_tokens: &Vec<String>) -> (r:
    RequestPlan)
    ensures
        r@ == (RequestPlanV {
            method: HttpMethod::Post,
            path: "/album/"@ + album_token@ + "/disassociate"@,
            query: Seq::empty(),
            headers: spec_json_headers(),
            body: RequestBodyV::Json(spec_file_tokens_body(file_tokens.deep_view())),
        }),
{
    RequestPlan {
        method: HttpMethod::Post,
        path: String::from_str("/album/").concat(album_token).concat("/disassociate"),
        query: empty_pairs(),
        headers: json_headers(),
        body: RequestBody::Json(file_tokens_body(file_tokens)),
    }
}

/// Renders the plan of the album-deletion endpoint; `delete_files` chooses
/// whether the album's files leave the bucket too.
pub fn plan_delete_album(album_token: &str, delete_files: bool) -> (r: RequestPlan)
    ensures
        r@ == (RequestPlanV {
            method: HttpMethod::Delete,
            path: "/album/"@ + album_token@,
            query: seq![("deleteFiles"@, spec_bool_text(delete_files))],
            headers: Seq::empty(),
            body: RequestBodyV::Empty,
        }),
{
    let mut query: Vec<(String, String)> = Vec::new();
    query.push(("deleteFiles".to_owned(), bool_string(delete_files)));
    proof {
        assert(query.deep_view() =~~= seq![("deleteFiles"@, spec_bool_text(delete_files))]);
    }
    RequestPlan {
        method: HttpMethod::Delete,
        path: String::from_str("/album/").concat(album_token),
        query,
        headers: empty_pairs(),
        body: RequestBody::Empty,
    }
}

/// Renders the plan of the album-information endpoint.
pub fn plan_get_album(album_token: &str) -> (r: RequestPlan)
    ensures
        r@ == (RequestPlanV {
            method: HttpMethod::Get,
            path: "/album/"@ + album_token@,
            query: Seq::empty(),
            headers: Seq::empty(),
            body: RequestBodyV::Empty,
        }),
{
    RequestPlan {
        method: HttpMethod::Get,
        path: String::from_str("/album/").concat(album_token),
        query: empty_pairs(),
        headers: empty_pairs(),
        body: RequestBody::Empty,
    }
}

/// Renders the plan of the album-sharing endpoint: the service answers with a
/// generic message whose description carries the public URL.
pub fn plan_share_album(album_token: &str) -> (r: RequestPlan)
    ensures
        r@ == (RequestPlanV {
            method: HttpMethod::Get,
            path: "/album/share/"@ + album_token@,
            query: Seq::empty(),
            headers: Seq::empty(),
            body: RequestBodyV::Empty,
        }),
{
    RequestPlan {
        method: HttpMethod::Get,
        path: String::from_str("/album/share/").concat(album_token),
        query: empty_pairs(),
        headers: empty_pairs(),
        body: RequestBody::Empty,
    }
}

/// Renders the plan of the album-revocation endpoint: public URLs to the
/// album stop working.
pub fn plan_revoke_album(album_token: &str) -> (r: RequestPlan)
    ensures
        r@ == (RequestPlanV {
            method: HttpMethod::Get,
            path: "/album/revoke/"@ + album_token@,
            query: Seq::empty(),
            headers: Seq::empty(),
            body: RequestBodyV::Empty,
        }),
{
    RequestPlan {
        method: HttpMethod::Get,
        path: String::from_str("/album/revoke/").concat(album_token),
        query: empty_pairs(),
        headers: empty_pairs(),
        body: RequestBody::Empty,
    }
}

/// The body of the album-download endpoint: the chosen file identifiers, or
/// an empty array for the whole album.
pub open spec fn spec_album_download_body(ids: Seq<usize>) -> Seq<char> {
    spec_json_arr(Seq::new(ids.len(), |i: int| spec_dec(ids[i] as int)))
}

/// Renders each identifier as decimal text.
fn dec_all(ids: &Vec<usize>) -> (r: Vec<String>)
    ensures
        r.deep_view() == Seq::new(ids@.len(), |i: int| spec_dec(ids@[i] as int)),
{
    let mut out: Vec<String> = Vec::new();
    let mut i: usize = 0;
    while i < ids.len()
        invariant
            i <= ids.len(),
            out.len() == i,
            forall|j: int| 0 <= j < i ==> out@[j]@ == spec_dec(ids@[j] as int),
        decreases ids.len() - i,
    {
        out.push(dec_string(ids[i] as u64));
        i += 1;
    }
    proof {
        assert forall|k: int| 0 <= k < ids@.len() implies out.deep_view()[k] == spec_dec(
            ids@[k] as int,
        ) by {
            assert(out.deep_view()[k] == out@[k]@);
        }
        assert(out.deep_view() =~= Seq::new(ids@.len(), |i: int| spec_dec(ids@[i] as int)));
    }
    out
}

/// Renders the plan of the album-download endpoint: a zip archive of the
/// chosen files, or of the whole album when no identifiers are given.
pub fn plan_download_album(album_token: &str, file_ids: Option<&Vec<usize>>) -> (r: RequestPlan)
    ensures
        r@ == (RequestPlanV {
            method: HttpMethod::Post,
            path: "/album/download/"@ + album_token@,
            query: Seq::empty(),
            headers: spec_json_headers(),
            body: RequestBodyV::Json(
                match file_ids {
                    Some(ids) => spec_album_download_body(ids@),
                    None => spec_album_download_body(Seq::empty()),
                },
            ),
        }),
{
    let body: String = match file_ids {
        Some(ids) => {
            let items = dec_all(ids);
            json_arr(&items)
        },
        None => {
            let items: Vec<String> = Vec::new();
            proof {
                assert(items.deep_view() =~= Seq::new(
                    Seq::<usize>::empty().len(),
                    |i: int| spec_dec(Seq::<usize>::empty()[i] as int),
                ));
            }
            json_arr(&items)
        },
    };
    RequestPlan {
        method: HttpMethod::Post,
        path: String::from_str("/album/download/").concat(album_token),
        query: empty_pairs(),
        headers: json_headers(),
        body: RequestBody::Json(body),
    }
}

/// The headers of a raw-bytes download: the password header exactly when a
/// password is supplied.
pub open spec fn spec_download_headers(password: Option<Seq<char>>) -> Seq<
    (Seq<char>, Seq<char>),
> {
    match password {
        Some(p) => seq![("x-password"@, p)],
        None => Seq::empty(),
    }
}

/// Renders the headers of a raw-bytes download; the URL itself is used as
/// given.
pub fn download_headers(password: &Option<String>) -> (h: Vec<(String, String)>)
    ensures
        h.deep_view() == spec_download_headers(password.deep_view()),
{
    let mut h: Vec<(String, String)> = Vec::new();
    match password {
        Some(p) => {
            h.push(("x-password".to_owned(), p.clone()));
        },
        None => {},
    }
    proof {
        assert(h.deep_view() =~~= spec_download_headers(password.deep_view()));
    }
    h
}

/// Renders a file-information request into its plan.
pub fn build_file_info(req: &WaifuGetRequest) -> (r: RequestPlan)
    ensures
        r@ == (RequestPlanV {
            method: HttpMethod::Get,
            path: seq!['/'] + req@.token,
            query: seq![("formatted"@, spec_bool_text(req@.formatted))],
            headers: Seq::empty(),
            body: RequestBodyV::Empty,
        }),
{
    proof {
        reveal_strlit("/");
        assert("/"@ =~= seq!['/']);
    }
    let mut path = String::from_str("/");
    path.append(req.token.as_str());
    let mut query: Vec<(String, String)> = Vec::new();
    query.push(("formatted".to_owned(), bool_string(req.formatted)));
    let r = RequestPlan {
        method: HttpMethod::Get,
        path,
        query,
        headers: Vec::new(),
        body: RequestBody::Empty,
    };
    proof {
        assert(r.query.deep_view() =~~= seq![("formatted"@, spec_bool_text(req@.formatted))]);
        assert(r.headers.deep_view() =~= Seq::<(Seq<char>, Seq<char>)>::empty());
    }
    r
}

} // verus!
