//! Laws of the dispatcher and the builder, stated and proved once for all
//! inputs.

use vstd::prelude::*;

use crate::api::ModificationRequestV;
use crate::api::WaifuErrorV;
use crate::dispatch::ApiResponseV;
use crate::dispatch::DownloadStatusAction;
use crate::dispatch::spec_classify;
use crate::dispatch::spec_download_action;
use crate::dispatch::spec_fields_of;
use crate::dispatch::spec_parse_album;
use crate::dispatch::spec_parse_bucket;
use crate::dispatch::spec_parse_file;
use crate::json::JsonValue;
use crate::json::spec_lookup;
use crate::plan::spec_mod_body;
use crate::plan::spec_mod_members;
use crate::render::spec_bool_text;
use crate::render::spec_member;

verus! {

broadcast use vstd::string::group_string_axioms;

/// Law: an object that carries a `bucketToken` field is never classified as a
/// bucket entry, whatever else it carries — the bucket shape requires that
/// field to be absent.
pub proof fn lemma_bucket_token_excludes_bucket(v: JsonValue)
    ensures
        (spec_fields_of(v) matches Some(fs) && spec_lookup(fs, "bucketToken"@) is Some)
            ==> !(spec_classify(v) matches Some(ApiResponseV::Bucket(b))),
{
    if spec_fields_of(v) is Some && spec_lookup(spec_fields_of(v)->Some_0, "bucketToken"@) is Some {
        assert(spec_parse_bucket(v) is None);
    }
}

/// Law: the album shape and the bucket shape are mutually exclusive — the
/// album shape requires `bucketToken`, the bucket shape its absence.
pub proof fn lemma_album_bucket_exclusive(v: JsonValue)
    ensures
        !(spec_parse_album(v) is Some && spec_parse_bucket(v) is Some),
{
}

/// Law: the album shape takes priority over the bucket shape. A value that
/// matches the album shape is classified as the album entry (or as a file
/// entry, which is tried even earlier), never as a bucket entry.
pub proof fn lemma_album_before_bucket(v: JsonValue)
    requires
        spec_parse_album(v) is Some,
    ensures
        spec_classify(v) matches Some(r),
        spec_classify(v) matches Some(r) ==> (r matches ApiResponseV::File(f) || r
            == ApiResponseV::Album(spec_parse_album(v)->Some_0)),
{
}

/// Lookup in a three-field object, written out.
proof fn lemma_lookup3(fs: Seq<(String, JsonValue)>, k: Seq<char>)
    requires
        fs.len() == 3,
    ensures
        spec_lookup(fs, k) == (if fs[0].0@ == k {
            Some(fs[0].1)
        } else if fs[1].0@ == k {
            Some(fs[1].1)
        } else if fs[2].0@ == k {
            Some(fs[2].1)
        } else {
            None
        }),
{
    reveal_with_fuel(spec_lookup, 4);
    assert(fs.drop_first()[0] == fs[1]);
    assert(fs.drop_first().drop_first()[0] == fs[2]);
    assert(fs.drop_first().drop_first().drop_first().len() == 0);
}

/// Law: an object of exactly `name`, `message` and `status` is classified as
/// the service error, with all three fields preserved verbatim.
pub proof fn lemma_error_envelope_preserved(v: JsonValue, e: WaifuErrorV)
    requires
        spec_fields_of(v) matches Some(fs) && fs.len() == 3 && fs[0].0@ == "name"@ && (fs[0].1
            matches JsonValue::Str(s) && s@ == e.name) && fs[1].0@ == "message"@ && (fs[1].1
            matches JsonValue::Str(s) && s@ == e.message) && fs[2].0@ == "status"@ && fs[2].1
            == JsonValue::UInt(e.status as u64),
    ensures
        spec_classify(v) == Some(ApiResponseV::Error(e)),
{
    reveal_strlit("name");
    reveal_strlit("message");
    reveal_strlit("status");
    reveal_strlit("token");
    reveal_strlit("url");
    reveal_strlit("success");
    assert("name"@.len() == 4);
    assert("token"@.len() == 5);
    assert("message"@.len() == 7);
    assert("status"@.len() == 6);
    assert("success"@.len() == 7);
    assert("message"@[0] == 'm' && "success"@[0] == 's');
    assert("name"@ != "token"@);
    assert("message"@ != "token"@);
    assert("status"@ != "token"@);
    assert("name"@ != "success"@);
    assert("message"@ != "success"@);
    assert("status"@ != "success"@);
    let fs = spec_fields_of(v)->Some_0;
    lemma_lookup3(fs, "name"@);
    lemma_lookup3(fs, "message"@);
    lemma_lookup3(fs, "status"@);
    lemma_lookup3(fs, "token"@);
    lemma_lookup3(fs, "url"@);
    lemma_lookup3(fs, "success"@);
    assert(spec_lookup(fs, "token"@) is None);
    assert(spec_parse_file(v) is None);
    assert(spec_parse_album(v) is None);
    assert(spec_parse_bucket(v) is None);
    assert(spec_lookup(fs, "success"@) is None);
    assert(spec_classify(v) == Some(ApiResponseV::Error(e)));
}

/// How many fields a modification request sets.
pub open spec fn spec_mod_field_count(m: ModificationRequestV) -> int {
    (if m.password is Some {
        1int
    } else {
        0int
    }) + (if m.previous_password is Some {
        1int
    } else {
        0int
    }) + (if m.custom_expiry is Some {
        1int
    } else {
        0int
    }) + (if m.hide_filename is Some {
        1int
    } else {
        0int
    })
}

/// Law: the modification body carries exactly as many members as the request
/// sets fields — an unset field is omitted entirely, never sent as `null`.
pub proof fn lemma_modification_omits_unset(m: ModificationRequestV)
    ensures
        spec_mod_members(m).len() == spec_mod_field_count(m),
{
}

/// Law: a modification that sets only the hide-filename flag renders as an
/// object holding solely that member.
pub proof fn lemma_modification_single_flag(m: ModificationRequestV)
    requires
        m.password is None,
        m.previous_password is None,
        m.custom_expiry is None,
        m.hide_filename is Some,
    ensures
        spec_mod_body(m) == seq!['{'] + spec_member(
            "hideFilename"@,
            spec_bool_text(m.hide_filename->Some_0),
        ) + seq!['}'],
{
    let member = spec_member("hideFilename"@, spec_bool_text(m.hide_filename->Some_0));
    assert(spec_mod_members(m) =~= seq![member]);
    assert(crate::render::spec_join_comma(seq![member]) == member);
}

/// Law: a forbidden download is reported as "password required" exactly when
/// no password was supplied, and as "password incorrect" exactly when one
/// was; the two conditions are distinct error kinds.
pub proof fn lemma_forbidden_download_distinguished()
    ensures
        spec_download_action(403, false) == DownloadStatusAction::PasswordRequired,
        spec_download_action(403, true) == DownloadStatusAction::PasswordIncorrect,
        spec_download_action(403, false) != spec_download_action(403, true),
{
}

} // verus!
