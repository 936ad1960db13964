//! What the update service says: the manifest in the body of its answer, and
//! the file name in the header of a download.

use vstd::prelude::*;
use crate::text::{after_last, text_after_last, text_trimmed, trim_matches};

verus! {

/// A JSON value of `serde_json`. Its inside is not visible here.
#[verifier::external_type_specification]
#[verifier::external_body]
pub struct ExJsonValue(serde_json::Value);

/// The members of a JSON object that hold a string, each under its key. A
/// value that is not an object has none. This library does not define it: it
/// is what `serde_json` finds in the value.
pub uninterp spec fn json_strings(value: serde_json::Value) -> Map<Seq<char>, Seq<char>>;

/// The string members of the JSON document that `text` holds, or `None` where
/// `text` is not one JSON value. This library does not define it: it is what
/// `serde_json::from_str` makes of the text.
pub uninterp spec fn json_document(text: Seq<char>) -> Option<Map<Seq<char>, Seq<char>>>;

/// Calls `serde_json::from_str` for a `serde_json::Value` and drops the
/// error's detail. Trusted: it succeeds exactly where `json_document` is
/// `Some`, and the value then holds the string members that `json_document`
/// gives.
#[verifier::external_body]
fn json_parse(text: &str) -> (r: Option<serde_json::Value>)
    ensures
        match r {
            Some(value) => json_document(text@) == Some(json_strings(value)),
            None => json_document(text@) is None,
        },
{
    serde_json::from_str(text).ok()
}

/// Calls `serde_json::Value::get` with a string key and `Value::as_str` on
/// what it finds. Trusted: the result is the string stored under `key`, and is
/// `None` where the value is no object, has no such member, or the member is
/// not a string.
#[verifier::external_body]
fn json_string_member(value: &serde_json::Value, key: &str) -> (r: Option<String>)
    ensures
        match r {
            Some(s) => json_strings(*value).contains_key(key@) && json_strings(*value)[key@] == s@,
            None => !json_strings(*value).contains_key(key@),
        },
{
    value.get(key).and_then(serde_json::Value::as_str).map(str::to_owned)
}

/// The answer of the update service to a query.
#[derive(Debug)]
pub struct UpdateManifest {
    pub latest_version: String,
    pub download_url: String,
    pub checksum: String,
}

/// An `UpdateManifest` as plain text.
pub struct ManifestView {
    pub latest_version: Seq<char>,
    pub download_url: Seq<char>,
    pub checksum: Seq<char>,
}

impl View for UpdateManifest {
    type V = ManifestView;

    open spec fn view(&self) -> ManifestView {
        ManifestView {
            latest_version: self.latest_version@,
            download_url: self.download_url@,
            checksum: self.checksum@,
        }
    }
}

/// The view of a manifest that may be missing.
pub open spec fn manifest_view(manifest: Option<UpdateManifest>) -> Option<ManifestView> {
    match manifest {
        Some(m) => Some(m@),
        None => None,
    }
}

/// The manifest that a JSON object's string members make up: it needs
/// `latest_version`, `download_url` and `checksum`.
pub open spec fn manifest_of(members: Map<Seq<char>, Seq<char>>) -> Option<ManifestView> {
    if members.contains_key("latest_version"@) && members.contains_key("download_url"@)
        && members.contains_key("checksum"@) {
        Some(
            ManifestView {
                latest_version: members["latest_version"@],
                download_url: members["download_url"@],
                checksum: members["checksum"@],
            },
        )
    } else {
        None
    }
}

/// The manifest that the body of an answer holds, if it holds one.
pub open spec fn manifest_in(body: Seq<char>) -> Option<ManifestView> {
    match json_document(body) {
        Some(members) => manifest_of(members),
        None => None,
    }
}

/// Reads the manifest out of a parsed answer. It is there if and only if the
/// answer is an object whose members `latest_version`, `download_url` and
/// `checksum` are strings.
pub fn read_manifest(document: &serde_json::Value) -> (r: Option<UpdateManifest>)
    ensures
        manifest_view(r) == manifest_of(json_strings(*document)),
{
    let latest_version = json_string_member(document, "latest_version");
    let download_url = json_string_member(document, "download_url");
    let checksum = json_string_member(document, "checksum");
    match (latest_version, download_url, checksum) {
        (Some(latest_version), Some(download_url), Some(checksum)) => Some(
            UpdateManifest { latest_version, download_url, checksum },
        ),
        _ => None,
    }
}

/// Parses the body of the service's answer to a query.
pub fn parse_manifest(body: &str) -> (r: Option<UpdateManifest>)
    ensures
        manifest_view(r) == manifest_in(body@),
{
    match json_parse(body) {
        Some(document) => read_manifest(&document),
        None => None,
    }
}

/// The file name that a `Content-Disposition` header value announces: the text
/// after its last `=`, without the double quotes around it.
pub open spec fn announced_file_name(header: Seq<char>) -> Seq<char> {
    trim_matches(after_last(header, '='), '"')
}

/// Takes the destination file name out of the value of a download's
/// `Content-Disposition` header.
pub fn capture_filename_from_header(header: &str) -> (r: String)
    ensures
        r@ == announced_file_name(header@),
{
    let tail = text_after_last(header, '=');
    text_trimmed(tail.as_str(), '"')
}

} // verus!
