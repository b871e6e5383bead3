//! The bodies of the requests that the plugin answers.

use crate::text::text_eq;
use crate::value::Json;
use vstd::prelude::*;

verus! {

/// A request to close a window.
pub struct CloseReq {
    pub label: String,
}

/// A request to switch to a window.
pub struct SwitchWindowReq {
    pub label: String,
}

/// A search of the page.
pub struct FindReq {
    pub using: String,
    pub value: String,
}

/// A search below a shadow root.
pub struct ShadowFindReq {
    pub host_selector: String,
    pub host_index: usize,
    pub host_using: Option<String>,
    pub using: String,
    pub value: String,
}

/// A search below an element.
pub struct FindFromReq {
    pub parent_selector: String,
    pub parent_index: usize,
    pub parent_using: Option<String>,
    pub using: String,
    pub value: String,
}

/// A request on an element.
pub struct ElemReq {
    pub selector: String,
    pub index: usize,
    pub using: Option<String>,
}

/// A request on a named attribute or property of an element.
pub struct ElemAttrReq {
    pub selector: String,
    pub index: usize,
    pub name: String,
    pub using: Option<String>,
}

/// Text for an element.
pub struct SendKeysReq {
    pub selector: String,
    pub index: usize,
    pub text: String,
    pub using: Option<String>,
}

/// A file: its name, its contents in Base64, and its media type.
pub struct FileInfo {
    pub name: String,
    pub data: String,
    pub mime: String,
}

/// Files for a file input.
pub struct SetFilesReq {
    pub selector: String,
    pub index: usize,
    pub files: Vec<FileInfo>,
    pub using: Option<String>,
}

/// A script and its arguments.
pub struct ScriptReq {
    pub script: String,
    pub args: Vec<Json>,
}

/// An address to go to.
pub struct NavReq {
    pub url: String,
}

/// The name of a cookie.
pub struct CookieNameReq {
    pub name: String,
}

/// A cookie.
pub struct CookieData {
    pub name: String,
    pub value: String,
    pub path: String,
    pub domain: Option<String>,
    pub secure: bool,
    pub http_only: bool,
    pub expiry: Option<u64>,
}

/// A cookie to add.
pub struct CookieAddReq {
    pub cookie: CookieData,
}

/// Text for a dialog.
pub struct AlertTextReq {
    pub text: String,
}

/// The text of an optional string.
pub open spec fn optional(o: Option<String>) -> Option<Seq<char>> {
    match o {
        Some(s) => Some(s@),
        None => None,
    }
}

/// Whether an optional string is a given text.
pub fn is_text(o: &Option<String>, s: &str) -> (r: bool)
    ensures
        r == (optional(*o) == Some(s@)),
{
    match o {
        Some(t) => text_eq(t.as_str(), s),
        None => false,
    }
}

/// The media type of a file that names none.
pub fn default_mime() -> (r: String)
    ensures
        r@ == "application/octet-stream"@,
{
    "application/octet-stream".to_owned()
}

/// The path of a cookie that names none.
pub fn default_path() -> (r: String)
    ensures
        r@ == "/"@,
{
    "/".to_owned()
}

} // verus!
