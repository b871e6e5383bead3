//! Files for file inputs: their names, media types and contents.

use crate::json::{object_1, with_member};
use crate::outside::{base64_from, encode_base64, path_file_name};
use crate::text::{ascii_lower_text, chars_of, pieces, text_eq, text_of, to_ascii_lower};
use crate::value::{object, Json, JsonView};
use vstd::prelude::*;

verus! {

/// Whether a piece of a path counts as a component: it is not empty and not a single dot.
pub open spec fn is_component(p: Seq<char>) -> bool {
    p.len() > 0 && p != "."@
}

/// The last component of a path with slashes between its components, where there is one and
/// it is not the parent directory.
pub open spec fn file_name(path: Seq<char>) -> Option<Seq<char>> {
    let components = pieces(path, '/').filter(|p: Seq<char>| is_component(p));
    if components.len() > 0 && components.last() != ".."@ {
        Some(components.last())
    } else {
        None
    }
}

/// Whether every system reads a path alike: it has no backslash, and starts neither with two
/// slashes nor, as a drive does, with one character and a colon.
pub open spec fn is_plain_path(path: Seq<char>) -> bool {
    &&& forall|i: int| 0 <= i < path.len() ==> #[trigger] path[i] != '\\'
    &&& !(path.len() >= 2 && path[0] == '/' && path[1] == '/')
    &&& !(path.len() >= 2 && path[1] == ':')
}

/// Whether `name` may be the file name of a path on the system at hand. For a plain path there is
/// only one.
pub open spec fn may_be_named(path: Seq<char>, name: Option<Seq<char>>) -> bool {
    is_plain_path(path) ==> name == file_name(path)
}

/// The text of a file name.
pub open spec fn name_view(name: Option<String>) -> Option<Seq<char>> {
    match name {
        Some(n) => Some(n@),
        None => None,
    }
}

/// What follows the last dot of a file name, where that dot is not its first character.
pub open spec fn name_extension(name: Seq<char>) -> Option<Seq<char>>
    decreases name.len(),
{
    if name.len() <= 1 {
        None
    } else if name.last() == '.' {
        Some(seq![])
    } else {
        match name_extension(name.drop_last()) {
            Some(e) => Some(e.push(name.last())),
            None => None,
        }
    }
}

/// The extension of a file name, or nothing.
pub open spec fn extension(name: Option<Seq<char>>) -> Seq<char> {
    match name {
        Some(n) => match name_extension(n) {
            Some(e) => e,
            None => seq![],
        },
        None => seq![],
    }
}

/// The media type for an extension in small letters.
pub open spec fn mime_for(e: Seq<char>) -> Seq<char> {
    if e == "txt"@ {
        "text/plain"@
    } else if e == "html"@ || e == "htm"@ {
        "text/html"@
    } else if e == "css"@ {
        "text/css"@
    } else if e == "js"@ {
        "application/javascript"@
    } else if e == "json"@ {
        "application/json"@
    } else if e == "xml"@ {
        "application/xml"@
    } else if e == "pdf"@ {
        "application/pdf"@
    } else if e == "zip"@ {
        "application/zip"@
    } else if e == "png"@ {
        "image/png"@
    } else if e == "jpg"@ || e == "jpeg"@ {
        "image/jpeg"@
    } else if e == "gif"@ {
        "image/gif"@
    } else if e == "svg"@ {
        "image/svg+xml"@
    } else if e == "webp"@ {
        "image/webp"@
    } else if e == "mp4"@ {
        "video/mp4"@
    } else if e == "mp3"@ {
        "audio/mpeg"@
    } else {
        "application/octet-stream"@
    }
}

pub(crate) proof fn lemma_extension(name: Seq<char>, i: int)
    requires
        0 < i < name.len(),
        name[i] == '.',
        forall|k: int| i < k < name.len() ==> name[k] != '.',
    ensures
        name_extension(name) == Some(name.subrange(i + 1, name.len() as int)),
    decreases name.len(),
{
    if i == name.len() - 1 {
        assert(name.subrange(i + 1, name.len() as int) =~= seq![]);
    } else {
        lemma_extension(name.drop_last(), i);
        assert(name.subrange(i + 1, name.len() as int) =~= name.drop_last().subrange(
            i + 1,
            name.len() - 1,
        ).push(name.last()));
    }
}

pub(crate) proof fn lemma_no_extension(name: Seq<char>)
    requires
        forall|k: int| 0 < k < name.len() ==> name[k] != '.',
    ensures
        name_extension(name) is None,
    decreases name.len(),
{
    if name.len() > 1 {
        lemma_no_extension(name.drop_last());
    }
}

fn find_extension(name: &Option<String>) -> (r: String)
    ensures
        r@ == extension(name_view(*name)),
{
    let text = match name {
        Some(n) => n,
        None => return String::new(),
    };
    let v = chars_of(text.as_str());
    let mut i: usize = v.len();
    while i > 1
        invariant
            v@ == text@,
            name_view(*name) == Some(text@),
            i <= v@.len(),
            forall|k: int| i <= k < v@.len() ==> v@[k] != '.',
        decreases i,
    {
        i = i - 1;
        if v[i] == '.' {
            proof {
                lemma_extension(text@, i as int);
            }
            return text_of(&v, i + 1, v.len());
        }
    }
    proof {
        lemma_no_extension(text@);
    }
    String::new()
}

/// The media type that a file name's extension suggests, without regard to the case of letters.
pub open spec fn mime_of(name: Option<Seq<char>>) -> Seq<char> {
    mime_for(ascii_lower_text(extension(name)))
}

/// The media type that a file name's extension suggests, without regard to the case of letters.
/// A letter outside ASCII is the capital of none that the known extensions have.
pub fn mime_from_name(name: &Option<String>) -> (r: String)
    ensures
        r@ == mime_of(name_view(*name)),
{
    let e = to_ascii_lower(find_extension(name).as_str());
    let e = e.as_str();
    if text_eq(e, "txt") {
        "text/plain".to_owned()
    } else if text_eq(e, "html") || text_eq(e, "htm") {
        "text/html".to_owned()
    } else if text_eq(e, "css") {
        "text/css".to_owned()
    } else if text_eq(e, "js") {
        "application/javascript".to_owned()
    } else if text_eq(e, "json") {
        "application/json".to_owned()
    } else if text_eq(e, "xml") {
        "application/xml".to_owned()
    } else if text_eq(e, "pdf") {
        "application/pdf".to_owned()
    } else if text_eq(e, "zip") {
        "application/zip".to_owned()
    } else if text_eq(e, "png") {
        "image/png".to_owned()
    } else if text_eq(e, "jpg") || text_eq(e, "jpeg") {
        "image/jpeg".to_owned()
    } else if text_eq(e, "gif") {
        "image/gif".to_owned()
    } else if text_eq(e, "svg") {
        "image/svg+xml".to_owned()
    } else if text_eq(e, "webp") {
        "image/webp".to_owned()
    } else if text_eq(e, "mp4") {
        "video/mp4".to_owned()
    } else if text_eq(e, "mp3") {
        "audio/mpeg".to_owned()
    } else {
        "application/octet-stream".to_owned()
    }
}

/// The media type that the extension of a path suggests.
pub fn mime_from_extension(path: &str) -> (r: String)
    ensures
        exists|name: Option<Seq<char>>|
            #[trigger] may_be_named(path@, name) && r@ == mime_of(name),
{
    let name = path_file_name(path);
    assert(may_be_named(path@, name_view(name)));
    mime_from_name(&name)
}

/// The name that a file is uploaded under.
pub open spec fn upload_name(name: Option<Seq<char>>) -> Seq<char> {
    match name {
        Some(n) => n,
        None => "file"@,
    }
}

/// A file as the plugin takes it: its name, its contents in Base64, and its media type.
pub open spec fn file_object(name: Option<Seq<char>>, data: Seq<u8>) -> JsonView {
    object("name"@, JsonView::Str(upload_name(name))).with(
        "data"@,
        JsonView::Str(base64_from(data, 0)),
    ).with("mime"@, JsonView::Str(mime_of(name)))
}

/// Writes a file with a given name as the plugin takes it.
pub fn write_file(name: Option<String>, data: &Vec<u8>) -> (r: Json)
    ensures
        r@ == file_object(name_view(name), data@),
{
    let mime = mime_from_name(&name);
    let name = match name {
        Some(n) => n,
        None => "file".to_owned(),
    };
    let file = object_1("name", Json::Str(name));
    let file = with_member(file, "data", Json::Str(encode_base64(data.as_slice())));
    with_member(file, "mime", Json::Str(mime))
}

} // verus!
