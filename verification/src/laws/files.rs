//! Files that are uploaded.

use crate::driver::upload::{
    extension, file_name, file_object, is_component, lemma_extension, lemma_no_extension,
    may_be_named, mime_of, name_extension,
};
use crate::laws::members::{lemma_one_member, lemma_with_member};
use crate::outside::{base64_digit, base64_from, base64_group};
use crate::text::{ascii_lower, ascii_lower_text, first_place, lemma_first_place, pieces};
use crate::value::{object, JsonView};
use vstd::prelude::*;

verus! {

/// Whether a text does not hold a character.
pub open spec fn lacks(s: Seq<char>, c: char) -> bool {
    forall|i: int| 0 <= i < s.len() ==> #[trigger] s[i] != c
}

/// A file reaches the plugin under its own name, or under a common one where it has none, with
/// its bytes and with the media type of its name.
pub proof fn law_file_is_posted(name: Option<Seq<char>>, data: Seq<u8>)
    ensures
        ({
            let file = file_object(name, data);
            &&& file.get("name"@) == Some(
                JsonView::Str(
                    match name {
                        Some(n) => n,
                        None => "file"@,
                    },
                ),
            )
            &&& file.get("data"@) == Some(JsonView::Str(base64_from(data, 0)))
            &&& file.get("mime"@) == Some(JsonView::Str(mime_of(name)))
        }),
{
    let n = JsonView::Str(
        match name {
            Some(n) => n,
            None => "file"@,
        },
    );
    let d = JsonView::Str(base64_from(data, 0));
    let m = JsonView::Str(mime_of(name));
    let one = object("name"@, n);
    let two = one.with("data"@, d);
    reveal_strlit("name");
    reveal_strlit("data");
    reveal_strlit("mime");
    assert("name"@[0] == 'n' && "data"@[0] == 'd' && "mime"@[0] == 'm');
    lemma_one_member("name"@, n, "name"@);
    lemma_one_member("name"@, n, "data"@);
    lemma_one_member("name"@, n, "mime"@);
    lemma_with_member(one, "data"@, d, "name"@);
    lemma_with_member(one, "data"@, d, "data"@);
    lemma_with_member(one, "data"@, d, "mime"@);
    lemma_with_member(two, "mime"@, m, "name"@);
    lemma_with_member(two, "mime"@, m, "data"@);
    lemma_with_member(two, "mime"@, m, "mime"@);
}

proof fn lemma_pieces(s: Seq<char>, c: char, last: Seq<char>)
    requires
        lacks(last, c),
    ensures
        pieces(last, c) == seq![last],
        pieces(s + seq![c] + last, c) == pieces(s, c).push(last),
    decreases s.len(),
{
    lemma_first_place(last, c, last.len() as int);
    assert(pieces(last, c) == seq![last]);
    let all = s + seq![c] + last;
    let i = first_place(s, c) as int;
    lemma_place(s, seq![c] + last, c);
    assert(all =~= s + (seq![c] + last));
    assert(first_place(all, c) == i);
    assert(pieces(all, c) == seq![all.take(i)] + pieces(all.skip(i + 1), c));
    if i >= s.len() {
        assert(i == s.len());
        assert(all[i] == c);
        assert(all.take(i) =~= s);
        assert(all.skip(i + 1) =~= last);
        assert(pieces(s, c) == seq![s]);
        assert(seq![s] + seq![last] =~= seq![s].push(last));
    } else {
        assert(all.take(i) =~= s.take(i));
        assert(all.skip(i + 1) =~= s.skip(i + 1) + seq![c] + last);
        lemma_pieces(s.skip(i + 1), c, last);
        assert(seq![s.take(i)] + pieces(s.skip(i + 1), c).push(last) =~= (seq![s.take(i)] + pieces(
            s.skip(i + 1),
            c,
        )).push(last));
    }
}

proof fn lemma_place(s: Seq<char>, rest: Seq<char>, c: char)
    requires
        rest.len() > 0,
        rest[0] == c,
    ensures
        first_place(s, c) <= s.len(),
        first_place(s + rest, c) == first_place(s, c),
    decreases s.len(),
{
    if s.len() == 0 {
        assert(s + rest =~= rest);
    } else {
        lemma_place(s.skip(1), rest, c);
        assert((s + rest).skip(1) =~= s.skip(1) + rest);
    }
}

/// The name of a file is what stands behind the last slash of its path, or the path itself where
/// it has none; one slash more at the end changes nothing. The parent directory is no file.
pub proof fn law_file_is_named_by_its_path(directory: Seq<char>, name: Seq<char>)
    requires
        lacks(name, '/'),
        name.len() > 0,
        name != "."@,
    ensures
        name != ".."@ ==> file_name(directory + seq!['/'] + name) == Some(name),
        name != ".."@ ==> file_name(name) == Some(name),
        file_name(directory + seq!['/'] + ".."@) is None,
        file_name(directory + seq!['/']) == file_name(directory),
        file_name(directory + seq!['/'] + "."@) == file_name(directory),
{
    reveal_strlit("..");
    reveal_strlit(".");
    assert("."@.len() == 1 && ".."@.len() == 2 && ".."@[0] == '.' && ".."@[1] == '.');
    assert("."@[0] == '.');
    assert(lacks(".."@, '/'));
    assert(lacks("."@, '/'));
    let none: Seq<char> = seq![];
    lemma_pieces(directory, '/', name);
    lemma_pieces(directory, '/', ".."@);
    lemma_pieces(directory, '/', none);
    lemma_pieces(directory, '/', "."@);
    assert(directory + seq!['/'] + none =~= directory + seq!['/']);
    let all = pieces(directory, '/');
    lemma_components(all, name);
    lemma_components(all, ".."@);
    lemma_components(all, none);
    lemma_components(all, "."@);
    let empty: Seq<Seq<char>> = seq![];
    assert(empty.push(name) =~= seq![name]);
    lemma_components(empty, name);
}

proof fn lemma_components(all: Seq<Seq<char>>, last: Seq<char>)
    ensures
        all.push(last).filter(|p: Seq<char>| is_component(p)) == (if is_component(last) {
            all.filter(|p: Seq<char>| is_component(p)).push(last)
        } else {
            all.filter(|p: Seq<char>| is_component(p))
        }),
{
    reveal(Seq::filter);
    assert(all.push(last).drop_last() =~= all);
}

/// A path that all systems read alike has one name and no other.
pub proof fn law_plain_paths_have_one_name(path: Seq<char>, name: Option<Seq<char>>)
    requires
        lacks(path, '\\'),
        path.len() >= 2 ==> path[1] != ':' && !(path[0] == '/' && path[1] == '/'),
    ensures
        may_be_named(path, name) <==> name == file_name(path),
{
}

proof fn lemma_ends_in(stem: Seq<char>, end: Seq<char>)
    requires
        stem.len() > 0,
        lacks(end, '.'),
    ensures
        name_extension(stem + seq!['.'] + end) == Some(end),
{
    let all = stem + seq!['.'] + end;
    let i = stem.len() as int;
    assert forall|k: int| i < k < all.len() implies all[k] != '.' by {
        assert(all[k] == end[k - i - 1]);
    }
    lemma_extension(all, i);
    assert(all.subrange(i + 1, all.len() as int) =~= end);
}

/// The extension of a name is what stands behind its last dot. A name without a dot has none, and
/// neither has one whose only dot stands first.
pub proof fn law_extension_is_behind_the_last_dot(stem: Seq<char>, end: Seq<char>)
    requires
        lacks(end, '.'),
    ensures
        stem.len() > 0 ==> extension(Some(stem + seq!['.'] + end)) == end,
        extension(Some(end)).len() == 0,
        extension(Some(seq!['.'] + end)).len() == 0,
        extension(None).len() == 0,
{
    lemma_no_extension(end);
    lemma_no_extension(seq!['.'] + end);
    if stem.len() > 0 {
        lemma_ends_in(stem, end);
    }
}

/// The media type of a file is that of its extension, whatever stands before it, and the case of
/// ASCII letters does not matter.
pub proof fn law_media_type_is_that_of_the_extension(
    one: Seq<char>,
    a: Seq<char>,
    other: Seq<char>,
    b: Seq<char>,
)
    requires
        one.len() > 0,
        other.len() > 0,
        lacks(a, '.'),
        lacks(b, '.'),
        a.len() == b.len(),
        forall|i: int|
            0 <= i < a.len() ==> (#[trigger] a[i] == b[i] || ('A' <= a[i] <= 'Z' && b[i] as u32
                == a[i] as u32 + 32) || ('A' <= b[i] <= 'Z' && a[i] as u32 == b[i] as u32 + 32)),
    ensures
        mime_of(Some(one + seq!['.'] + a)) == mime_of(Some(other + seq!['.'] + b)),
{
    lemma_ends_in(one, a);
    lemma_ends_in(other, b);
    let x = ascii_lower_text(a);
    let y = ascii_lower_text(b);
    assert forall|i: int| 0 <= i < a.len() implies x[i] == y[i] by {
        assert(a[i] == b[i] || ('A' <= a[i] <= 'Z' && b[i] as u32 == a[i] as u32 + 32) || ('A'
            <= b[i] <= 'Z' && a[i] as u32 == b[i] as u32 + 32));
        lemma_cases(a[i], b[i]);
    }
    assert(x =~= y);
}

proof fn lemma_cases(a: char, b: char)
    requires
        a == b || ('A' <= a <= 'Z' && b as u32 == a as u32 + 32) || ('A' <= b <= 'Z' && a as u32
            == b as u32 + 32),
    ensures
        ascii_lower(a) == ascii_lower(b),
{
}

/// The extensions that name a media type, and the types that they name.
pub open spec fn known_types() -> Seq<(Seq<char>, Seq<char>)> {
    seq![
        ("txt"@, "text/plain"@),
        ("html"@, "text/html"@),
        ("htm"@, "text/html"@),
        ("css"@, "text/css"@),
        ("js"@, "application/javascript"@),
        ("json"@, "application/json"@),
        ("xml"@, "application/xml"@),
        ("pdf"@, "application/pdf"@),
        ("zip"@, "application/zip"@),
        ("png"@, "image/png"@),
        ("jpg"@, "image/jpeg"@),
        ("jpeg"@, "image/jpeg"@),
        ("gif"@, "image/gif"@),
        ("svg"@, "image/svg+xml"@),
        ("webp"@, "image/webp"@),
        ("mp4"@, "video/mp4"@),
        ("mp3"@, "audio/mpeg"@),
    ]
}

/// Each of the known extensions names its type, in any case of its letters; a file with another
/// extension, or with none, is of the type of any bytes.
pub proof fn law_media_types(name: Option<Seq<char>>, k: int)
    ensures
        ({
            let e = ascii_lower_text(extension(name));
            let known = known_types();
            &&& 0 <= k < known.len() && e == known[k].0 ==> mime_of(name) == known[k].1
            &&& (forall|j: int| 0 <= j < known.len() ==> (#[trigger] known[j]).0 != e) ==> mime_of(
                name,
            ) == "application/octet-stream"@
            &&& name is None ==> mime_of(name) == "application/octet-stream"@
        }),
{
    reveal_strlit("txt");
    reveal_strlit("html");
    reveal_strlit("htm");
    reveal_strlit("css");
    reveal_strlit("js");
    reveal_strlit("json");
    reveal_strlit("xml");
    reveal_strlit("pdf");
    reveal_strlit("zip");
    reveal_strlit("png");
    reveal_strlit("jpg");
    reveal_strlit("jpeg");
    reveal_strlit("gif");
    reveal_strlit("svg");
    reveal_strlit("webp");
    reveal_strlit("mp4");
    reveal_strlit("mp3");
    assert("txt"@.len() == 3 && "txt"@[0] == 't' && "txt"@[1] == 'x' && "txt"@[2] == 't');
    assert("html"@.len() == 4);
    assert("html"@[0] == 'h' && "html"@[1] == 't' && "html"@[2] == 'm' && "html"@[3] == 'l');
    assert("htm"@.len() == 3 && "htm"@[0] == 'h' && "htm"@[1] == 't' && "htm"@[2] == 'm');
    assert("css"@.len() == 3 && "css"@[0] == 'c' && "css"@[1] == 's' && "css"@[2] == 's');
    assert("js"@.len() == 2 && "js"@[0] == 'j' && "js"@[1] == 's');
    assert("json"@.len() == 4);
    assert("json"@[0] == 'j' && "json"@[1] == 's' && "json"@[2] == 'o' && "json"@[3] == 'n');
    assert("xml"@.len() == 3 && "xml"@[0] == 'x' && "xml"@[1] == 'm' && "xml"@[2] == 'l');
    assert("pdf"@.len() == 3 && "pdf"@[0] == 'p' && "pdf"@[1] == 'd' && "pdf"@[2] == 'f');
    assert("zip"@.len() == 3 && "zip"@[0] == 'z' && "zip"@[1] == 'i' && "zip"@[2] == 'p');
    assert("png"@.len() == 3 && "png"@[0] == 'p' && "png"@[1] == 'n' && "png"@[2] == 'g');
    assert("jpg"@.len() == 3 && "jpg"@[0] == 'j' && "jpg"@[1] == 'p' && "jpg"@[2] == 'g');
    assert("jpeg"@.len() == 4);
    assert("jpeg"@[0] == 'j' && "jpeg"@[1] == 'p' && "jpeg"@[2] == 'e' && "jpeg"@[3] == 'g');
    assert("gif"@.len() == 3 && "gif"@[0] == 'g' && "gif"@[1] == 'i' && "gif"@[2] == 'f');
    assert("svg"@.len() == 3 && "svg"@[0] == 's' && "svg"@[1] == 'v' && "svg"@[2] == 'g');
    assert("webp"@.len() == 4);
    assert("webp"@[0] == 'w' && "webp"@[1] == 'e' && "webp"@[2] == 'b' && "webp"@[3] == 'p');
    assert("mp4"@.len() == 3 && "mp4"@[0] == 'm' && "mp4"@[1] == 'p' && "mp4"@[2] == '4');
    assert("mp3"@.len() == 3 && "mp3"@[0] == 'm' && "mp3"@[1] == 'p' && "mp3"@[2] == '3');
    let e = ascii_lower_text(extension(name));
    let known = known_types();
    if forall|j: int| 0 <= j < known.len() ==> (#[trigger] known[j]).0 != e {
        assert(known[0].0 != e);
        assert(known[1].0 != e);
        assert(known[2].0 != e);
        assert(known[3].0 != e);
        assert(known[4].0 != e);
        assert(known[5].0 != e);
        assert(known[6].0 != e);
        assert(known[7].0 != e);
        assert(known[8].0 != e);
        assert(known[9].0 != e);
        assert(known[10].0 != e);
        assert(known[11].0 != e);
        assert(known[12].0 != e);
        assert(known[13].0 != e);
        assert(known[14].0 != e);
        assert(known[15].0 != e);
        assert(known[16].0 != e);
    }
    let none: Seq<char> = seq![];
    assert(ascii_lower_text(none).len() == 0);
}

proof fn lemma_same_bytes(a: Seq<u8>, b: Seq<u8>, i: nat)
    requires
        a.len() % 3 == 0,
        i <= a.len(),
        i % 3 == 0,
    ensures
        base64_from(a + b, i) == base64_from(a, i) + base64_from(b, 0),
    decreases a.len() + 3 - i,
{
    let all = a + b;
    if i == a.len() {
        lemma_behind(a, b, 0);
        assert(base64_from(a, i) =~= seq![]);
        assert(base64_from(a, i) + base64_from(b, 0) =~= base64_from(b, 0));
    } else {
        assert(i + 3 <= a.len());
        lemma_same_bytes(a, b, i + 3);
        assert(base64_group(all, i as int) =~= base64_group(a, i as int));
        assert(base64_from(all, i) =~= base64_from(a, i) + base64_from(b, 0));
    }
}

proof fn lemma_behind(a: Seq<u8>, b: Seq<u8>, k: nat)
    requires
        a.len() % 3 == 0,
    ensures
        base64_from(a + b, a.len() + k) == base64_from(b, k),
    decreases b.len() + 3 - k,
{
    if k < b.len() {
        lemma_behind(a, b, k + 3);
        assert(base64_group(a + b, (a.len() + k) as int) =~= base64_group(b, k as int));
    }
}

/// The text of bytes, cut behind any whole number of three, is the text of the first part and
/// behind it that of the second. Three bytes make four characters, which are the same only for
/// the same bytes; where fewer are left the rest is filled up.
pub proof fn law_bytes_are_written_in_groups(a: Seq<u8>, b: Seq<u8>, x: Seq<u8>, y: Seq<u8>)
    ensures
        a.len() % 3 == 0 ==> base64_from(a + b, 0) == base64_from(a, 0) + base64_from(b, 0),
        0 < x.len() <= 3 ==> base64_from(x, 0).len() == 4,
        x.len() == 3 && y.len() == 3 && x != y ==> base64_from(x, 0) != base64_from(y, 0),
        x.len() == 1 ==> base64_from(x, 0)[2] == '=' && base64_from(x, 0)[3] == '=',
        x.len() == 2 ==> base64_from(x, 0)[3] == '=',
{
    if a.len() % 3 == 0 {
        lemma_same_bytes(a, b, 0);
    }
    reveal_with_fuel(base64_from, 2);
    if 0 < x.len() <= 3 {
        assert(base64_from(x, 0) =~= base64_group(x, 0));
    }
    if x.len() == 3 && y.len() == 3 && x != y {
        assert(base64_from(y, 0) =~= base64_group(y, 0));
        if base64_from(x, 0) == base64_from(y, 0) {
            lemma_group(x, y);
        }
    }
}

proof fn lemma_digits(v: nat, w: nat)
    requires
        v < 64,
        w < 64,
        base64_digit(v) == base64_digit(w),
    ensures
        v == w,
{
}

proof fn lemma_group(x: Seq<u8>, y: Seq<u8>)
    requires
        x.len() == 3,
        y.len() == 3,
        base64_group(x, 0) == base64_group(y, 0),
    ensures
        x == y,
{
    let g = base64_group(x, 0);
    let h = base64_group(y, 0);
    assert(g[0] == h[0] && g[1] == h[1] && g[2] == h[2] && g[3] == h[3]);
    let (a, b, c) = (x[0] as nat, x[1] as nat, x[2] as nat);
    let (d, e, f) = (y[0] as nat, y[1] as nat, y[2] as nat);
    lemma_digits(a / 4, d / 4);
    lemma_digits(a % 4 * 16 + b / 16, d % 4 * 16 + e / 16);
    lemma_digits(b % 16 * 4 + c / 64, e % 16 * 4 + f / 64);
    lemma_digits(c % 64, f % 64);
    assert(a % 4 == d % 4 && b / 16 == e / 16);
    assert(b % 16 == e % 16 && c / 64 == f / 64);
    assert(a == d && b == e && c == f);
    assert(x =~= y);
}

} // verus!
