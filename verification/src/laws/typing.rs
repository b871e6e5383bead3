//! What becomes of text that is sent to an element.

use crate::driver::answer::{same_word, step_on_file, step_on_value};
use crate::driver::request::{first_step, Kind, RequestView};
use crate::driver::session::{element_object, ElementView, SessionView};
use crate::driver::step::{StepView, ThenView, UploadView};
use crate::driver::upload::file_object;
use crate::laws::members::{lemma_element_members, lemma_one_member, lemma_with_member};
use crate::text::{
    ascii_lower, ascii_lower_text, filled_lines, lemma_first_place, lines, without_return,
};
use crate::value::{object, JsonView};
use vstd::prelude::*;

verus! {

/// Whether a word is made, letter by letter, of a letter of `small` or the one of `large`.
pub open spec fn spells(word: Seq<char>, small: Seq<char>, large: Seq<char>) -> bool {
    &&& word.len() == small.len()
    &&& forall|i: int|
        0 <= i < word.len() ==> (#[trigger] word[i] == small[i] || word[i] == large[i])
}

/// Whether an answer gives a text that spells a word.
pub open spec fn says(
    v: JsonView,
    key: Seq<char>,
    small: Seq<char>,
    large: Seq<char>,
) -> bool {
    v.get(key) matches Some(JsonView::Str(t)) && spells(t, small, large)
}

proof fn lemma_letter(c: char, small: char, large: char)
    requires
        'a' <= small <= 'z',
        large as u32 == small as u32 - 32,
    ensures
        ascii_lower(c) == ascii_lower(small) <==> c == small || c == large,
{
}

proof fn lemma_word(word: Seq<char>, small: Seq<char>, large: Seq<char>)
    requires
        small.len() == large.len(),
        forall|i: int| 0 <= i < small.len() ==> 'a' <= #[trigger] small[i] <= 'z',
        forall|i: int|
            0 <= i < small.len() ==> #[trigger] large[i] as u32 == small[i] as u32 - 32,
    ensures
        same_word(word, small) <==> spells(word, small, large),
{
    let a = ascii_lower_text(word);
    let b = ascii_lower_text(small);
    assert forall|i: int| 0 <= i < word.len() && i < small.len() implies (#[trigger] a[i] == b[i]
        <==> word[i] == small[i] || word[i] == large[i]) by {
        lemma_letter(word[i], small[i], large[i]);
    }
    if same_word(word, small) {
        assert(a.len() == b.len());
        assert forall|i: int| 0 <= i < word.len() implies (#[trigger] word[i] == small[i]
            || word[i] == large[i]) by {
            assert(a[i] == b[i]);
        }
    }
    if spells(word, small, large) {
        assert forall|i: int| 0 <= i < a.len() implies a[i] == b[i] by {
            assert(word[i] == small[i] || word[i] == large[i]);
        }
        assert(a =~= b);
    }
}

/// Whether a step posts to an endpoint, on an element, with one more member, and goes on so.
pub open spec fn posts_on(
    step: StepView,
    s: SessionView,
    path: Seq<char>,
    e: ElementView,
    key: Seq<char>,
    value: JsonView,
    next: ThenView,
) -> bool {
    step matches StepView::Call { url, body, then } && {
        &&& url == s.plugin_url + path
        &&& body.get("selector"@) == Some(JsonView::Str(e.selector))
        &&& body.get("index"@) == Some(JsonView::Unsigned(e.index as u64))
        &&& body.get("using"@) == Some(JsonView::Str(e.using))
        &&& body.get(key) == Some(value)
        &&& then == next
    }
}

pub(crate) proof fn lemma_element_with(e: ElementView, key: Seq<char>, value: JsonView)
    requires
        element_object(e).get(key) is None,
    ensures
        element_object(e).with(key, value).get("selector"@) == Some(JsonView::Str(e.selector)),
        element_object(e).with(key, value).get("index"@) == Some(
            JsonView::Unsigned(e.index as u64),
        ),
        element_object(e).with(key, value).get("using"@) == Some(JsonView::Str(e.using)),
        element_object(e).with(key, value).get(key) == Some(value),
{
    lemma_element_members(e);
    lemma_with_member(element_object(e), key, value, "selector"@);
    lemma_with_member(element_object(e), key, value, "index"@);
    lemma_with_member(element_object(e), key, value, "using"@);
    lemma_with_member(element_object(e), key, value, key);
}

/// The names of an element's members are none of these.
pub(crate) proof fn lemma_other_names(e: ElementView)
    ensures
        element_object(e).get("text"@) is None,
        element_object(e).get("name"@) is None,
        element_object(e).get("files"@) is None,
{
    reveal_strlit("selector");
    reveal_strlit("index");
    reveal_strlit("using");
    reveal_strlit("text");
    reveal_strlit("name");
    reveal_strlit("files");
    assert("selector"@.len() == 8 && "index"@[0] == 'i' && "using"@[0] == 'u');
    assert("text"@.len() == 4 && "name"@.len() == 4 && "files"@[0] == 'f');
    assert("index"@.len() == 5 && "using"@.len() == 5 && "files"@.len() == 5);
    lemma_no_member(e, "text"@);
    lemma_no_member(e, "name"@);
    lemma_no_member(e, "files"@);
}

proof fn lemma_no_member(e: ElementView, key: Seq<char>)
    requires
        key != "selector"@,
        key != "index"@,
        key != "using"@,
    ensures
        element_object(e).get(key) is None,
{
    let one = object("selector"@, JsonView::Str(e.selector));
    let two = one.with("index"@, JsonView::Unsigned(e.index as u64));
    lemma_one_member("selector"@, JsonView::Str(e.selector), key);
    lemma_with_member(one, "index"@, JsonView::Unsigned(e.index as u64), key);
    lemma_with_member(two, "using"@, JsonView::Str(e.using), key);
}

proof fn lemma_words()
    ensures
        forall|w: Seq<char>| #[trigger]
            same_word(w, "file"@) <==> spells(w, "file"@, "FILE"@),
        forall|w: Seq<char>| #[trigger]
            same_word(w, "input"@) <==> spells(w, "input"@, "INPUT"@),
        !spells(""@, "file"@, "FILE"@),
        !spells(""@, "input"@, "INPUT"@),
{
    reveal_strlit("file");
    reveal_strlit("FILE");
    reveal_strlit("input");
    reveal_strlit("INPUT");
    reveal_strlit("");
    assert("file"@.len() == 4 && "input"@.len() == 5 && ""@.len() == 0);
    assert forall|w: Seq<char>| #[trigger]
        same_word(w, "file"@) <==> spells(w, "file"@, "FILE"@) by {
        lemma_word(w, "file"@, "FILE"@);
    }
    assert forall|w: Seq<char>| #[trigger]
        same_word(w, "input"@) <==> spells(w, "input"@, "INPUT"@) by {
        lemma_word(w, "input"@, "INPUT"@);
    }
}

/// Text for a known element first asks for the element's tag. Where it is an input, in any case
/// of its letters, its type is asked for; the text is kept meanwhile. Into every other element
/// the text is typed as it was given.
pub proof fn law_text_goes_to_its_element(
    s: SessionView,
    r: RequestView,
    v: JsonView,
    fresh: Seq<Seq<char>>,
    text: Seq<char>,
)
    requires
        r.kind == Kind::SendKeys,
        s.elements.contains_key(r.target),
        r.body.get("text"@) == Some(JsonView::Str(text)) || (r.body.get("text"@) is None && text
            == ""@),
    ensures
        ({
            let element = s.elements[r.target];
            let asked = step_on_value(s, ThenView::KeysTag { element, text }, v, fresh);
            &&& first_step(s, r) matches StepView::Call { url, body, then } && {
                &&& url == s.plugin_url + "/element/tag"@
                &&& body == element_object(element)
                &&& then == (ThenView::KeysTag { element, text })
            }
            &&& says(v, "tag"@, "input"@, "INPUT"@) ==> posts_on(
                asked,
                s,
                "/element/attribute"@,
                element,
                "name"@,
                JsonView::Str("type"@),
                ThenView::KeysType { element, text },
            )
            &&& !says(v, "tag"@, "input"@, "INPUT"@) ==> posts_on(
                asked,
                s,
                "/element/send-keys"@,
                element,
                "text"@,
                JsonView::Str(text),
                ThenView::Null,
            )
        }),
{
    let element = s.elements[r.target];
    lemma_words();
    lemma_other_names(element);
    lemma_element_with(element, "name"@, JsonView::Str("type"@));
    lemma_element_with(element, "text"@, JsonView::Str(text));
}

/// Into an input of any type but that of files, and into one without a type, the text is typed
/// as it was given: no file is read. The type of files is told by its word in any case of its
/// letters; there each line of the text that is not empty names a file, and the first is read
/// first. Where there is none, no file is set.
pub proof fn law_only_file_inputs_take_files(
    s: SessionView,
    element: ElementView,
    text: Seq<char>,
    v: JsonView,
    fresh: Seq<Seq<char>>,
)
    ensures
        ({
            let told = step_on_value(s, ThenView::KeysType { element, text }, v, fresh);
            let named = filled_lines(text);
            &&& !says(v, "value"@, "file"@, "FILE"@) ==> posts_on(
                told,
                s,
                "/element/send-keys"@,
                element,
                "text"@,
                JsonView::Str(text),
                ThenView::Null,
            )
            &&& says(v, "value"@, "file"@, "FILE"@) && named.len() > 0 ==> (told
                matches StepView::Read { path, upload } && path == named[0] && upload == (
            UploadView { element, pending: named, files: seq![] }))
            &&& says(v, "value"@, "file"@, "FILE"@) && named.len() == 0 ==> posts_on(
                told,
                s,
                "/element/set-files"@,
                element,
                "files"@,
                JsonView::Array(seq![]),
                ThenView::Null,
            )
        }),
{
    lemma_words();
    lemma_other_names(element);
    lemma_element_with(element, "text"@, JsonView::Str(text));
    lemma_element_with(element, "files"@, JsonView::Array(seq![]));
}

/// A file that was read is put behind those that were read before it. Then the next one is read;
/// behind the last, all are set on the element that the text was for.
pub proof fn law_files_are_read_in_order(
    s: SessionView,
    u: UploadView,
    name: Option<Seq<char>>,
    data: Seq<u8>,
)
    requires
        u.pending.len() > 0,
    ensures
        ({
            let next = step_on_file(s, u, name, Ok(data));
            let files = u.files.push(file_object(name, data));
            &&& u.pending.len() > 1 ==> (next matches StepView::Read { path, upload } && {
                &&& path == u.pending[1]
                &&& upload.pending == u.pending.skip(1)
                &&& upload.files == files
                &&& upload.element == u.element
            })
            &&& u.pending.len() == 1 ==> posts_on(
                next,
                s,
                "/element/set-files"@,
                u.element,
                "files"@,
                JsonView::Array(files),
                ThenView::Null,
            )
        }),
{
    lemma_other_names(u.element);
    lemma_element_with(u.element, "files"@, JsonView::Array(u.files.push(file_object(name, data))));
}

/// The lines of a text are what stands between its line ends, without the carriage return that
/// may stand before each; empty ones name no file. The last line is taken as it is.
pub proof fn law_lines_name_files(line: Seq<char>, rest: Seq<char>)
    requires
        forall|i: int| 0 <= i < line.len() ==> line[i] != '\n',
    ensures
        filled_lines(line) == (if line.len() > 0 {
            seq![line]
        } else {
            seq![]
        }),
        line.len() > 0 && line.last() != '\r' ==> filled_lines(line + seq!['\n'] + rest)
            == seq![line] + filled_lines(rest),
        line.len() > 0 ==> filled_lines(line + seq!['\r', '\n'] + rest) == seq![line]
            + filled_lines(rest),
        filled_lines(seq!['\n'] + rest) == filled_lines(rest),
        filled_lines(seq!['\r', '\n'] + rest) == filled_lines(rest),
{
    let none: Seq<char> = seq![];
    lemma_first_place(line, '\n', line.len() as int);
    if line.len() == 0 {
        assert(filled_lines(line) =~= seq![]);
    } else {
        assert(lines(line) == seq![line]);
        lemma_filled(line, seq![]);
        assert(seq![line] + Seq::<Seq<char>>::empty() =~= seq![line]);
        assert(Seq::<Seq<char>>::empty().filter(|l: Seq<char>| l.len() > 0) =~= seq![]);
        assert(filled_lines(line) =~= seq![line]);
        if line.last() != '\r' {
            lemma_line(line, rest);
        }
        let returned = line.push('\r');
        assert(returned + seq!['\n'] + rest =~= line + seq!['\r', '\n'] + rest);
        assert(returned.drop_last() =~= line);
        lemma_line(returned, rest);
    }
    assert(none + seq!['\n'] + rest =~= seq!['\n'] + rest);
    lemma_line(none, rest);
    assert(seq!['\r'] + seq!['\n'] + rest =~= seq!['\r', '\n'] + rest);
    assert(seq!['\r'].drop_last() =~= none);
    lemma_line(seq!['\r'], rest);
}

proof fn lemma_filled(first: Seq<char>, others: Seq<Seq<char>>)
    ensures
        (seq![first] + others).filter(|l: Seq<char>| l.len() > 0) == (if first.len() > 0 {
            seq![first]
        } else {
            seq![]
        }) + others.filter(|l: Seq<char>| l.len() > 0),
{
    let is_filled = |l: Seq<char>| l.len() > 0;
    Seq::filter_distributes_over_add(seq![first], others, is_filled);
    reveal_with_fuel(Seq::filter, 2);
    assert(seq![first].drop_last() =~= seq![]);
    assert(seq![first].filter(is_filled) =~= (if first.len() > 0 {
        seq![first]
    } else {
        seq![]
    }));
}

proof fn lemma_line(line: Seq<char>, rest: Seq<char>)
    requires
        forall|i: int| 0 <= i < line.len() ==> line[i] != '\n',
    ensures
        filled_lines(line + seq!['\n'] + rest) == (if without_return(line).len() > 0 {
            seq![without_return(line)]
        } else {
            seq![]
        }) + filled_lines(rest),
{
    let all = line + seq!['\n'] + rest;
    lemma_first_place(all, '\n', line.len() as int);
    assert(all.take(line.len() as int) =~= line);
    assert(all.skip((line.len() + 1) as int) =~= rest);
    assert(lines(all) == seq![without_return(line)] + lines(rest));
    lemma_filled(without_return(line), lines(rest));
}

} // verus!
