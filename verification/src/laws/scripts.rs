//! The scripts that the plugin writes.

use crate::outside::{hex_digit, json_escape, json_escaped, json_quoted};
use crate::plugin::eval::{
    final_script, JobView, ASYNC_CLOSE, ASYNC_FOURTH, ASYNC_OPEN, ASYNC_SECOND, ASYNC_THIRD,
    CALLBACK_ID, FRAMED_CLOSE, FRAMED_FOURTH, FRAMED_OPEN, FRAMED_SECOND, FRAMED_THIRD,
    RESOLVE_ARGS_JS, TOP_CLOSE, TOP_OPEN, TOP_SECOND, TOP_THIRD,
};
use crate::plugin::state::{frame_prefix, FrameView};
use crate::text::{contains_text, matches_at, replaced};
use vstd::prelude::*;

verus! {

/// The value of a hexadecimal digit.
pub open spec fn hex_value(c: char) -> nat {
    if c <= '9' {
        (c as nat - 48) as nat
    } else {
        (c as nat - 87) as nat
    }
}

/// The character that the escape sequence at the start of `t` stands for, and its length.
pub open spec fn read_escape(t: Seq<char>) -> (char, int) {
    if t[1] == 'b' {
        ('\u{8}', 2)
    } else if t[1] == 't' {
        ('\t', 2)
    } else if t[1] == 'n' {
        ('\n', 2)
    } else if t[1] == 'f' {
        ('\u{c}', 2)
    } else if t[1] == 'r' {
        ('\r', 2)
    } else if t[1] == 'u' {
        ((hex_value(t[4]) * 16 + hex_value(t[5])) as char, 6)
    } else {
        (t[1], 2)
    }
}

/// The text of the JSON string whose opening quotation mark stands before `t`, and what follows
/// its closing quotation mark.
pub open spec fn read_string(t: Seq<char>) -> (Seq<char>, Seq<char>)
    decreases t.len(),
{
    if t.len() == 0 {
        (seq![], t)
    } else if t[0] == '"' {
        (seq![], t.skip(1))
    } else if t[0] == '\\' {
        let (c, n) = read_escape(t);
        if n <= t.len() {
            let (text, rest) = read_string(t.skip(n));
            (seq![c] + text, rest)
        } else {
            (seq![], t)
        }
    } else {
        let (text, rest) = read_string(t.skip(1));
        (seq![t[0]] + text, rest)
    }
}

proof fn lemma_escaped_from_the_front(s: Seq<char>)
    requires
        s.len() > 0,
    ensures
        json_escaped(s) == json_escape(s[0]) + json_escaped(s.skip(1)),
    decreases s.len(),
{
    let none: Seq<char> = seq![];
    assert(json_escaped(none) =~= none);
    if s.len() == 1 {
        assert(s.drop_last() =~= none);
        assert(s.skip(1) =~= none);
        assert(json_escaped(s) =~= json_escape(s[0]) + json_escaped(s.skip(1)));
    } else {
        lemma_escaped_from_the_front(s.drop_last());
        assert(s.drop_last().skip(1) =~= s.skip(1).drop_last());
        assert(s.skip(1).last() == s.last());
        assert(json_escaped(s) =~= json_escape(s[0]) + json_escaped(s.skip(1)));
    }
}

proof fn lemma_hex_reads_back(d: nat)
    requires
        d < 16,
    ensures
        hex_value(hex_digit(d)) == d,
{
}

proof fn lemma_escape_reads_back(c: char, next: Seq<char>)
    ensures
        json_escape(c).len() == 1 ==> json_escape(c)[0] == c && c != '"' && c != '\\',
        json_escape(c).len() != 1 ==> json_escape(c).len() > 1 && json_escape(c)[0] == '\\'
            && read_escape(json_escape(c) + next) == (c, json_escape(c).len() as int),
{
    let e = json_escape(c);
    let t = e + next;
    if e.len() == 6 {
        lemma_hex_reads_back((c as nat) / 16);
        lemma_hex_reads_back((c as nat) % 16);
        assert(t[4] == hex_digit((c as nat) / 16));
        assert(t[5] == hex_digit((c as nat) % 16));
        assert(hex_value(t[4]) * 16 + hex_value(t[5]) == c as nat);
        assert(t[1] == 'u');
    } else if e.len() > 1 {
        assert(t[1] == e[1]);
    }
}

/// A text that is put into a script as a JSON string is read back as that text, and the string
/// ends where it was meant to end, whatever follows it.
pub proof fn law_quoted_text_reads_back(s: Seq<char>, rest: Seq<char>)
    ensures
        json_quoted(s)[0] == '"',
        read_string((json_quoted(s) + rest).skip(1)) == (s, rest),
    decreases s.len(),
{
    let t = (json_quoted(s) + rest).skip(1);
    let tail = seq!['"'] + rest;
    assert(t =~= json_escaped(s) + tail);
    if s.len() == 0 {
        assert(t =~= tail);
        assert(t.skip(1) =~= rest);
        assert(s =~= seq![]);
    } else {
        let c = s[0];
        let e = json_escape(c);
        let next = (json_quoted(s.skip(1)) + rest).skip(1);
        law_quoted_text_reads_back(s.skip(1), rest);
        lemma_escaped_from_the_front(s);
        assert(next =~= json_escaped(s.skip(1)) + tail);
        assert(t =~= e + next);
        assert(t.skip(e.len() as int) =~= next);
        lemma_escape_reads_back(c, next);
        assert(seq![c] + s.skip(1) =~= s);
    }
}

proof fn lemma_replacement_stands(s: Seq<char>, pattern: Seq<char>, with: Seq<char>, i: int)
    requires
        pattern.len() > 0,
        matches_at(s, pattern, i),
    ensures
        contains_text(replaced(s, pattern, with), with),
    decreases s.len(),
{
    let r = replaced(s, pattern, with);
    if matches_at(s, pattern, 0) {
        assert(r.subrange(0, with.len() as int) =~= with);
        assert(matches_at(r, with, 0));
    } else {
        let rest = s.skip(1);
        assert(rest.subrange(i - 1, i - 1 + pattern.len()) =~= s.subrange(i, i + pattern.len()));
        lemma_replacement_stands(rest, pattern, with, i - 1);
        let t = replaced(rest, pattern, with);
        let j = choose|j: int| matches_at(t, with, j);
        assert(r.subrange(j + 1, j + 1 + with.len()) =~= t.subrange(j, j + with.len()));
        assert(matches_at(r, with, j + 1));
    }
}

proof fn lemma_middle_stands(before: Seq<char>, middle: Seq<char>, after: Seq<char>)
    ensures
        contains_text(before + middle + after, middle),
{
    let all = before + middle + after;
    let i = before.len() as int;
    assert(all.subrange(i, i + middle.len()) =~= middle);
    assert(matches_at(all, middle, i));
}

/// The script that the webview runs holds the id that its result is waited for under. A script
/// that reports its result itself has to say where the id goes.
pub proof fn law_script_reports_under_its_id(frames: Seq<FrameView>, job: JobView, id: Seq<char>)
    requires
        job matches JobView::Callback(script) ==> contains_text(script, CALLBACK_ID@),
    ensures
        contains_text(final_script(frames, job, id), id),
{
    let all = final_script(frames, job, id);
    match job {
        JobView::Wrapped(script) => {
            if frames.len() > 0 {
                let before = FRAMED_OPEN@ + frame_prefix(frames) + FRAMED_SECOND@ + script
                    + FRAMED_THIRD@;
                let after = FRAMED_FOURTH@ + id + FRAMED_CLOSE@;
                lemma_middle_stands(before, id, after);
                assert(all =~= before + id + after);
            } else {
                let before = TOP_OPEN@ + script + TOP_SECOND@;
                let after = TOP_THIRD@ + id + TOP_CLOSE@;
                lemma_middle_stands(before, id, after);
                assert(all =~= before + id + after);
            }
        },
        JobView::Callback(script) => {
            reveal_strlit("__CALLBACK_ID__");
            let i = choose|i: int| matches_at(script, CALLBACK_ID@, i);
            lemma_replacement_stands(script, CALLBACK_ID@, id, i);
        },
        JobView::Async { args, script } => {
            let before = "(function(){"@ + RESOLVE_ARGS_JS@ + ASYNC_OPEN@ + args + ASYNC_SECOND@;
            let after = ASYNC_THIRD@ + script + ASYNC_FOURTH@ + id + ASYNC_CLOSE@;
            lemma_middle_stands(before, id, after);
            assert(all =~= before + id + after);
        },
    }
}

} // verus!
