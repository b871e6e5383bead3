//! Text: decimal numerals, comparison, searching and splitting.

use vstd::prelude::*;

verus! {

/// The decimal digit of a value below ten.
pub open spec fn digit(d: nat) -> char {
    (48 + d) as char
}

/// A natural number in decimal.
pub open spec fn decimal_text(n: nat) -> Seq<char>
    decreases n,
{
    if n < 10 {
        seq![digit(n)]
    } else {
        decimal_text(n / 10).push(digit(n % 10))
    }
}

/// An integer in decimal, with a minus sign before a negative one.
pub open spec fn integer_text(n: int) -> Seq<char> {
    if n < 0 {
        "-"@ + decimal_text((-n) as nat)
    } else {
        decimal_text(n as nat)
    }
}

/// Writes a number in decimal.
pub fn decimal(n: u64) -> (r: String)
    ensures
        r@ == decimal_text(n as nat),
    decreases n,
{
    let mut s = if n < 10 {
        String::new()
    } else {
        decimal(n / 10)
    };
    let d: u8 = (n % 10) as u8;
    s.push((48 + d) as char);
    s
}

/// Compares two texts.
pub fn text_eq(a: &str, b: &str) -> (r: bool)
    ensures
        r == (a@ == b@),
{
    a.to_owned() == b.to_owned()
}

/// The characters of a text.
pub fn chars_of(s: &str) -> (r: Vec<char>)
    ensures
        r@ == s@,
{
    let mut v: Vec<char> = Vec::new();
    for c in it: s.chars()
        invariant
            v@ == it.seq().take(it.index() as int),
            it.seq() == s@,
    {
        v.push(c);
    }
    v
}

/// The text made of the characters of `v` from `from` up to `to`.
pub fn text_of(v: &Vec<char>, from: usize, to: usize) -> (r: String)
    requires
        from <= to <= v@.len(),
    ensures
        r@ == v@.subrange(from as int, to as int),
{
    let mut s = String::new();
    let mut i: usize = from;
    while i < to
        invariant
            from <= i <= to <= v@.len(),
            s@ == v@.subrange(from as int, i as int),
        decreases to - i,
    {
        s.push(v[i]);
        i = i + 1;
        assert(v@.subrange(from as int, i as int)
            == v@.subrange(from as int, i - 1).push(v@[i - 1]));
    }
    s
}

/// An ASCII capital as its small letter, every other character as it is.
pub open spec fn ascii_lower(c: char) -> char {
    if 'A' <= c <= 'Z' {
        ((c as u8) + 32) as char
    } else {
        c
    }
}

/// A text with its ASCII capitals made small.
pub open spec fn ascii_lower_text(s: Seq<char>) -> Seq<char> {
    s.map_values(|c: char| ascii_lower(c))
}

fn lower_char(c: char) -> (r: char)
    ensures
        r == ascii_lower(c),
{
    if 'A' <= c && c <= 'Z' {
        let b: u8 = c as u8;
        (b + 32) as char
    } else {
        c
    }
}

/// Makes the ASCII capitals of a text small.
pub fn to_ascii_lower(s: &str) -> (r: String)
    ensures
        r@ == ascii_lower_text(s@),
{
    let v = chars_of(s);
    let mut out = String::new();
    let mut i: usize = 0;
    while i < v.len()
        invariant
            v@ == s@,
            i <= v@.len(),
            out@ == ascii_lower_text(s@).take(i as int),
        decreases v@.len() - i,
    {
        out.push(lower_char(v[i]));
        i = i + 1;
        assert(ascii_lower_text(s@).take(i as int) == ascii_lower_text(s@).take(i - 1).push(
            ascii_lower(s@[i - 1]),
        ));
    }
    assert(ascii_lower_text(s@).take(i as int) == ascii_lower_text(s@));
    out
}

/// Compares two texts without regard to the case of ASCII letters.
pub fn eq_ignore_ascii_case(a: &str, b: &str) -> (r: bool)
    ensures
        r == (ascii_lower_text(a@) == ascii_lower_text(b@)),
{
    to_ascii_lower(a) == to_ascii_lower(b)
}

/// Whether `needle` stands in `s` at `i`.
pub open spec fn matches_at(s: Seq<char>, needle: Seq<char>, i: int) -> bool {
    0 <= i && i + needle.len() <= s.len() && s.subrange(i, i + needle.len()) == needle
}

/// Whether `needle` stands anywhere in `s`.
pub open spec fn contains_text(s: Seq<char>, needle: Seq<char>) -> bool {
    exists|i: int| matches_at(s, needle, i)
}

fn matches_chars(s: &Vec<char>, needle: &Vec<char>, i: usize) -> (r: bool)
    requires
        i <= s@.len(),
    ensures
        r == matches_at(s@, needle@, i as int),
{
    if needle.len() > s.len() - i {
        return false;
    }
    let mut j: usize = 0;
    while j < needle.len()
        invariant
            i + needle.len() <= s.len(),
            j <= needle@.len(),
            forall|k: int| 0 <= k < j ==> s@[i + k] == needle@[k],
        decreases needle@.len() - j,
    {
        if s[i + j] != needle[j] {
            assert(s@.subrange(i as int, i + needle@.len())[j as int] != needle@[j as int]);
            return false;
        }
        j = j + 1;
    }
    assert(s@.subrange(i as int, i + needle@.len()) =~= needle@);
    true
}

/// Searches a text for another.
pub fn contains(s: &str, needle: &str) -> (r: bool)
    ensures
        r == contains_text(s@, needle@),
{
    let v = chars_of(s);
    let n = chars_of(needle);
    let mut i: usize = 0;
    loop
        invariant
            v@ == s@,
            n@ == needle@,
            i <= v@.len(),
            forall|k: int| 0 <= k < i ==> !matches_at(s@, needle@, k),
        decreases v@.len() - i,
    {
        if matches_chars(&v, &n, i) {
            assert(matches_at(s@, needle@, i as int));
            return true;
        }
        if i == v.len() {
            assert(forall|k: int| !matches_at(s@, needle@, k));
            return false;
        }
        i = i + 1;
    }
}

/// `s` with every occurrence of `pattern` replaced by `with`, found from left to right without
/// overlap.
pub open spec fn replaced(s: Seq<char>, pattern: Seq<char>, with: Seq<char>) -> Seq<char>
    recommends
        pattern.len() > 0,
    decreases s.len(),
{
    if s.len() == 0 || pattern.len() == 0 {
        s
    } else if matches_at(s, pattern, 0) {
        with + replaced(s.skip(pattern.len() as int), pattern, with)
    } else {
        seq![s[0]] + replaced(s.skip(1), pattern, with)
    }
}

/// Replaces every occurrence of `pattern`.
pub fn replace_all(s: &str, pattern: &str, with: &str) -> (r: String)
    requires
        pattern@.len() > 0,
    ensures
        r@ == replaced(s@, pattern@, with@),
{
    let v = chars_of(s);
    let p = chars_of(pattern);
    let mut out = String::new();
    let mut i: usize = 0;
    assert(v@.skip(0) == v@);
    while i < v.len()
        invariant
            v@ == s@,
            p@ == pattern@,
            p@.len() > 0,
            i <= v@.len(),
            replaced(s@, pattern@, with@) == out@ + replaced(v@.skip(i as int), pattern@, with@),
        decreases v@.len() - i,
    {
        let ghost rest = v@.skip(i as int);
        let ghost before = out@;
        if matches_chars(&v, &p, i) {
            assert(rest.subrange(0, p@.len() as int) == v@.subrange(i as int, i + p@.len()));
            assert(rest.skip(p@.len() as int) == v@.skip(i + p@.len()));
            out.append(with);
            i = i + p.len();
            assert(before + (with@ + replaced(v@.skip(i as int), pattern@, with@)) == before + with@
                + replaced(v@.skip(i as int), pattern@, with@));
        } else {
            assert(!matches_at(rest, p@, 0)) by {
                if matches_at(rest, p@, 0) {
                    assert(rest.subrange(0, p@.len() as int)
                        == v@.subrange(i as int, i + p@.len()));
                }
            }
            assert(rest.skip(1) == v@.skip(i + 1));
            out.push(v[i]);
            i = i + 1;
            assert(before + (seq![rest[0]] + replaced(v@.skip(i as int), pattern@, with@))
                == before.push(rest[0]) + replaced(v@.skip(i as int), pattern@, with@));
        }
    }
    assert(v@.skip(i as int) == Seq::<char>::empty());
    assert(out@ + Seq::<char>::empty() == out@);
    out
}

/// What follows `prefix` in `s`, where `s` starts with it.
pub fn strip_prefix(s: &str, prefix: &str) -> (r: Option<String>)
    ensures
        match r {
            Some(rest) => s@ == prefix@ + rest@,
            None => !matches_at(s@, prefix@, 0),
        },
{
    let v = chars_of(s);
    let p = chars_of(prefix);
    if matches_chars(&v, &p, 0) {
        let rest = text_of(&v, p.len(), v.len());
        assert(s@ == prefix@ + rest@) by {
            assert(s@.subrange(0, prefix@.len() as int) == prefix@);
            assert(s@ =~= s@.subrange(0, prefix@.len() as int) + s@.subrange(
                prefix@.len() as int,
                s@.len() as int,
            ));
        }
        Some(rest)
    } else {
        None
    }
}

/// The characters with Unicode's `White_Space` property.
pub open spec fn is_white_space(c: char) -> bool {
    ||| '\u{9}' <= c <= '\u{d}'
    ||| c == ' '
    ||| c == '\u{85}'
    ||| c == '\u{a0}'
    ||| c == '\u{1680}'
    ||| '\u{2000}' <= c <= '\u{200a}'
    ||| c == '\u{2028}'
    ||| c == '\u{2029}'
    ||| c == '\u{202f}'
    ||| c == '\u{205f}'
    ||| c == '\u{3000}'
}

fn white_space(c: char) -> (r: bool)
    ensures
        r == is_white_space(c),
{
    ('\u{9}' <= c && c <= '\u{d}') || c == ' ' || c == '\u{85}' || c == '\u{a0}' || c == '\u{1680}'
        || ('\u{2000}' <= c && c <= '\u{200a}') || c == '\u{2028}' || c == '\u{2029}' || c
        == '\u{202f}' || c == '\u{205f}' || c == '\u{3000}'
}

/// A text without the white space at its start.
pub open spec fn trimmed_start(s: Seq<char>) -> Seq<char>
    decreases s.len(),
{
    if s.len() > 0 && is_white_space(s[0]) {
        trimmed_start(s.skip(1))
    } else {
        s
    }
}

/// A text without the white space at its end.
pub open spec fn trimmed_end(s: Seq<char>) -> Seq<char>
    decreases s.len(),
{
    if s.len() > 0 && is_white_space(s.last()) {
        trimmed_end(s.drop_last())
    } else {
        s
    }
}

/// A text without the white space around it.
pub open spec fn trimmed(s: Seq<char>) -> Seq<char> {
    trimmed_end(trimmed_start(s))
}

/// Removes the white space around a text.
pub fn trim(s: &str) -> (r: String)
    ensures
        r@ == trimmed(s@),
{
    let v = chars_of(s);
    let mut from: usize = 0;
    assert(v@.skip(0) == s@);
    while from < v.len() && white_space(v[from])
        invariant
            v@ == s@,
            from <= v@.len(),
            trimmed_start(s@) == trimmed_start(v@.skip(from as int)),
        decreases v@.len() - from,
    {
        assert(v@.skip(from as int).skip(1) == v@.skip(from + 1));
        from = from + 1;
    }
    let mut to: usize = v.len();
    assert(v@.skip(from as int) == v@.subrange(from as int, to as int));
    while to > from && white_space(v[to - 1])
        invariant
            from <= to <= v@.len(),
            trimmed_end(trimmed_start(s@)) == trimmed_end(v@.subrange(from as int, to as int)),
        decreases to,
    {
        assert(v@.subrange(from as int, to as int).drop_last() == v@.subrange(
            from as int,
            to - 1,
        ));
        to = to - 1;
    }
    text_of(&v, from, to)
}

/// Whether every character is a decimal digit.
pub open spec fn all_digits(s: Seq<char>) -> bool {
    forall|i: int| 0 <= i < s.len() ==> '0' <= #[trigger] s[i] <= '9'
}

/// The number that a text of decimal digits stands for.
pub open spec fn numeral_value(s: Seq<char>) -> nat
    decreases s.len(),
{
    if s.len() == 0 {
        0
    } else {
        numeral_value(s.drop_last()) * 10 + (s.last() as nat - 48) as nat
    }
}

/// A numeral without the plus sign that may stand before it.
pub open spec fn unsigned_part(s: Seq<char>) -> Seq<char> {
    if s.len() > 0 && s[0] == '+' {
        s.skip(1)
    } else {
        s
    }
}

/// The 16-bit number that a numeral stands for: decimal digits, with a plus sign before them
/// or none, whose value is in range.
pub open spec fn u16_value(s: Seq<char>) -> Option<u16> {
    let d = unsigned_part(s);
    if d.len() > 0 && all_digits(d) && numeral_value(d) <= u16::MAX {
        Some(numeral_value(d) as u16)
    } else {
        None
    }
}

proof fn lemma_numeral_grows(s: Seq<char>, n: int)
    requires
        0 <= n <= s.len(),
    ensures
        numeral_value(s.take(n)) <= numeral_value(s),
    decreases s.len() - n,
{
    if n < s.len() {
        lemma_numeral_grows(s, n + 1);
        assert(s.take(n + 1).drop_last() == s.take(n));
    } else {
        assert(s.take(n) == s);
    }
}

/// Reads a 16-bit number.
pub fn parse_u16(s: &str) -> (r: Option<u16>)
    ensures
        r == u16_value(s@),
{
    let v = chars_of(s);
    let from: usize = if v.len() > 0 && v[0] == '+' {
        1
    } else {
        0
    };
    let ghost d = unsigned_part(s@);
    assert(d == v@.skip(from as int));
    if from == v.len() {
        return None;
    }
    let mut value: u32 = 0;
    let mut i: usize = from;
    assert(d.take(0) == Seq::<char>::empty());
    while i < v.len()
        invariant
            v@ == s@,
            d == v@.skip(from as int),
            d == unsigned_part(s@),
            d.len() > 0,
            from <= i <= v@.len(),
            value == numeral_value(d.take(i - from)),
            value <= u16::MAX,
            all_digits(d.take(i - from)),
        decreases v@.len() - i,
    {
        let c = v[i];
        assert(c == d[i - from]);
        if !('0' <= c && c <= '9') {
            return None;
        }
        let b: u8 = c as u8;
        assert(d.take(i - from + 1).drop_last() == d.take(i - from));
        value = value * 10 + (b - 48) as u32;
        i = i + 1;
        if value > 65535 {
            proof {
                lemma_numeral_grows(d, i - from);
            }
            return None;
        }
    }
    assert(d.take(i - from) == d);
    Some(value as u16)
}

/// The numeral of a number stands for that number and is made of digits.
pub proof fn law_decimal_reads_back(n: nat)
    ensures
        decimal_text(n).len() > 0,
        all_digits(decimal_text(n)),
        numeral_value(decimal_text(n)) == n,
    decreases n,
{
    if n < 10 {
        assert(decimal_text(n).drop_last() == Seq::<char>::empty());
        assert(numeral_value(Seq::<char>::empty()) == 0);
    } else {
        law_decimal_reads_back(n / 10);
        assert(decimal_text(n).drop_last() == decimal_text(n / 10));
    }
}

/// The place of the first `c` in `s`, or the length of `s` where there is none.
pub open spec fn first_place(s: Seq<char>, c: char) -> nat
    decreases s.len(),
{
    if s.len() == 0 || s[0] == c {
        0
    } else {
        1 + first_place(s.skip(1), c)
    }
}

pub(crate) proof fn lemma_first_place(s: Seq<char>, c: char, i: int)
    requires
        0 <= i <= s.len(),
        forall|k: int| 0 <= k < i ==> s[k] != c,
        i == s.len() || s[i] == c,
    ensures
        first_place(s, c) == i,
    decreases i,
{
    if i > 0 {
        lemma_first_place(s.skip(1), c, i - 1);
    }
}

/// The lines of a text. A line ends with a line feed or with the end of the text; a carriage
/// return before the line feed belongs to the line's end. No line follows the last line feed.
pub open spec fn lines(s: Seq<char>) -> Seq<Seq<char>>
    decreases s.len(),
{
    if s.len() == 0 {
        seq![]
    } else {
        let i = first_place(s, '\n') as int;
        if i >= s.len() {
            seq![s]
        } else {
            seq![without_return(s.take(i))] + lines(s.skip(i + 1))
        }
    }
}

/// A text without the carriage return at its end.
pub open spec fn without_return(s: Seq<char>) -> Seq<char> {
    if s.len() > 0 && s.last() == '\r' {
        s.drop_last()
    } else {
        s
    }
}

/// The lines of a text that hold anything.
pub open spec fn filled_lines(s: Seq<char>) -> Seq<Seq<char>> {
    lines(s).filter(|l: Seq<char>| l.len() > 0)
}

/// The texts of a list of strings.
pub open spec fn texts(v: Seq<String>) -> Seq<Seq<char>> {
    v.map_values(|s: String| s@)
}

fn find_char(v: &Vec<char>, from: usize, c: char) -> (r: usize)
    requires
        from <= v@.len(),
    ensures
        from <= r <= v@.len(),
        r - from == first_place(v@.skip(from as int), c),
{
    let mut i: usize = from;
    while i < v.len() && v[i] != c
        invariant
            from <= i <= v@.len(),
            forall|k: int| from <= k < i ==> v@[k] != c,
        decreases v@.len() - i,
    {
        i = i + 1;
    }
    proof {
        lemma_first_place(v@.skip(from as int), c, i - from);
    }
    i
}

/// Splits a text into the lines that hold anything.
pub fn split_filled_lines(s: &str) -> (r: Vec<String>)
    ensures
        texts(r@) == filled_lines(s@),
{
    let v = chars_of(s);
    let mut out: Vec<String> = Vec::new();
    let mut i: usize = 0;
    let ghost filled = |l: Seq<char>| l.len() > 0;
    let ghost mut done: Seq<Seq<char>> = seq![];
    proof {
        reveal(Seq::filter);
        assert(v@.skip(0) == s@);
        assert(done.filter(filled) == Seq::<Seq<char>>::empty());
        assert(texts(out@) == Seq::<Seq<char>>::empty());
        assert(done + lines(s@) == lines(s@));
    }
    while i < v.len()
        invariant
            v@ == s@,
            i <= v@.len(),
            filled == |l: Seq<char>| l.len() > 0,
            lines(s@) == done + lines(v@.skip(i as int)),
            texts(out@) == done.filter(filled),
        decreases v@.len() - i,
    {
        let ghost rest = v@.skip(i as int);
        let end = find_char(&v, i, '\n');
        let mut to: usize = end;
        if end < v.len() && end > i && v[end - 1] == '\r' {
            to = end - 1;
        }
        let line = text_of(&v, i, to);
        let next: usize = if end < v.len() {
            end + 1
        } else {
            end
        };
        proof {
            if end < v@.len() {
                assert(rest.take(end - i) == v@.subrange(i as int, end as int));
                assert(without_return(rest.take(end - i)) == line@);
                assert(rest.skip(end - i + 1) == v@.skip(next as int));
                assert(lines(rest) == seq![line@] + lines(v@.skip(next as int)));
            } else {
                assert(rest == line@);
                assert(v@.skip(next as int) == Seq::<char>::empty());
                assert(lines(rest) == seq![line@] + lines(v@.skip(next as int)));
            }
            let grown = done.push(line@);
            assert(done + (seq![line@] + lines(v@.skip(next as int))) == grown + lines(
                v@.skip(next as int),
            ));
            reveal(Seq::filter);
            assert(grown.drop_last() == done);
            done = grown;
        }
        let ghost before = out@;
        if !line.as_str().is_empty() {
            out.push(line);
            assert(texts(out@) == texts(before).push(line@));
        }
        i = next;
    }
    assert(v@.skip(i as int) == Seq::<char>::empty());
    assert(done + lines(Seq::<char>::empty()) == done);
    out
}

/// The pieces of a text between the occurrences of `c`.
pub open spec fn pieces(s: Seq<char>, c: char) -> Seq<Seq<char>>
    decreases s.len(),
{
    let i = first_place(s, c) as int;
    if i >= s.len() {
        seq![s]
    } else {
        seq![s.take(i)] + pieces(s.skip(i + 1), c)
    }
}

} // verus!
