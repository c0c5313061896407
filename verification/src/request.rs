//! Reading a request: the head, line by line, with the length that it
//! declares for the body, and the body as form data.

use vstd::prelude::*;
use vstd::string::StringExecFns;
use crate::form::{form_map, parse_form_data, FormData};
use crate::number::{decimal, lemma_decimal_round_trip, lemma_parse_u32_of_decimal,
    parse_u32, read_u32, is_digit};
use crate::text::{chars_of, is_space, lemma_leading_spaces_is, lemma_trailing_spaces_is,
    replace_char, replaced, str_eq, string_of, trim, trim_range, trim_start};

verus! {

/// The code of `c`, with an upper-case ASCII letter counted as its
/// lower-case form.
pub open spec fn lower_code(c: char) -> u32 {
    if 0x41 <= c as u32 <= 0x5A {
        (c as u32 + 32) as u32
    } else {
        c as u32
    }
}

/// Whether `s` begins with the lower-case text `p`, the case of ASCII
/// letters in `s` not counting.
pub open spec fn starts_with_ignore_case(s: Seq<char>, p: Seq<char>) -> bool {
    p.len() <= s.len() && forall|i: int| 0 <= i < p.len() ==> lower_code(s[i]) == p[i] as u32
}

/// The name of the header that declares the length of the body, with its
/// colon, in lower case.
pub open spec fn length_header() -> Seq<char> {
    "content-length:"@
}

/// The length that a header line declares for the body: `None` unless the
/// line begins with the length header's name, in any letter case; else the
/// rest of the line, trimmed, as a `u32`, and 0 where it is none.
pub open spec fn content_length_of(line: Seq<char>) -> Option<u32> {
    if starts_with_ignore_case(line, length_header()) {
        Some(
            match parse_u32(trim(line.skip(length_header().len() as int))) {
                Ok(n) => n,
                Err(_) => 0,
            },
        )
    } else {
        None
    }
}

/// The line that ends a head.
pub open spec fn blank_line() -> Seq<char> {
    "\r\n"@
}

/// The body length after the lines of a head, from `init` before them:
/// that of the last line that declares one.
pub open spec fn head_length(lines: Seq<Seq<char>>, init: u32) -> u32
    decreases lines.len(),
{
    if lines.len() == 0 {
        init
    } else {
        match content_length_of(lines.last()) {
            Some(n) => n,
            None => head_length(lines.drop_last(), init),
        }
    }
}

/// The lines of a head, one after the other.
pub open spec fn head_text(lines: Seq<Seq<char>>) -> Seq<char>
    decreases lines.len(),
{
    if lines.len() == 0 {
        Seq::empty()
    } else {
        head_text(lines.drop_last()) + lines.last()
    }
}

/// The index of the first blank line among `lines`, or their number if
/// none is blank.
pub open spec fn blank_index(lines: Seq<Seq<char>>) -> int
    decreases lines.len(),
{
    if lines.len() == 0 || lines[0] == blank_line() {
        0
    } else {
        1 + blank_index(lines.drop_first())
    }
}

/// The index of the first blank line, or the number of lines where none
/// is blank, is `blank_index`.
pub proof fn lemma_blank_index_is(lines: Seq<Seq<char>>, k: int)
    requires
        0 <= k <= lines.len(),
        forall|j: int| 0 <= j < k ==> lines[j] != blank_line(),
        k < lines.len() ==> lines[k] == blank_line(),
    ensures
        blank_index(lines) == k,
    decreases lines.len(),
{
    if k > 0 {
        let t = lines.drop_first();
        assert forall|j: int| 0 <= j < k - 1 implies t[j] != blank_line() by {
            assert(t[j] == lines[j + 1]);
        }
        lemma_blank_index_is(t, k - 1);
    }
}

/// The texts of a list of strings.
pub open spec fn line_views(lines: Seq<String>) -> Seq<Seq<char>> {
    Seq::new(lines.len(), |i: int| lines[i]@)
}

fn begins_ignoring_case(v: &Vec<char>, p: &Vec<char>) -> (r: bool)
    ensures
        r == starts_with_ignore_case(v@, p@),
{
    if p.len() > v.len() {
        return false;
    }
    let mut i: usize = 0;
    while i < p.len()
        invariant
            i <= p.len() <= v.len(),
            forall|j: int| 0 <= j < i ==> lower_code(v@[j]) == p@[j] as u32,
        decreases p.len() - i,
    {
        let c: u32 = v[i] as u32;
        let low: u32 = if 0x41 <= c && c <= 0x5A {
            c + 32
        } else {
            c
        };
        if low != p[i] as u32 {
            return false;
        }
        i += 1;
    }
    true
}

/// The length that a header line declares for the body, if it declares
/// one.
pub fn header_content_length(line: &str) -> (r: Option<u32>)
    ensures
        r == content_length_of(line@),
{
    let v = chars_of(line);
    let p = chars_of("content-length:");
    if begins_ignoring_case(&v, &p) {
        let (a, b) = trim_range(&v, p.len(), v.len());
        assert(v@.subrange(p.len() as int, v.len() as int) == line@.skip(
            length_header().len() as int,
        ));
        match read_u32(&v, a, b) {
            Ok(n) => Some(n),
            Err(_) => Some(0),
        }
    } else {
        None
    }
}

/// Takes one line of a head: a blank line ends the head and changes
/// nothing; any other line joins the text read so far, and sets the body
/// length if it declares one. Returns whether the head has ended.
pub fn accept_line(request: &mut String, content_length: &mut u32, line: &str) -> (ended: bool)
    ensures
        ended == (line@ == blank_line()),
        ended ==> *final(request) == *old(request) && *final(content_length) == *old(
            content_length,
        ),
        !ended ==> final(request)@ == old(request)@ + line@ && *final(content_length) == (
        match content_length_of(line@) {
            Some(n) => n,
            None => *old(content_length),
        }),
{
    if str_eq(line, "\r\n") {
        return true;
    }
    match header_content_length(line) {
        Some(n) => {
            *content_length = n;
        },
        None => {},
    }
    request.append(line);
    false
}

/// The head as it is handed on: every `+` in it stands as a space.
pub fn finish_head(request: &str) -> (head: String)
    ensures
        head@ == replace_char(request@, '+', ' '),
{
    let v = chars_of(request);
    let w = replaced(&v, 0, v.len(), '+', ' ');
    assert(v@.subrange(0, v.len() as int) == v@);
    string_of(&w)
}

/// Reads a head from the lines that came in, each with its line ending:
/// the lines before the first blank one, joined, with every `+` turned
/// into a space, and in `content_length` the length that the last of them
/// declares. `None` where the lines end before a blank one.
pub fn get_headers(lines: &Vec<String>, content_length: &mut u32) -> (head: Option<String>)
    ensures
        ({
            let all = line_views(lines@);
            let k = blank_index(all);
            &&& *final(content_length) == head_length(all.take(k), *old(content_length))
            &&& head is Some <==> k < all.len()
            &&& head matches Some(text) ==> text@ == replace_char(head_text(all.take(k)), '+', ' ')
        }),
{
    let ghost all = line_views(lines@);
    let mut request = String::new();
    let mut i: usize = 0;
    assert(all.take(0) == Seq::<Seq<char>>::empty());
    while i < lines.len()
        invariant
            i <= lines.len(),
            all == line_views(lines@),
            forall|j: int| 0 <= j < i ==> all[j] != blank_line(),
            request@ == head_text(all.take(i as int)),
            *content_length == head_length(all.take(i as int), *old(content_length)),
        decreases lines.len() - i,
    {
        let ghost before = all.take(i as int);
        let ghost after = all.take(i + 1);
        let ended = accept_line(&mut request, content_length, lines[i].as_str());
        assert(all[i as int] == lines@[i as int]@);
        if ended {
            proof {
                lemma_blank_index_is(all, i as int);
            }
            return Some(finish_head(request.as_str()));
        }
        proof {
            assert(after.drop_last() == before);
            assert(after.last() == all[i as int]);
        }
        i += 1;
    }
    proof {
        lemma_blank_index_is(all, all.len() as int);
        assert(all.take(all.len() as int) == all);
    }
    None
}

/// The number of body bytes to read behind a head: the declared length
/// for a `POST`, none for any other method.
pub open spec fn body_bytes(method: Seq<char>, content_length: u32) -> u32 {
    if method == "POST"@ {
        content_length
    } else {
        0
    }
}

/// The number of body bytes to read behind a head.
pub fn wanted_body(method: &str, content_length: u32) -> (n: u32)
    ensures
        n == body_bytes(method@, content_length),
{
    if str_eq(method, "POST") {
        content_length
    } else {
        0
    }
}

/// The form data of a request whose body text is `payload`: none unless
/// the method is `POST` and the head declares a body.
pub fn get_body(method: &str, content_length: u32, payload: &str) -> (body: Option<FormData>)
    ensures
        body is Some <==> body_bytes(method@, content_length) != 0,
        body matches Some(form) ==> form@ == form_map(payload@),
{
    if wanted_body(method, content_length) == 0 {
        None
    } else {
        Some(parse_form_data(payload))
    }
}

/// `GET` and `POST` are two methods.
pub proof fn lemma_get_is_not_post()
    ensures
        "GET"@ != "POST"@,
{
    reveal_strlit("GET");
    reveal_strlit("POST");
    assert("GET"@[0] != "POST"@[0]);
}

/// No body is read for a `GET`, whatever length the head declares.
pub proof fn lemma_get_reads_no_body(content_length: u32)
    ensures
        body_bytes("GET"@, content_length) == 0,
{
    lemma_get_is_not_post();
}

/// Whether every character of `s` is white space.
pub open spec fn all_space(s: Seq<char>) -> bool {
    forall|i: int| 0 <= i < s.len() ==> is_space(#[trigger] s[i])
}

/// A line made of the length header's name in any letter case, white
/// space, a number in base ten and white space declares that number.
pub proof fn lemma_declared_length(name: Seq<char>, before: Seq<char>, n: u32, after: Seq<char>)
    requires
        name.len() == length_header().len(),
        starts_with_ignore_case(name, length_header()),
        all_space(before),
        all_space(after),
    ensures
        content_length_of(name + before + decimal(n as nat) + after) == Some(n),
{
    let digits = decimal(n as nat);
    let line = name + before + digits + after;
    let rest = before + digits + after;
    lemma_decimal_round_trip(n as nat);
    lemma_parse_u32_of_decimal(n);
    assert forall|i: int| 0 <= i < length_header().len() implies lower_code(line[i])
        == length_header()[i] as u32 by {
        assert(line[i] == name[i]);
    }
    assert(line.skip(length_header().len() as int) == rest);
    assert forall|i: int| 0 <= i < digits.len() implies !is_space(#[trigger] digits[i]) by {
        assert(is_digit(digits[i]));
    }
    assert forall|j: int| 0 <= j < before.len() implies is_space(rest[j]) by {
        assert(rest[j] == before[j]);
    }
    assert(rest[before.len() as int] == digits[0]);
    lemma_leading_spaces_is(rest, before.len() as int);
    let t = trim_start(rest);
    assert(t == digits + after);
    assert forall|j: int| t.len() - after.len() <= j < t.len() implies is_space(t[j]) by {
        assert(t[j] == after[j - digits.len()]);
    }
    assert(t[t.len() - after.len() - 1] == digits[digits.len() - 1]);
    lemma_trailing_spaces_is(t, after.len() as int);
    assert(trim(rest) == digits);
}

/// Where no line of a head declares a length, the length stays as it was
/// before the head: 0 for a fresh request.
pub proof fn lemma_no_length_header(lines: Seq<Seq<char>>, init: u32)
    requires
        forall|i: int| 0 <= i < lines.len() ==> content_length_of(#[trigger] lines[i]) is None,
    ensures
        head_length(lines, init) == init,
    decreases lines.len(),
{
    if lines.len() > 0 {
        let t = lines.drop_last();
        assert(content_length_of(lines[lines.len() - 1]) is None);
        assert forall|i: int| 0 <= i < t.len() implies content_length_of(#[trigger] t[i])
            is None by {
            assert(t[i] == lines[i]);
        }
        lemma_no_length_header(t, init);
    }
}

/// The length after a head is the one that its last declaring line
/// declares.
pub proof fn lemma_last_length_header(lines: Seq<Seq<char>>, init: u32, i: int, n: u32)
    requires
        0 <= i < lines.len(),
        content_length_of(lines[i]) == Some(n),
        forall|j: int| i < j < lines.len() ==> content_length_of(#[trigger] lines[j]) is None,
    ensures
        head_length(lines, init) == n,
    decreases lines.len(),
{
    if i < lines.len() - 1 {
        let t = lines.drop_last();
        assert(content_length_of(lines[lines.len() - 1]) is None);
        assert(t[i] == lines[i]);
        assert forall|j: int| i < j < t.len() implies content_length_of(#[trigger] t[j])
            is None by {
            assert(t[j] == lines[j]);
        }
        lemma_last_length_header(t, init, i, n);
    }
}

} // verus!
