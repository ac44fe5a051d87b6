//! Parsing of the create-post request body.  The accepted texts are
//! JSON objects whose members all have string values; the three members
//! `title`, `slug` and `body` must each appear exactly once, in any
//! order, and members under any other key are read and ignored.  String
//! values may use the simple JSON escapes (`\"`, `\\`, `\/`, `\b`,
//! `\f`, `\n`, `\r`, `\t`) and `\uXXXX` escapes, surrogate pairs
//! included.  Anything else — a repeated or missing known key, a
//! non-string value, an unpaired surrogate, stray text — is rejected.

use vstd::prelude::*;

use crate::model::{NewPost, NewPostView};
use crate::text::{push_char, str_eq};

verus! {

/// JSON whitespace.
pub open spec fn is_ws(c: char) -> bool {
    c == ' ' || c == '\t' || c == '\n' || c == '\r'
}

/// The first position at or after `i` holding no whitespace.
pub open spec fn skip_ws(s: Seq<char>, i: int) -> int
    decreases s.len() - i,
{
    if 0 <= i < s.len() && is_ws(s[i]) {
        skip_ws(s, i + 1)
    } else {
        i
    }
}

/// What a backslash escape stands for, if it is one of the simple ones.
pub open spec fn esc_char(c: char) -> Option<char> {
    if c == '"' {
        Some('"')
    } else if c == '\\' {
        Some('\\')
    } else if c == '/' {
        Some('/')
    } else if c == 'b' {
        Some('\u{0008}')
    } else if c == 'f' {
        Some('\u{000C}')
    } else if c == 'n' {
        Some('\n')
    } else if c == 'r' {
        Some('\r')
    } else if c == 't' {
        Some('\t')
    } else {
        None
    }
}

/// The value of one hexadecimal digit, either case.
pub open spec fn hex_val(c: char) -> Option<int> {
    if 48 <= c as u32 && c as u32 <= 57 {
        Some(c as u32 - 48)
    } else if 97 <= c as u32 && c as u32 <= 102 {
        Some(c as u32 - 87)
    } else if 65 <= c as u32 && c as u32 <= 70 {
        Some(c as u32 - 55)
    } else {
        None
    }
}

/// The value of the four hexadecimal digits at `i`.
pub open spec fn hex4(s: Seq<char>, i: int) -> Option<int> {
    if 0 <= i && i + 4 <= s.len() {
        match (hex_val(s[i]), hex_val(s[i + 1]), hex_val(s[i + 2]), hex_val(s[i + 3])) {
            (Some(a), Some(b), Some(c), Some(d)) => Some(a * 4096 + b * 256 + c * 16 + d),
            _ => None,
        }
    } else {
        None
    }
}

/// A leading (high) surrogate code unit.
pub open spec fn high_surrogate(n: int) -> bool {
    0xD800 <= n < 0xDC00
}

/// A trailing (low) surrogate code unit.
pub open spec fn low_surrogate(n: int) -> bool {
    0xDC00 <= n < 0xE000
}

/// The code point of a character.
pub open spec fn char_code(c: char) -> int {
    (c as u32) as int
}

/// The character of a code point.
pub open spec fn code_char(n: int) -> char {
    choose|c: char| char_code(c) == n
}

/// Relies on `char::from_u32` of std: it returns the character whose
/// code point is the given value for every Unicode scalar value — any
/// code point up to 0x10FFFF outside the surrogate range — and nothing
/// for any other value.
#[verifier::external_body]
fn char_of_u32(v: u32) -> (r: Option<char>)
    ensures
        (r is Some) == (v < 0xD800 || (0xE000 <= v && v <= 0x10FFFF)),
        r matches Some(c) ==> c == code_char(v as int) && char_code(c) == v as int,
{
    char::from_u32(v)
}

/// The rest of a string literal, read from just after the opening
/// quote: its decoded characters and the position after the closing
/// quote.
pub open spec fn parse_str_body(s: Seq<char>, i: int) -> Option<(Seq<char>, int)>
    decreases s.len() - i,
{
    if !(0 <= i < s.len()) {
        None
    } else if s[i] == '"' {
        Some((Seq::empty(), i + 1))
    } else if s[i] == '\\' {
        if i + 1 < s.len() {
            if s[i + 1] == 'u' {
                match hex4(s, i + 2) {
                    Some(n) => {
                        if high_surrogate(n) {
                            if i + 8 <= s.len() && s[i + 6] == '\\' && s[i + 7] == 'u' {
                                match hex4(s, i + 8) {
                                    Some(m) => {
                                        if low_surrogate(m) {
                                            match parse_str_body(s, i + 12) {
                                                Some(t) => Some(
                                                    (
                                                        seq![
                                                            code_char(
                                                                0x10000 + (n - 0xD800) * 0x400 + (m
                                                                    - 0xDC00),
                                                            ),
                                                        ] + t.0,
                                                        t.1,
                                                    ),
                                                ),
                                                None => None,
                                            }
                                        } else {
                                            None
                                        }
                                    },
                                    None => None,
                                }
                            } else {
                                None
                            }
                        } else if low_surrogate(n) {
                            None
                        } else {
                            match parse_str_body(s, i + 6) {
                                Some(t) => Some((seq![code_char(n)] + t.0, t.1)),
                                None => None,
                            }
                        }
                    },
                    None => None,
                }
            } else {
                match esc_char(s[i + 1]) {
                    Some(c) => match parse_str_body(s, i + 2) {
                        Some(t) => Some((seq![c] + t.0, t.1)),
                        None => None,
                    },
                    None => None,
                }
            }
        } else {
            None
        }
    } else if (s[i] as u32) < 0x20 {
        None
    } else {
        match parse_str_body(s, i + 1) {
            Some(t) => Some((seq![s[i]] + t.0, t.1)),
            None => None,
        }
    }
}

/// A string literal starting at `i`: its decoded characters and the
/// position after the closing quote.
pub open spec fn parse_string(s: Seq<char>, i: int) -> Option<(Seq<char>, int)> {
    if 0 <= i < s.len() && s[i] == '"' {
        parse_str_body(s, i + 1)
    } else {
        None
    }
}

/// One `"key" : "value"` member starting at `i` (leading whitespace
/// allowed): key, value, and the position after the value.
pub open spec fn parse_member(s: Seq<char>, i: int) -> Option<(Seq<char>, Seq<char>, int)> {
    match parse_string(s, skip_ws(s, i)) {
        Some(kr) => {
            let c = skip_ws(s, kr.1);
            if 0 <= c < s.len() && s[c] == ':' {
                match parse_string(s, skip_ws(s, c + 1)) {
                    Some(vr) => Some((kr.0, vr.0, vr.1)),
                    None => None,
                }
            } else {
                None
            }
        },
        None => None,
    }
}

/// The three payload fields as far as they have been seen.
pub ghost struct Fields {
    pub title: Option<Seq<char>>,
    pub slug: Option<Seq<char>>,
    pub body: Option<Seq<char>>,
}

/// No field seen yet.
pub open spec fn empty_fields() -> Fields {
    Fields { title: None, slug: None, body: None }
}

/// Records one member: a known key may appear only once, a member
/// under any other key is ignored.
pub open spec fn set_field(f: Fields, key: Seq<char>, val: Seq<char>) -> Option<Fields> {
    if key == "title"@ {
        if f.title is Some {
            None
        } else {
            Some(Fields { title: Some(val), ..f })
        }
    } else if key == "slug"@ {
        if f.slug is Some {
            None
        } else {
            Some(Fields { slug: Some(val), ..f })
        }
    } else if key == "body"@ {
        if f.body is Some {
            None
        } else {
            Some(Fields { body: Some(val), ..f })
        }
    } else {
        Some(f)
    }
}

/// The payload, once every required field has been seen.
pub open spec fn finish_fields(f: Fields) -> Option<NewPostView> {
    if f.title is Some && f.slug is Some && f.body is Some {
        Some(
            NewPostView {
                title: f.title.unwrap(),
                slug: f.slug.unwrap(),
                body: f.body.unwrap(),
            },
        )
    } else {
        None
    }
}

/// The member list from `i` on, folded over `set_field` starting at
/// `f`: the fields seen, and the position of whatever follows the last
/// member.
pub open spec fn parse_members(s: Seq<char>, i: int, f: Fields) -> Option<(Fields, int)>
    decreases s.len() - i,
    via parse_members_decreases
{
    match parse_member(s, i) {
        Some(m) => match set_field(f, m.0, m.1) {
            Some(f2) => {
                let j = skip_ws(s, m.2);
                if 0 <= j < s.len() && s[j] == ',' {
                    parse_members(s, j + 1, f2)
                } else {
                    Some((f2, j))
                }
            },
            None => None,
        },
        None => None,
    }
}

#[via_fn]
proof fn parse_members_decreases(s: Seq<char>, i: int, f: Fields) {
    if 0 <= i <= s.len() {
        lemma_parse_member_advances(s, i);
        match parse_member(s, i) {
            Some(m) => {
                lemma_skip_ws_bounds(s, m.2);
            },
            None => {},
        }
    }
}

/// Skipping whitespace stays inside the text and never moves back.
proof fn lemma_skip_ws_bounds(s: Seq<char>, i: int)
    requires
        0 <= i <= s.len(),
    ensures
        i <= skip_ws(s, i) <= s.len(),
    decreases s.len() - i,
{
    if i < s.len() && is_ws(s[i]) {
        lemma_skip_ws_bounds(s, i + 1);
    }
}

/// A read string literal body ends past its start, inside the text.
proof fn lemma_parse_str_body_advances(s: Seq<char>, i: int)
    requires
        0 <= i,
    ensures
        parse_str_body(s, i) matches Some(t) ==> i + 1 <= t.1 <= s.len(),
    decreases s.len() - i,
{
    if 0 <= i < s.len() {
        if s[i] == '"' {
        } else if s[i] == '\\' {
            if i + 1 < s.len() {
                if s[i + 1] == 'u' {
                    match hex4(s, i + 2) {
                        Some(n) => {
                            if high_surrogate(n) {
                                if i + 8 <= s.len() && s[i + 6] == '\\' && s[i + 7] == 'u' {
                                    match hex4(s, i + 8) {
                                        Some(m) => {
                                            if low_surrogate(m) {
                                                lemma_parse_str_body_advances(s, i + 12);
                                            }
                                        },
                                        None => {},
                                    }
                                }
                            } else if !low_surrogate(n) {
                                lemma_parse_str_body_advances(s, i + 6);
                            }
                        },
                        None => {},
                    }
                } else {
                    match esc_char(s[i + 1]) {
                        Some(_) => {
                            lemma_parse_str_body_advances(s, i + 2);
                        },
                        None => {},
                    }
                }
            }
        } else if (s[i] as u32) < 0x20 {
        } else {
            lemma_parse_str_body_advances(s, i + 1);
        }
    }
}

/// A read string literal ends past its opening quote, inside the text.
proof fn lemma_parse_string_advances(s: Seq<char>, i: int)
    requires
        0 <= i,
    ensures
        parse_string(s, i) matches Some(t) ==> i + 2 <= t.1 <= s.len(),
{
    if 0 <= i < s.len() && s[i] == '"' {
        lemma_parse_str_body_advances(s, i + 1);
    }
}

/// A read member ends past its start, inside the text.
proof fn lemma_parse_member_advances(s: Seq<char>, i: int)
    requires
        0 <= i <= s.len(),
    ensures
        parse_member(s, i) matches Some(m) ==> i < m.2 <= s.len(),
{
    lemma_skip_ws_bounds(s, i);
    let k = skip_ws(s, i);
    lemma_parse_string_advances(s, k);
    match parse_string(s, k) {
        Some(kr) => {
            lemma_skip_ws_bounds(s, kr.1);
            let c = skip_ws(s, kr.1);
            if 0 <= c < s.len() && s[c] == ':' {
                lemma_skip_ws_bounds(s, c + 1);
                lemma_parse_string_advances(s, skip_ws(s, c + 1));
            }
        },
        None => {},
    }
}

/// The end of a document whose member list was read: the fields count
/// only when a closing brace and nothing but whitespace follow.
pub open spec fn finish_document(s: Seq<char>, r: Option<(Fields, int)>) -> Option<NewPostView> {
    match r {
        Some(t) => {
            if 0 <= t.1 < s.len() && s[t.1] == '}' && skip_ws(s, t.1 + 1) == s.len() {
                finish_fields(t.0)
            } else {
                None
            }
        },
        None => None,
    }
}

/// The payload a request body stands for, if the body is well-formed:
/// an object of string-valued members holding each of `title`, `slug`
/// and `body` exactly once.
pub open spec fn parse_new_post_text(s: Seq<char>) -> Option<NewPostView> {
    let o = skip_ws(s, 0);
    if !(0 <= o < s.len() && s[o] == '{') {
        None
    } else {
        finish_document(s, parse_members(s, o + 1, empty_fields()))
    }
}

/// Whether an exec character is JSON whitespace.
fn ws_char(c: char) -> (r: bool)
    ensures
        r == is_ws(c),
{
    c == ' ' || c == '\t' || c == '\n' || c == '\r'
}

/// Skips whitespace from `i`.
fn skip_ws_x(s: &str, n: usize, i: usize) -> (j: usize)
    requires
        n == s@.len(),
        i <= n,
    ensures
        i <= j <= n,
        j as int == skip_ws(s@, i as int),
    decreases n - i,
{
    let mut j = i;
    while j < n && ws_char(s.get_char(j))
        invariant
            n == s@.len(),
            i <= j <= n,
            skip_ws(s@, i as int) == skip_ws(s@, j as int),
        decreases n - j,
    {
        j += 1;
    }
    j
}

/// Reads one hexadecimal digit.
fn hex_val_x(c: char) -> (r: Option<u8>)
    ensures
        (r is Some) == (hex_val(c) is Some),
        r matches Some(v) ==> v as int == hex_val(c).unwrap(),
{
    let u = c as u32;
    if 48 <= u && u <= 57 {
        Some((u - 48) as u8)
    } else if 97 <= u && u <= 102 {
        Some((u - 87) as u8)
    } else if 65 <= u && u <= 70 {
        Some((u - 55) as u8)
    } else {
        None
    }
}

/// Reads the four hexadecimal digits at `i`.
fn hex4_x(s: &str, n: usize, i: usize) -> (r: Option<u32>)
    requires
        n == s@.len(),
        i <= n,
    ensures
        (r is Some) == (hex4(s@, i as int) is Some),
        r matches Some(v) ==> v as int == hex4(s@, i as int).unwrap(),
{
    if n - i < 4 {
        return None;
    }
    let a = match hex_val_x(s.get_char(i)) {
        Some(v) => v,
        None => { return None; },
    };
    let b = match hex_val_x(s.get_char(i + 1)) {
        Some(v) => v,
        None => { return None; },
    };
    let c = match hex_val_x(s.get_char(i + 2)) {
        Some(v) => v,
        None => { return None; },
    };
    let d = match hex_val_x(s.get_char(i + 3)) {
        Some(v) => v,
        None => { return None; },
    };
    Some((a as u32) * 4096 + (b as u32) * 256 + (c as u32) * 16 + (d as u32))
}

/// Reads the rest of a string literal from just after the opening quote.
fn parse_str_body_x(s: &str, n: usize, i: usize) -> (r: Option<(String, usize)>)
    requires
        n == s@.len(),
        i <= n,
    ensures
        (r is Some) == (parse_str_body(s@, i as int) is Some),
        r matches Some(t) ==> {
            let sp = parse_str_body(s@, i as int).unwrap();
            t.0@ == sp.0 && t.1 as int == sp.1 && i + 1 <= t.1 <= n
        },
    decreases n - i,
{
    if i >= n {
        return None;
    }
    let c = s.get_char(i);
    if c == '"' {
        Some((String::new(), i + 1))
    } else if c == '\\' {
        if i + 1 >= n {
            return None;
        }
        let e = s.get_char(i + 1);
        if e == 'u' {
            let h = match hex4_x(s, n, i + 2) {
                Some(v) => v,
                None => { return None; },
            };
            if 0xD800 <= h && h < 0xDC00 {
                if !(n - i >= 8 && s.get_char(i + 6) == '\\' && s.get_char(i + 7) == 'u') {
                    return None;
                }
                let l = match hex4_x(s, n, i + 8) {
                    Some(v) => v,
                    None => { return None; },
                };
                if !(0xDC00 <= l && l < 0xE000) {
                    return None;
                }
                let cp: u32 = 0x10000 + (h - 0xD800) * 0x400 + (l - 0xDC00);
                let d = match char_of_u32(cp) {
                    Some(d) => d,
                    None => { return None; },
                };
                assert(i + 12 <= n);
                match parse_str_body_x(s, n, i + 12) {
                    Some(t) => {
                        let mut out = String::new();
                        push_char(&mut out, d);
                        out.append(t.0.as_str());
                        assert(out@ =~= seq![d] + t.0@);
                        Some((out, t.1))
                    },
                    None => None,
                }
            } else if 0xDC00 <= h && h < 0xE000 {
                None
            } else {
                let d = match char_of_u32(h) {
                    Some(d) => d,
                    None => { return None; },
                };
                match parse_str_body_x(s, n, i + 6) {
                    Some(t) => {
                        let mut out = String::new();
                        push_char(&mut out, d);
                        out.append(t.0.as_str());
                        assert(out@ =~= seq![d] + t.0@);
                        Some((out, t.1))
                    },
                    None => None,
                }
            }
        } else {
            let d: char = if e == '"' {
                '"'
            } else if e == '\\' {
                '\\'
            } else if e == '/' {
                '/'
            } else if e == 'b' {
                '\u{0008}'
            } else if e == 'f' {
                '\u{000C}'
            } else if e == 'n' {
                '\n'
            } else if e == 'r' {
                '\r'
            } else if e == 't' {
                '\t'
            } else {
                return None;
            };
            assert(esc_char(s@[i + 1]) == Some(d));
            match parse_str_body_x(s, n, i + 2) {
                Some(t) => {
                    let mut out = String::new();
                    push_char(&mut out, d);
                    out.append(t.0.as_str());
                    assert(out@ =~= seq![d] + t.0@);
                    Some((out, t.1))
                },
                None => None,
            }
        }
    } else if (c as u32) < 0x20 {
        None
    } else {
        match parse_str_body_x(s, n, i + 1) {
            Some(t) => {
                let mut out = String::new();
                push_char(&mut out, c);
                out.append(t.0.as_str());
                assert(out@ =~= seq![c] + t.0@);
                Some((out, t.1))
            },
            None => None,
        }
    }
}

/// Reads a string literal starting at `i`.
fn parse_string_x(s: &str, n: usize, i: usize) -> (r: Option<(String, usize)>)
    requires
        n == s@.len(),
        i <= n,
    ensures
        (r is Some) == (parse_string(s@, i as int) is Some),
        r matches Some(t) ==> {
            let sp = parse_string(s@, i as int).unwrap();
            t.0@ == sp.0 && t.1 as int == sp.1 && i + 2 <= t.1 <= n
        },
{
    if i < n && s.get_char(i) == '"' {
        parse_str_body_x(s, n, i + 1)
    } else {
        None
    }
}

/// Reads one `"key" : "value"` member starting at `i`.
fn parse_member_x(s: &str, n: usize, i: usize) -> (r: Option<(String, String, usize)>)
    requires
        n == s@.len(),
        i <= n,
    ensures
        (r is Some) == (parse_member(s@, i as int) is Some),
        r matches Some(t) ==> {
            let sp = parse_member(s@, i as int).unwrap();
            t.0@ == sp.0 && t.1@ == sp.1 && t.2 as int == sp.2 && i < t.2 <= n
        },
{
    let k = skip_ws_x(s, n, i);
    match parse_string_x(s, n, k) {
        Some(kr) => {
            let c = skip_ws_x(s, n, kr.1);
            if c < n && s.get_char(c) == ':' {
                let v = skip_ws_x(s, n, c + 1);
                match parse_string_x(s, n, v) {
                    Some(vr) => Some((kr.0, vr.0, vr.1)),
                    None => None,
                }
            } else {
                None
            }
        },
        None => None,
    }
}

/// Parses a create-post request body.  Returns the payload when the
/// body is a well-formed object whose string-valued members hold each
/// of `title`, `slug` and `body` exactly once, and nothing otherwise.
pub fn parse_new_post(body: &str) -> (r: Option<NewPost>)
    ensures
        (r is Some) == (parse_new_post_text(body@) is Some),
        r matches Some(np) ==> np@ == parse_new_post_text(body@).unwrap(),
{
    let n = body.unicode_len();
    let o = skip_ws_x(body, n, 0);
    if !(o < n && body.get_char(o) == '{') {
        return None;
    }
    let mut title: Option<String> = None;
    let mut slug: Option<String> = None;
    let mut post_body: Option<String> = None;
    let ghost mut f = empty_fields();
    let mut i: usize = o + 1;
    loop
        invariant
            n == body@.len(),
            i <= n,
            fields_match(f, title, slug, post_body),
            parse_new_post_text(body@) == finish_document(
                body@,
                parse_members(body@, i as int, f),
            ),
        decreases n - i,
    {
        let m = match parse_member_x(body, n, i) {
            Some(m) => m,
            None => { return None; },
        };
        if str_eq(m.0.as_str(), "title") {
            if title.is_some() {
                return None;
            }
            title = Some(m.1);
        } else if str_eq(m.0.as_str(), "slug") {
            if slug.is_some() {
                return None;
            }
            slug = Some(m.1);
        } else if str_eq(m.0.as_str(), "body") {
            if post_body.is_some() {
                return None;
            }
            post_body = Some(m.1);
        }
        proof {
            f = set_field(f, m.0@, m.1@).unwrap();
        }
        assert(fields_match(f, title, slug, post_body));
        let j = skip_ws_x(body, n, m.2);
        if j < n && body.get_char(j) == ',' {
            i = j + 1;
        } else {
            if !(j < n && body.get_char(j) == '}') {
                return None;
            }
            if skip_ws_x(body, n, j + 1) != n {
                return None;
            }
            match (title, slug, post_body) {
                (Some(t), Some(sl), Some(b)) => {
                    return Some(NewPost { title: t, slug: sl, body: b });
                },
                _ => {
                    return None;
                },
            }
        }
    }
}

/// The ghost field record and the three exec slots hold the same texts.
spec fn fields_match(
    f: Fields,
    title: Option<String>,
    slug: Option<String>,
    body: Option<String>,
) -> bool {
    &&& (title is Some) == (f.title is Some)
    &&& (title matches Some(t) ==> t@ == f.title.unwrap())
    &&& (slug is Some) == (f.slug is Some)
    &&& (slug matches Some(t) ==> t@ == f.slug.unwrap())
    &&& (body is Some) == (f.body is Some)
    &&& (body matches Some(t) ==> t@ == f.body.unwrap())
}

} // verus!
