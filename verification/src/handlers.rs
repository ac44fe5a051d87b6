//! The request-handling surface: one function per endpoint mapping a
//! query result to an HTTP response, and one per endpoint running the
//! whole request against the in-memory store.  The unverified shell
//! around the library performs the HTTP and database I/O and calls
//! these with plain values.

use vstd::prelude::*;

use crate::json::{parse_new_post, parse_new_post_text};
use crate::model::{post_of, views, Post, PostView};
use crate::render::{index_html, post_html, render_index, render_post};
use crate::store::{matching, Store};
use crate::text::push_char;

verus! {

/// A failed store call; the detail is dropped, as every failure is
/// answered with the same generic text.
pub enum DbError {
    QueryFailed,
}

/// The media kind of a response body.
#[derive(PartialEq, Eq, Structural)]
pub enum ContentKind {
    Html,
    PlainText,
}

/// A finished HTTP response: status code, media kind, body.
pub struct Response {
    pub status: u16,
    pub content_type: ContentKind,
    pub body: String,
}

/// The generic text every failed store call is answered with.
pub open spec fn error_text() -> Seq<char> {
    "Error al recibir la data"@
}

/// The decimal digits of a number, most significant first.
pub open spec fn dec_digits(n: nat) -> Seq<char>
    decreases n,
{
    if n < 10 {
        seq![digit_char(n)]
    } else {
        dec_digits(n / 10) + seq![digit_char(n % 10)]
    }
}

/// The digit character of a value below ten.
pub open spec fn digit_char(d: nat) -> char {
    ((48 + (d % 10)) as u8) as char
}

/// The decimal text of an integer, with a sign when negative.
pub open spec fn int_text(i: int) -> Seq<char> {
    if i >= 0 {
        dec_digits(i as nat)
    } else {
        seq!['-'] + dec_digits((-i) as nat)
    }
}

/// The hexadecimal digits of a number, lowercase, most significant
/// first.
pub open spec fn hex_digits(n: nat) -> Seq<char>
    decreases n,
{
    if n < 16 {
        seq![hex_digit(n)]
    } else {
        hex_digits(n / 16) + seq![hex_digit(n % 16)]
    }
}

/// The hexadecimal digit character of a value below sixteen.
pub open spec fn hex_digit(d: nat) -> char {
    if d % 16 < 10 {
        ((48 + (d % 16)) as u8) as char
    } else {
        ((87 + (d % 16)) as u8) as char
    }
}

/// What one character contributes to a quoted dump field, in debug
/// style: quote and backslash get a leading backslash, newline,
/// carriage return and tab their letter escapes, any other control
/// character a `\u{..}` escape with lowercase hex, and every other
/// character stands as is.
pub open spec fn dump_escape1(c: char) -> Seq<char> {
    if c == '"' {
        "\\\""@
    } else if c == '\\' {
        "\\\\"@
    } else if c == '\n' {
        "\\n"@
    } else if c == '\r' {
        "\\r"@
    } else if c == '\t' {
        "\\t"@
    } else if (c as u32) < 0x20 {
        "\\u{"@ + hex_digits((c as u32) as nat) + "}"@
    } else {
        seq![c]
    }
}

/// The debug-style escaped form of a dump field.
pub open spec fn dump_escape(s: Seq<char>) -> Seq<char>
    decreases s.len(),
{
    if s.len() == 0 {
        Seq::empty()
    } else {
        dump_escape(s.drop_last()) + dump_escape1(s.last())
    }
}

/// The textual dump of a created post, echoed by the create endpoint;
/// the text fields are quoted in debug style, with quotes, backslashes
/// and control characters escaped.
pub open spec fn post_dump(p: PostView) -> Seq<char> {
    "Post { id: "@ + int_text(p.id) + ", title: \""@ + dump_escape(p.title) + "\", slug: \""@
        + dump_escape(p.slug) + "\", body: \""@ + dump_escape(p.body) + "\" }"@
}

/// Appends the decimal digits of `v`.
fn push_decimal(out: &mut String, v: u32)
    ensures
        final(out)@ == old(out)@ + dec_digits(v as nat),
    decreases v,
{
    if v < 10 {
        let d: u8 = 48 + (v as u8);
        push_char(out, d as char);
        assert(old(out)@.push(d as char) =~= old(out)@ + seq![digit_char(v as nat)]);
    } else {
        push_decimal(out, v / 10);
        let d: u8 = 48 + ((v % 10) as u8);
        push_char(out, d as char);
        assert(final(out)@ =~= old(out)@ + dec_digits((v / 10) as nat) + seq![
            digit_char((v % 10) as nat),
        ]);
    }
}

/// Appends the decimal text of `v`, with a sign when negative.
fn push_int(out: &mut String, v: i32)
    ensures
        final(out)@ == old(out)@ + int_text(v as int),
{
    if v >= 0 {
        push_decimal(out, v as u32);
    } else {
        push_char(out, '-');
        let m: i64 = -(v as i64);
        assert(0 <= m <= u32::MAX);
        push_decimal(out, m as u32);
        assert(final(out)@ =~= old(out)@ + (seq!['-'] + dec_digits((-(v as int)) as nat)));
    }
}

/// Appends the hexadecimal digits of `v`, lowercase.
fn push_hex(out: &mut String, v: u32)
    ensures
        final(out)@ == old(out)@ + hex_digits(v as nat),
    decreases v,
{
    if v < 16 {
        let d: u8 = if v < 10 {
            48 + (v as u8)
        } else {
            87 + (v as u8)
        };
        push_char(out, d as char);
        assert(old(out)@.push(d as char) =~= old(out)@ + seq![hex_digit(v as nat)]);
    } else {
        push_hex(out, v / 16);
        let r = v % 16;
        let d: u8 = if r < 10 {
            48 + (r as u8)
        } else {
            87 + (r as u8)
        };
        push_char(out, d as char);
        assert(final(out)@ =~= old(out)@ + hex_digits((v / 16) as nat) + seq![
            hex_digit((v % 16) as nat),
        ]);
    }
}

/// Escapes one dump field in debug style.
fn dump_quote(s: &str) -> (r: String)
    ensures
        r@ == dump_escape(s@),
{
    let n = s.unicode_len();
    let mut out = String::new();
    let mut i: usize = 0;
    while i < n
        invariant
            n == s@.len(),
            0 <= i <= n,
            out@ == dump_escape(s@.subrange(0, i as int)),
        decreases n - i,
    {
        let ghost pre = s@.subrange(0, i as int);
        let ghost cur = s@.subrange(0, i + 1 as int);
        assert(cur.drop_last() =~= pre);
        assert(cur.last() == s@[i as int]);
        let c = s.get_char(i);
        if c == '"' {
            out.append("\\\"");
        } else if c == '\\' {
            out.append("\\\\");
        } else if c == '\n' {
            out.append("\\n");
        } else if c == '\r' {
            out.append("\\r");
        } else if c == '\t' {
            out.append("\\t");
        } else if (c as u32) < 0x20 {
            out.append("\\u{");
            push_hex(&mut out, c as u32);
            out.append("}");
            assert(out@ =~= dump_escape(pre) + dump_escape1(c));
        } else {
            push_char(&mut out, c);
            assert(out@ =~= dump_escape(pre) + dump_escape1(c));
        }
        i += 1;
    }
    assert(s@.subrange(0, n as int) =~= s@);
    out
}

/// The textual dump of a created post.
pub fn dump_post(p: &Post) -> (r: String)
    ensures
        r@ == post_dump(p@),
{
    let mut out = String::from_str("Post { id: ");
    push_int(&mut out, p.id);
    out.append(", title: \"");
    let t = dump_quote(p.title.as_str());
    out.append(t.as_str());
    out.append("\", slug: \"");
    let sl = dump_quote(p.slug.as_str());
    out.append(sl.as_str());
    out.append("\", body: \"");
    let b = dump_quote(p.body.as_str());
    out.append(b.as_str());
    out.append("\" }");
    out
}

/// A generic failure answer: status 200 with the fixed error text, as
/// the listing and detail endpoints give it.
fn error_response() -> (resp: Response)
    ensures
        resp.status == 200,
        resp.content_type == ContentKind::PlainText,
        resp.body@ == error_text(),
{
    Response {
        status: 200,
        content_type: ContentKind::PlainText,
        body: String::from_str("Error al recibir la data"),
    }
}

/// The listing endpoint's answer to a query result: the rendered
/// listing page on success, the generic error text on failure.
pub fn index_response(r: Result<Vec<Post>, DbError>) -> (resp: Response)
    ensures
        r matches Ok(posts) ==> resp.status == 200 && resp.content_type == ContentKind::Html
            && resp.body@ == index_html(views(posts@)),
        r is Err ==> resp.status == 200 && resp.content_type == ContentKind::PlainText
            && resp.body@ == error_text(),
{
    match r {
        Ok(posts) => Response {
            status: 200,
            content_type: ContentKind::Html,
            body: render_index(&posts),
        },
        Err(_) => error_response(),
    }
}

/// The detail endpoint's answer to a query result: 404 with an empty
/// body when no row matched, the rendered first match otherwise, the
/// generic error text on failure.
pub fn get_post_response(r: Result<Vec<Post>, DbError>) -> (resp: Response)
    ensures
        r matches Ok(rows) ==> {
            &&& rows@.len() == 0 ==> resp.status == 404 && resp.body@ == Seq::<char>::empty()
            &&& rows@.len() > 0 ==> resp.status == 200 && resp.content_type == ContentKind::Html
                && resp.body@ == post_html(rows@[0]@)
        },
        r is Err ==> resp.status == 200 && resp.content_type == ContentKind::PlainText
            && resp.body@ == error_text(),
{
    match r {
        Ok(rows) => {
            if rows.len() == 0 {
                Response {
                    status: 404,
                    content_type: ContentKind::PlainText,
                    body: String::new(),
                }
            } else {
                Response {
                    status: 200,
                    content_type: ContentKind::Html,
                    body: render_post(&rows[0]),
                }
            }
        },
        Err(_) => error_response(),
    }
}

/// The create endpoint's answer to an insert result: the textual dump
/// of the created row on success, the generic error text on failure.
pub fn new_post_response(r: Result<Post, DbError>) -> (resp: Response)
    ensures
        r matches Ok(p) ==> resp.status == 200 && resp.content_type == ContentKind::PlainText
            && resp.body@ == post_dump(p@),
        r is Err ==> resp.status == 200 && resp.content_type == ContentKind::PlainText
            && resp.body@ == error_text(),
{
    match r {
        Ok(p) => Response {
            status: 200,
            content_type: ContentKind::PlainText,
            body: dump_post(&p),
        },
        Err(_) => error_response(),
    }
}

/// The whole listing request against the store: always 200 with the
/// listing page of every stored row, in stored order.
pub fn index(store: &Store) -> (resp: Response)
    ensures
        resp.status == 200,
        resp.content_type == ContentKind::Html,
        resp.body@ == index_html(views(store.posts@)),
{
    let rows = store.load_all();
    index_response(Ok(rows))
}

/// The whole detail request against the store: 404 with an empty body
/// when no row carries the slug, otherwise 200 with the detail page of
/// the first such row.
pub fn get_post(store: &Store, slug: &str) -> (resp: Response)
    ensures
        matching(views(store.posts@), slug@).len() == 0 ==> resp.status == 404 && resp.body@
            == Seq::<char>::empty(),
        matching(views(store.posts@), slug@).len() > 0 ==> resp.status == 200
            && resp.content_type == ContentKind::Html && resp.body@ == post_html(
            matching(views(store.posts@), slug@)[0],
        ),
{
    let rows = store.find_by_slug(slug);
    assert(views(rows@).len() == rows@.len());
    assert(rows@.len() > 0 ==> views(rows@)[0] == rows@[0]@);
    get_post_response(Ok(rows))
}

/// The whole create request against the store: a body that is no valid
/// payload is rejected with 400 and the store is left untouched; a
/// valid payload is inserted under the next generated identifier and
/// echoed back as its textual dump.
pub fn new_post(store: &mut Store, body: &str) -> (resp: Response)
    requires
        old(store).wf(),
        old(store).next_id < i32::MAX,
    ensures
        final(store).wf(),
        parse_new_post_text(body@) is None ==> resp.status == 400 && resp.body@
            == Seq::<char>::empty() && *final(store) == *old(store),
        parse_new_post_text(body@) matches Some(np) ==> {
            let created = post_of(np, old(store).next_id as int);
            &&& views(final(store).posts@) == views(old(store).posts@).push(created)
            &&& final(store).next_id == old(store).next_id + 1
            &&& resp.status == 200
            &&& resp.content_type == ContentKind::PlainText
            &&& resp.body@ == post_dump(created)
        },
{
    match parse_new_post(body) {
        None => Response {
            status: 400,
            content_type: ContentKind::PlainText,
            body: String::new(),
        },
        Some(np) => {
            let p = store.insert(&np);
            new_post_response(Ok(p))
        },
    }
}

/// A payload just created under a fresh slug is found again: looking
/// its slug up finds exactly the created post, whose fields are the
/// submitted ones, the listing holds it, and the listing page shows
/// its escaped title.
pub proof fn lemma_create_then_lookup(posts: Seq<PostView>, np: crate::model::NewPostView, id: int)
    requires
        matching(posts, np.slug).len() == 0,
    ensures
        matching(posts.push(post_of(np, id)), np.slug) == seq![post_of(np, id)],
        posts.push(post_of(np, id)).contains(post_of(np, id)),
        crate::text::has_subseq(
            index_html(posts.push(post_of(np, id))),
            crate::render::escape(np.title),
        ),
{
    let p = post_of(np, id);
    let grown = posts.push(p);
    assert(grown.drop_last() =~= posts);
    assert(grown.last() == p);
    assert(matching(grown, np.slug) =~= matching(posts, np.slug) + seq![p]);
    assert(matching(grown, np.slug) =~= seq![p]);
    assert(grown[posts.len() as int] == p);
    crate::render::lemma_index_lists_every_title(grown);
    assert(grown[posts.len() as int].title == np.title);
}

} // verus!
