//! Server-side rendering of the two HTML pages: the listing page with
//! one linked entry per post, and the detail page of a single post.
//! Text fields are HTML-escaped on the way out.

use vstd::prelude::*;

use crate::model::{Post, PostView};
use crate::text::{
    has_subseq, lemma_has_subseq_concat_left, lemma_has_subseq_concat_right, lemma_has_subseq_self,
    push_char,
};

verus! {

/// What one character contributes to escaped output: the five HTML
/// metacharacters become entities, every other character stands as is.
pub open spec fn escape1(c: char) -> Seq<char> {
    if c == '&' {
        "&amp;"@
    } else if c == '<' {
        "&lt;"@
    } else if c == '>' {
        "&gt;"@
    } else if c == '"' {
        "&quot;"@
    } else if c == '\'' {
        "&#x27;"@
    } else {
        seq![c]
    }
}

/// The HTML-escaped form of a text.
pub open spec fn escape(s: Seq<char>) -> Seq<char>
    decreases s.len(),
{
    if s.len() == 0 {
        Seq::empty()
    } else {
        escape(s.drop_last()) + escape1(s.last())
    }
}

/// The listing entry of one post: a link to its slug, showing its title.
pub open spec fn index_item(p: PostView) -> Seq<char> {
    "<li><a href=\"/blog/"@ + escape(p.slug) + "\">"@ + escape(p.title) + "</a></li>"@
}

/// The listing entries of a sequence of posts, one per post, in order.
pub open spec fn items_html(posts: Seq<PostView>) -> Seq<char>
    decreases posts.len(),
{
    if posts.len() == 0 {
        Seq::empty()
    } else {
        items_html(posts.drop_last()) + index_item(posts.last())
    }
}

/// The whole listing page.
pub open spec fn index_html(posts: Seq<PostView>) -> Seq<char> {
    "<html><body><h1>Blog</h1><ul>"@ + items_html(posts) + "</ul></body></html>"@
}

/// The whole detail page of one post: its title and its body.
pub open spec fn post_html(p: PostView) -> Seq<char> {
    "<html><body><h1>"@ + escape(p.title) + "</h1><div>"@ + escape(p.body)
        + "</div></body></html>"@
}

/// HTML-escapes a text.
pub fn escape_html(s: &str) -> (r: String)
    ensures
        r@ == escape(s@),
{
    let n = s.unicode_len();
    let mut out = String::new();
    let mut i: usize = 0;
    while i < n
        invariant
            n == s@.len(),
            0 <= i <= n,
            out@ == escape(s@.subrange(0, i as int)),
        decreases n - i,
    {
        let ghost pre = s@.subrange(0, i as int);
        let ghost cur = s@.subrange(0, i + 1 as int);
        assert(cur.drop_last() =~= pre);
        assert(cur.last() == s@[i as int]);
        let c = s.get_char(i);
        if c == '&' {
            out.append("&amp;");
        } else if c == '<' {
            out.append("&lt;");
        } else if c == '>' {
            out.append("&gt;");
        } else if c == '"' {
            out.append("&quot;");
        } else if c == '\'' {
            out.append("&#x27;");
        } else {
            push_char(&mut out, c);
            assert(out@ =~= escape(pre) + escape1(c));
        }
        i += 1;
    }
    assert(s@.subrange(0, n as int) =~= s@);
    out
}

/// Renders the listing page for the given rows, in their given order.
pub fn render_index(posts: &Vec<Post>) -> (r: String)
    ensures
        r@ == index_html(crate::model::views(posts@)),
{
    let ghost vs = crate::model::views(posts@);
    let mut out = String::from_str("<html><body><h1>Blog</h1><ul>");
    let mut i: usize = 0;
    while i < posts.len()
        invariant
            vs == crate::model::views(posts@),
            vs.len() == posts@.len(),
            0 <= i <= posts@.len(),
            out@ == "<html><body><h1>Blog</h1><ul>"@ + items_html(vs.subrange(0, i as int)),
        decreases posts@.len() - i,
    {
        let ghost pre = vs.subrange(0, i as int);
        let ghost cur = vs.subrange(0, i + 1 as int);
        assert(cur.drop_last() =~= pre);
        assert(cur.last() == posts@[i as int]@);
        out.append("<li><a href=\"/blog/");
        let es = escape_html(posts[i].slug.as_str());
        out.append(es.as_str());
        out.append("\">");
        let et = escape_html(posts[i].title.as_str());
        out.append(et.as_str());
        out.append("</a></li>");
        assert(out@ =~= "<html><body><h1>Blog</h1><ul>"@ + items_html(cur));
        i += 1;
    }
    out.append("</ul></body></html>");
    assert(vs.subrange(0, posts@.len() as int) =~= vs);
    out
}

/// Renders the detail page of one post.
pub fn render_post(p: &Post) -> (r: String)
    ensures
        r@ == post_html(p@),
{
    let mut out = String::from_str("<html><body><h1>");
    let et = escape_html(p.title.as_str());
    out.append(et.as_str());
    out.append("</h1><div>");
    let eb = escape_html(p.body.as_str());
    out.append(eb.as_str());
    out.append("</div></body></html>");
    out
}

/// A run found inside a run of `hay` is itself a run of `hay`.
proof fn lemma_has_subseq_trans(hay: Seq<char>, mid: Seq<char>, needle: Seq<char>)
    requires
        has_subseq(hay, mid),
        has_subseq(mid, needle),
    ensures
        has_subseq(hay, needle),
{
    let k1 = choose|k: int|
        0 <= k && k + mid.len() <= hay.len() && #[trigger] hay.subrange(k, k + mid.len()) == mid;
    let k2 = choose|k: int|
        0 <= k && k + needle.len() <= mid.len() && #[trigger] mid.subrange(k, k + needle.len())
            == needle;
    assert(hay.subrange(k1 + k2, k1 + k2 + needle.len()) =~= mid.subrange(
        k2,
        k2 + needle.len() as int,
    ));
}

/// A post's listing entry shows its escaped title.
proof fn lemma_item_has_title(p: PostView)
    ensures
        has_subseq(index_item(p), escape(p.title)),
{
    let a = "<li><a href=\"/blog/"@ + escape(p.slug) + "\">"@;
    lemma_has_subseq_self(escape(p.title));
    lemma_has_subseq_concat_right(a, escape(p.title), escape(p.title));
    lemma_has_subseq_concat_left(a + escape(p.title), "</a></li>"@, escape(p.title));
    assert(index_item(p) == a + escape(p.title) + "</a></li>"@);
}

/// Each post's listing entry is a run of the joined entries.
proof fn lemma_items_has_item(posts: Seq<PostView>, i: int)
    requires
        0 <= i < posts.len(),
    ensures
        has_subseq(items_html(posts), index_item(posts[i])),
    decreases posts.len(),
{
    if i == posts.len() - 1 {
        lemma_has_subseq_self(index_item(posts.last()));
        lemma_has_subseq_concat_right(
            items_html(posts.drop_last()),
            index_item(posts.last()),
            index_item(posts[i]),
        );
    } else {
        lemma_items_has_item(posts.drop_last(), i);
        lemma_has_subseq_concat_left(
            items_html(posts.drop_last()),
            index_item(posts.last()),
            index_item(posts[i]),
        );
    }
}

/// The listing page shows every post: each post of the sequence
/// contributes one entry, in order, and that entry carries the post's
/// escaped title, so each stored title appears in the rendered page.
pub proof fn lemma_index_lists_every_title(posts: Seq<PostView>)
    ensures
        forall|i: int|
            0 <= i < posts.len() ==> has_subseq(
                index_html(posts),
                escape(#[trigger] posts[i].title),
            ),
{
    assert forall|i: int| 0 <= i < posts.len() implies has_subseq(
        index_html(posts),
        escape(#[trigger] posts[i].title),
    ) by {
        lemma_items_has_item(posts, i);
        lemma_item_has_title(posts[i]);
        lemma_has_subseq_trans(items_html(posts), index_item(posts[i]), escape(posts[i].title));
        lemma_has_subseq_concat_right(
            "<html><body><h1>Blog</h1><ul>"@,
            items_html(posts),
            escape(posts[i].title),
        );
        lemma_has_subseq_concat_left(
            "<html><body><h1>Blog</h1><ul>"@ + items_html(posts),
            "</ul></body></html>"@,
            escape(posts[i].title),
        );
    }
}

/// The detail page of a post shows its escaped title and its escaped body.
pub proof fn lemma_detail_has_title_and_body(p: PostView)
    ensures
        has_subseq(post_html(p), escape(p.title)),
        has_subseq(post_html(p), escape(p.body)),
{
    let a = "<html><body><h1>"@;
    let b = "</h1><div>"@;
    let c = "</div></body></html>"@;
    lemma_has_subseq_self(escape(p.title));
    lemma_has_subseq_concat_right(a, escape(p.title), escape(p.title));
    lemma_has_subseq_concat_left(a + escape(p.title), b, escape(p.title));
    lemma_has_subseq_concat_left(a + escape(p.title) + b, escape(p.body), escape(p.title));
    lemma_has_subseq_concat_left(
        a + escape(p.title) + b + escape(p.body),
        c,
        escape(p.title),
    );
    lemma_has_subseq_self(escape(p.body));
    lemma_has_subseq_concat_right(a + escape(p.title) + b, escape(p.body), escape(p.body));
    lemma_has_subseq_concat_left(a + escape(p.title) + b + escape(p.body), c, escape(p.body));
}

/// How often a character occurs in a text.
pub open spec fn count_char(s: Seq<char>, c: char) -> nat
    decreases s.len(),
{
    if s.len() == 0 {
        0
    } else {
        count_char(s.drop_last(), c) + if s.last() == c {
            1nat
        } else {
            0nat
        }
    }
}

/// Joining texts adds their counts.
proof fn lemma_count_char_concat(a: Seq<char>, b: Seq<char>, c: char)
    ensures
        count_char(a + b, c) == count_char(a, c) + count_char(b, c),
    decreases b.len(),
{
    if b.len() == 0 {
        assert(a + b =~= a);
    } else {
        assert((a + b).drop_last() =~= a + b.drop_last());
        assert((a + b).last() == b.last());
        lemma_count_char_concat(a, b.drop_last(), c);
    }
}

/// Escaped text holds no tag opener.
proof fn lemma_escape_no_tag(s: Seq<char>)
    ensures
        count_char(escape(s), '<') == 0,
    decreases s.len(),
{
    if s.len() > 0 {
        lemma_escape_no_tag(s.drop_last());
        let c = s.last();
        assert(count_char(escape1(c), '<') == 0) by {
            reveal_with_fuel(count_char, 8);
            reveal_strlit("&amp;");
            reveal_strlit("&lt;");
            reveal_strlit("&gt;");
            reveal_strlit("&quot;");
            reveal_strlit("&#x27;");
        };
        lemma_count_char_concat(escape(s.drop_last()), escape1(c), '<');
    }
}

/// One listing entry holds exactly four tag openers.
proof fn lemma_item_tag_count(p: PostView)
    ensures
        count_char(index_item(p), '<') == 4,
{
    assert(count_char("<li><a href=\"/blog/"@, '<') == 2) by {
        reveal_with_fuel(count_char, 21);
        reveal_strlit("<li><a href=\"/blog/");
    };
    assert(count_char("\">"@, '<') == 0) by {
        reveal_with_fuel(count_char, 4);
        reveal_strlit("\">");
    };
    assert(count_char("</a></li>"@, '<') == 2) by {
        reveal_with_fuel(count_char, 11);
        reveal_strlit("</a></li>");
    };
    lemma_escape_no_tag(p.slug);
    lemma_escape_no_tag(p.title);
    let a = "<li><a href=\"/blog/"@;
    lemma_count_char_concat(a, escape(p.slug), '<');
    lemma_count_char_concat(a + escape(p.slug), "\">"@, '<');
    lemma_count_char_concat(a + escape(p.slug) + "\">"@, escape(p.title), '<');
    lemma_count_char_concat(a + escape(p.slug) + "\">"@ + escape(p.title), "</a></li>"@, '<');
}

/// The joined entries hold four tag openers per post.
proof fn lemma_items_tag_count(posts: Seq<PostView>)
    ensures
        count_char(items_html(posts), '<') == 4 * posts.len(),
    decreases posts.len(),
{
    if posts.len() > 0 {
        lemma_items_tag_count(posts.drop_last());
        lemma_item_tag_count(posts.last());
        lemma_count_char_concat(items_html(posts.drop_last()), index_item(posts.last()), '<');
    }
}

/// The listing page holds exactly one entry per post: escaping leaves
/// no `<` in rendered text, so every `<` of the page belongs to the
/// page frame or to an entry's own tags — eight for the frame, four
/// for each entry, and one entry per stored post.
#[verifier::rlimit(60)]
pub proof fn lemma_index_one_entry_per_post(posts: Seq<PostView>)
    ensures
        count_char(index_html(posts), '<') == 8 + 4 * posts.len(),
{
    assert(count_char("<html><body><h1>Blog</h1><ul>"@, '<') == 5) by {
        reveal_with_fuel(count_char, 31);
        reveal_strlit("<html><body><h1>Blog</h1><ul>");
    };
    assert(count_char("</ul></body></html>"@, '<') == 3) by {
        reveal_with_fuel(count_char, 21);
        reveal_strlit("</ul></body></html>");
    };
    lemma_items_tag_count(posts);
    lemma_count_char_concat("<html><body><h1>Blog</h1><ul>"@, items_html(posts), '<');
    lemma_count_char_concat(
        "<html><body><h1>Blog</h1><ul>"@ + items_html(posts),
        "</ul></body></html>"@,
        '<',
    );
}

} // verus!
