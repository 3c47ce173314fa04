//! Content negotiation and rendering: a header value picks one of three
//! encodings, and the greeting and the feed are rendered under it.

use vstd::prelude::*;
use crate::json::{json_string, json_string_exec};
use crate::model::{Post, PostModel};
use crate::store::FeedStore;

verus! {

/// The three output encodings the service understands.
#[derive(Clone, Copy, PartialEq, Eq, Structural, Debug)]
pub enum Encoding {
    Html,
    Plain,
    Json,
}

/// Exact-match content negotiation: an absent header falls back to plain
/// text; a present one must equal one of the three supported values, or no
/// encoding is selected at all.
pub open spec fn spec_negotiate(accept: Option<Seq<char>>) -> Option<Encoding> {
    match accept {
        None => Some(Encoding::Plain),
        Some(a) => if a == "text/html"@ {
            Some(Encoding::Html)
        } else if a == "text/plain"@ {
            Some(Encoding::Plain)
        } else if a == "application/json"@ {
            Some(Encoding::Json)
        } else {
            None
        },
    }
}

/// Select the encoding an `Accept` header value asks for.
pub fn negotiate(accept: &Option<String>) -> (r: Option<Encoding>)
    ensures
        r == spec_negotiate(accept.deep_view()),
{
    match accept {
        None => Some(Encoding::Plain),
        Some(a) => {
            if *a == String::from_str("text/html") {
                Some(Encoding::Html)
            } else if *a == String::from_str("text/plain") {
                Some(Encoding::Plain)
            } else if *a == String::from_str("application/json") {
                Some(Encoding::Json)
            } else {
                None
            }
        },
    }
}

/// The greeting for a caller.
pub open spec fn spec_greeting(name: Seq<char>) -> Seq<char> {
    "Hello, "@ + name + "!"@
}

/// Build the greeting for a caller.
pub fn greeting(name: &String) -> (r: String)
    ensures
        r@ == spec_greeting(name@),
{
    let mut out = String::from_str("Hello, ");
    out.append(name.as_str());
    out.append("!");
    out
}

/// One plain-text feed line.
pub open spec fn plain_line(p: PostModel) -> Seq<char> {
    p.poster + ": \""@ + p.contents + "\"\n"@
}

/// The plain-text feed: one line per post, in insertion order.
pub open spec fn plain_feed(s: Seq<PostModel>) -> Seq<char>
    decreases s.len(),
{
    if s.len() == 0 {
        Seq::empty()
    } else {
        plain_feed(s.drop_last()) + plain_line(s.last())
    }
}

/// One HTML feed line.
pub open spec fn html_line(p: PostModel) -> Seq<char> {
    "<div class=\"post\">"@ + p.poster + ": \""@ + p.contents + "\"</div>\n"@
}

/// The HTML feed: one div per post, in insertion order; contents go in
/// verbatim, unescaped, exactly as stored.
pub open spec fn html_feed(s: Seq<PostModel>) -> Seq<char>
    decreases s.len(),
{
    if s.len() == 0 {
        Seq::empty()
    } else {
        html_feed(s.drop_last()) + html_line(s.last())
    }
}

/// One JSON feed element.
pub open spec fn json_post(p: PostModel) -> Seq<char> {
    "{\"poster\":"@ + json_string(p.poster) + ",\"contents\":"@ + json_string(p.contents) + "}"@
}

/// The elements of the JSON feed array, comma-separated, in insertion
/// order.
pub open spec fn json_items(s: Seq<PostModel>) -> Seq<char>
    decreases s.len(),
{
    if s.len() == 0 {
        Seq::empty()
    } else if s.len() == 1 {
        json_post(s[0])
    } else {
        json_items(s.drop_last()) + ","@ + json_post(s.last())
    }
}

/// The JSON feed: an array of one object per post, in insertion order.
pub open spec fn json_feed(s: Seq<PostModel>) -> Seq<char> {
    "["@ + json_items(s) + "]"@
}

fn render_plain_line(p: &Post) -> (r: String)
    ensures
        r@ == plain_line(p@),
{
    let mut out = String::new();
    out.append(p.poster.as_str());
    out.append(": \"");
    out.append(p.contents.as_str());
    out.append("\"\n");
    out
}

fn render_html_line(p: &Post) -> (r: String)
    ensures
        r@ == html_line(p@),
{
    let mut out = String::from_str("<div class=\"post\">");
    out.append(p.poster.as_str());
    out.append(": \"");
    out.append(p.contents.as_str());
    out.append("\"</div>\n");
    out
}

fn render_json_post(p: &Post) -> (r: String)
    ensures
        r@ == json_post(p@),
{
    let mut out = String::from_str("{\"poster\":");
    let poster = json_string_exec(p.poster.as_str());
    out.append(poster.as_str());
    out.append(",\"contents\":");
    let contents = json_string_exec(p.contents.as_str());
    out.append(contents.as_str());
    out.append("}");
    out
}

/// Render the feed as plain text.
pub fn render_plain_feed(feed: &FeedStore) -> (r: String)
    ensures
        r@ == plain_feed(feed@),
{
    let n = feed.len();
    let mut out = String::new();
    let mut i: usize = 0;
    while i < n
        invariant
            n == feed@.len(),
            i <= n,
            out@ == plain_feed(feed@.take(i as int)),
        decreases n - i,
    {
        let line = render_plain_line(feed.get(i));
        out.append(line.as_str());
        proof {
            assert(feed@.take(i as int + 1).drop_last() =~= feed@.take(i as int));
            assert(feed@.take(i as int + 1).last() == feed@[i as int]);
        }
        i = i + 1;
    }
    proof {
        assert(feed@.take(n as int) =~= feed@);
    }
    out
}

/// Render the feed as HTML.
pub fn render_html_feed(feed: &FeedStore) -> (r: String)
    ensures
        r@ == html_feed(feed@),
{
    let n = feed.len();
    let mut out = String::new();
    let mut i: usize = 0;
    while i < n
        invariant
            n == feed@.len(),
            i <= n,
            out@ == html_feed(feed@.take(i as int)),
        decreases n - i,
    {
        let line = render_html_line(feed.get(i));
        out.append(line.as_str());
        proof {
            assert(feed@.take(i as int + 1).drop_last() =~= feed@.take(i as int));
            assert(feed@.take(i as int + 1).last() == feed@[i as int]);
        }
        i = i + 1;
    }
    proof {
        assert(feed@.take(n as int) =~= feed@);
    }
    out
}

/// Render the feed as a JSON array.
pub fn render_json_feed(feed: &FeedStore) -> (r: String)
    ensures
        r@ == json_feed(feed@),
{
    let n = feed.len();
    let mut out = String::from_str("[");
    let mut i: usize = 0;
    while i < n
        invariant
            n == feed@.len(),
            i <= n,
            out@ == "["@ + json_items(feed@.take(i as int)),
        decreases n - i,
    {
        if i > 0 {
            out.append(",");
        }
        let item = render_json_post(feed.get(i));
        out.append(item.as_str());
        proof {
            assert(feed@.take(i as int + 1).drop_last() =~= feed@.take(i as int));
            assert(feed@.take(i as int + 1).last() == feed@[i as int]);
            if i == 0 {
                assert(feed@.take(1).len() == 1);
                assert(feed@.take(1)[0] == feed@[0]);
            }
        }
        i = i + 1;
    }
    out.append("]");
    proof {
        assert(feed@.take(n as int) =~= feed@);
    }
    out
}

} // verus!
