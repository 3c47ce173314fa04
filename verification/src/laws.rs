//! General laws of the service, each proved from the specifications that
//! the stores and handlers carry.

use vstd::prelude::*;
use crate::handlers::{credentials_json, spec_login, spec_posts, spec_register, spec_user_post};
use crate::json::{parsed_credentials, parsed_message};
use crate::model::{PostModel, ResponseModel, UserModel};
use crate::render::{json_feed, json_items, json_post};
use crate::store::{lemma_lookup_user_push, lookup_token, lookup_user};

verus! {

/// Registering a username twice: once a registration body answered 201,
/// any later registration body carrying the same username answers 403 and
/// leaves the users unchanged, regardless of its password and of whatever
/// token the second draw produced.
pub proof fn lemma_register_twice_conflicts(
    users: Seq<UserModel>,
    body1: Seq<char>,
    t1: Seq<char>,
    body2: Seq<char>,
    t2: Seq<char>,
    u: Seq<char>,
    p1: Seq<char>,
    p2: Seq<char>,
)
    ensures
        (parsed_credentials(body1) == Some((u, p1)) && parsed_credentials(body2) == Some((u, p2))
            && spec_register(users, body1, t1).1.status == 201) ==> {
            &&& spec_register(spec_register(users, body1, t1).0, body2, t2).1.status == 403
            &&& spec_register(spec_register(users, body1, t1).0, body2, t2).0 == spec_register(
                users,
                body1,
                t1,
            ).0
        },
{
    if parsed_credentials(body1) == Some((u, p1)) && parsed_credentials(body2) == Some((u, p2))
        && spec_register(users, body1, t1).1.status == 201 {
        assert(lookup_user(users, u) is None);
        let m = UserModel { username: u, password: p1, token: t1 };
        lemma_lookup_user_push(users, m, u);
    }
}

/// A successful login answers exactly the token produced at registration:
/// after a registration body for (u, p) answered 201 with token t stored,
/// a login body carrying the same pair answers 200, and its body carries
/// u and t — tokens are never rotated.
pub proof fn lemma_login_returns_registration_token(
    users: Seq<UserModel>,
    body1: Seq<char>,
    body2: Seq<char>,
    t: Seq<char>,
    u: Seq<char>,
    p: Seq<char>,
)
    ensures
        (parsed_credentials(body1) == Some((u, p)) && parsed_credentials(body2) == Some((u, p))
            && spec_register(users, body1, t).1.status == 201) ==> spec_login(
            spec_register(users, body1, t).0,
            body2,
        ) == (ResponseModel { status: 200, body: credentials_json(u, t) }),
{
    if parsed_credentials(body1) == Some((u, p)) && parsed_credentials(body2) == Some((u, p))
        && spec_register(users, body1, t).1.status == 201 {
        assert(lookup_user(users, u) is None);
        let m = UserModel { username: u, password: p, token: t };
        lemma_lookup_user_push(users, m, u);
    }
}

/// Posting with a valid token appends exactly one post, whose poster is
/// the token owner's username and whose contents are the submitted
/// message; the feed grows by exactly one and the answer is 201.
pub proof fn lemma_post_with_valid_token(
    users: Seq<UserModel>,
    feed: Seq<PostModel>,
    auth: Seq<char>,
    body: Seq<char>,
    m: Seq<char>,
    owner: UserModel,
)
    ensures
        (parsed_message(body) == Some(m) && lookup_token(users, auth) == Some(owner)) ==> {
            &&& spec_user_post(users, feed, Some(auth), body).0 == feed.push(
                PostModel { poster: owner.username, contents: m },
            )
            &&& spec_user_post(users, feed, Some(auth), body).0.len() == feed.len() + 1
            &&& spec_user_post(users, feed, Some(auth), body).1.status == 201
        },
{
}

/// Posting with an absent or unknown token never changes the feed, and,
/// whenever the body parses at all, answers 401.
pub proof fn lemma_post_rejected_keeps_feed(
    users: Seq<UserModel>,
    feed: Seq<PostModel>,
    authorization: Option<Seq<char>>,
    body: Seq<char>,
)
    ensures
        (authorization is None || (authorization matches Some(t) && lookup_token(users, t)
            is None)) ==> {
            &&& spec_user_post(users, feed, authorization, body).0 == feed
            &&& (parsed_message(body) is Some ==> spec_user_post(
                users,
                feed,
                authorization,
                body,
            ).1.status == 401)
        },
{
}

/// Under the JSON encoding the feed fetch answers 200, and its body is the
/// canonical array of the feed: one element per post, in insertion order.
pub proof fn lemma_posts_json(feed: Seq<PostModel>)
    ensures
        spec_posts(feed, Some("application/json"@)) == (ResponseModel {
            status: 200,
            body: json_feed(feed),
        }),
{
    reveal_strlit("application/json");
    reveal_strlit("text/html");
    reveal_strlit("text/plain");
    assert("application/json"@.len() == 16);
    assert("text/html"@.len() == 9);
    assert("text/plain"@.len() == 10);
}

/// Appending a post appends exactly one element to the JSON array: its
/// rendering, after a separating comma when the feed was not empty.
pub proof fn lemma_json_feed_append(feed: Seq<PostModel>, p: PostModel)
    ensures
        json_items(feed.push(p)) == if feed.len() == 0 {
            json_post(p)
        } else {
            json_items(feed) + ","@ + json_post(p)
        },
{
    assert(feed.push(p).drop_last() =~= feed);
    assert(feed.push(p).last() == p);
    if feed.len() == 0 {
        assert(feed.push(p)[0] == p);
    }
}

} // verus!
