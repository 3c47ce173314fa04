//! The five request handlers, each a function from the stores and the
//! request's plain parts to a response, with the state change it makes.

use vstd::prelude::*;
use crate::json::{
    json_string, json_string_exec, parse_credentials, parse_message, parsed_credentials,
    parsed_message,
};
use crate::model::{HttpResponse, PostModel, ResponseModel, UserModel};
use crate::render::{
    html_feed, json_feed, negotiate, plain_feed, render_html_feed, render_json_feed,
    render_plain_feed, spec_greeting, spec_negotiate, Encoding, greeting,
};
use crate::store::{
    lookup_token, lookup_user, spec_register_user, AuthError, CredentialStore, FeedStore,
};

verus! {

/// The JSON object a successful registration or login answers with.
pub open spec fn credentials_json(u: Seq<char>, t: Seq<char>) -> Seq<char> {
    "{\"username\":"@ + json_string(u) + ",\"token\":"@ + json_string(t) + "}"@
}

fn render_credentials_json(username: &String, token: &String) -> (r: String)
    ensures
        r@ == credentials_json(username@, token@),
{
    let mut out = String::from_str("{\"username\":");
    let u = json_string_exec(username.as_str());
    out.append(u.as_str());
    out.append(",\"token\":");
    let t = json_string_exec(token.as_str());
    out.append(t.as_str());
    out.append("}");
    out
}

/// What the greeting endpoint answers: the greeting for the `User-Agent`
/// header (fallback `world`), rendered per the negotiated encoding, or an
/// empty 400 when the `Accept` value is unrecognized.
pub open spec fn spec_hello(user_agent: Option<Seq<char>>, accept: Option<Seq<char>>) -> ResponseModel {
    let name = match user_agent {
        Some(n) => n,
        None => "world"@,
    };
    match spec_negotiate(accept) {
        Some(Encoding::Html) => ResponseModel {
            status: 200,
            body: "<p>"@ + spec_greeting(name) + "</p>"@,
        },
        Some(Encoding::Plain) => ResponseModel { status: 200, body: spec_greeting(name) },
        Some(Encoding::Json) => ResponseModel {
            status: 200,
            body: "{\"message\":"@ + json_string(spec_greeting(name)) + "}"@,
        },
        None => ResponseModel { status: 400, body: Seq::empty() },
    }
}

/// Answer the greeting endpoint.
pub fn hello(user_agent: &Option<String>, accept: &Option<String>) -> (r: HttpResponse)
    ensures
        r@ == spec_hello(user_agent.deep_view(), accept.deep_view()),
{
    let fallback = String::from_str("world");
    let name: &String = match user_agent {
        Some(n) => n,
        None => &fallback,
    };
    match negotiate(accept) {
        Some(Encoding::Html) => {
            let mut body = String::from_str("<p>");
            let g = greeting(name);
            body.append(g.as_str());
            body.append("</p>");
            HttpResponse { status: 200, body }
        },
        Some(Encoding::Plain) => HttpResponse { status: 200, body: greeting(name) },
        Some(Encoding::Json) => {
            let g = greeting(name);
            let mut body = String::from_str("{\"message\":");
            let j = json_string_exec(g.as_str());
            body.append(j.as_str());
            body.append("}");
            HttpResponse { status: 200, body }
        },
        None => HttpResponse { status: 400, body: String::new() },
    }
}

/// What the feed fetch answers: the whole feed rendered per the negotiated
/// encoding, or an empty 400 when the `Accept` value is unrecognized.
pub open spec fn spec_posts(feed: Seq<PostModel>, accept: Option<Seq<char>>) -> ResponseModel {
    match spec_negotiate(accept) {
        Some(Encoding::Html) => ResponseModel { status: 200, body: html_feed(feed) },
        Some(Encoding::Plain) => ResponseModel { status: 200, body: plain_feed(feed) },
        Some(Encoding::Json) => ResponseModel { status: 200, body: json_feed(feed) },
        None => ResponseModel { status: 400, body: Seq::empty() },
    }
}

/// Answer the feed fetch.
pub fn posts(feed: &FeedStore, accept: &Option<String>) -> (r: HttpResponse)
    ensures
        r@ == spec_posts(feed@, accept.deep_view()),
{
    match negotiate(accept) {
        Some(Encoding::Html) => HttpResponse { status: 200, body: render_html_feed(feed) },
        Some(Encoding::Plain) => HttpResponse { status: 200, body: render_plain_feed(feed) },
        Some(Encoding::Json) => HttpResponse { status: 200, body: render_json_feed(feed) },
        None => HttpResponse { status: 400, body: String::new() },
    }
}

/// What an authenticated post does: nothing to the feed unless the body
/// parses and the raw `Authorization` value is a stored token; then exactly
/// one post goes at the end, under the token owner's username.
pub open spec fn spec_user_post(
    users: Seq<UserModel>,
    feed: Seq<PostModel>,
    authorization: Option<Seq<char>>,
    body: Seq<char>,
) -> (Seq<PostModel>, ResponseModel) {
    match parsed_message(body) {
        None => (feed, ResponseModel { status: 400, body: Seq::empty() }),
        Some(m) => match authorization {
            None => (feed, ResponseModel { status: 401, body: "Authorization required"@ }),
            Some(t) => match lookup_token(users, t) {
                None => (feed, ResponseModel { status: 401, body: "Invalid Authorization"@ }),
                Some(owner) => (
                    feed.push(PostModel { poster: owner.username, contents: m }),
                    ResponseModel { status: 201, body: Seq::empty() },
                ),
            },
        },
    }
}

/// Answer the authenticated post endpoint.
pub fn user_post(
    users: &CredentialStore,
    feed: &mut FeedStore,
    authorization: &Option<String>,
    body: &str,
) -> (r: HttpResponse)
    ensures
        final(feed)@ == spec_user_post(users@, old(feed)@, authorization.deep_view(), body@).0,
        r@ == spec_user_post(users@, old(feed)@, authorization.deep_view(), body@).1,
{
    let msg = match parse_message(body) {
        None => {
            return HttpResponse { status: 400, body: String::new() };
        },
        Some(m) => m,
    };
    let auth = match authorization {
        None => {
            return HttpResponse { status: 401, body: String::from_str("Authorization required") };
        },
        Some(a) => a,
    };
    match users.resolve_token(auth) {
        None => HttpResponse { status: 401, body: String::from_str("Invalid Authorization") },
        Some(username) => {
            feed.append(username, msg);
            HttpResponse { status: 201, body: String::new() }
        },
    }
}

/// What registration does, for the token the fresh draw produced: a 400 on
/// a malformed body, a 403 when the username is taken, else the new user is
/// stored and answered back with the issued token.
pub open spec fn spec_register(
    users: Seq<UserModel>,
    body: Seq<char>,
    token: Seq<char>,
) -> (Seq<UserModel>, ResponseModel) {
    match parsed_credentials(body) {
        None => (users, ResponseModel { status: 400, body: "Request failed to parse"@ }),
        Some(c) => match spec_register_user(users, c.0, c.1, token).1 {
            Err(_) => (users, ResponseModel { status: 403, body: "username already exists"@ }),
            Ok(_) => (
                spec_register_user(users, c.0, c.1, token).0,
                ResponseModel { status: 201, body: credentials_json(c.0, token) },
            ),
        },
    }
}

/// Answer the registration endpoint. The token is drawn fresh, so the
/// outcome is registration under some sixteen-character token.
pub fn register(users: &mut CredentialStore, body: &str) -> (r: HttpResponse)
    ensures
        exists|t: Seq<char>|
            #![trigger spec_register(old(users)@, body@, t)]
            {
                &&& final(users)@ == spec_register(old(users)@, body@, t).0
                &&& r@ == spec_register(old(users)@, body@, t).1
                &&& r@.status == 201 ==> t.len() == 16
            },
        old(users).wf() ==> final(users).wf(),
{
    let creds = match parse_credentials(body) {
        None => {
            let resp = HttpResponse {
                status: 400,
                body: String::from_str("Request failed to parse"),
            };
            proof {
                let t0 = Seq::<char>::empty();
                assert(resp@ == spec_register(users@, body@, t0).1);
            }
            return resp;
        },
        Some(c) => c,
    };
    let (username, password) = creds;
    let uname = username.clone();
    let ghost uv = username@;
    let ghost pv = password@;
    match users.register_fresh(username, password) {
        Err(_) => {
            let resp = HttpResponse {
                status: 403,
                body: String::from_str("username already exists"),
            };
            proof {
                let t0 = Seq::<char>::empty();
                assert(resp@ == spec_register(old(users)@, body@, t0).1);
            }
            resp
        },
        Ok(token) => {
            let body_json = render_credentials_json(&uname, &token);
            let resp = HttpResponse { status: 201, body: body_json };
            proof {
                let tv = token@;
                assert(users@ == spec_register(old(users)@, body@, tv).0);
                assert(resp@ == spec_register(old(users)@, body@, tv).1);
            }
            resp
        },
    }
}

/// What a login answers: a 400 on a malformed body, a 401 naming the
/// reason when the user is unknown or the password wrong, else a 200
/// carrying the username and the stored token, unrotated.
pub open spec fn spec_login(users: Seq<UserModel>, body: Seq<char>) -> ResponseModel {
    match parsed_credentials(body) {
        None => ResponseModel { status: 400, body: "Request failed to parse"@ },
        Some(c) => match lookup_user(users, c.0) {
            None => ResponseModel { status: 401, body: "User not found"@ },
            Some(m) => if m.password == c.1 {
                ResponseModel { status: 200, body: credentials_json(c.0, m.token) }
            } else {
                ResponseModel { status: 401, body: "Invalid credentials"@ }
            },
        },
    }
}

/// Answer the login endpoint. The store is only read.
pub fn login(users: &CredentialStore, body: &str) -> (r: HttpResponse)
    ensures
        r@ == spec_login(users@, body@),
{
    let (username, password) = match parse_credentials(body) {
        None => {
            return HttpResponse { status: 400, body: String::from_str("Request failed to parse") };
        },
        Some(c) => c,
    };
    match users.authenticate(&username, &password) {
        Ok(token) => {
            let body_json = render_credentials_json(&username, &token);
            HttpResponse { status: 200, body: body_json }
        },
        Err(AuthError::UnknownUser) => HttpResponse {
            status: 401,
            body: String::from_str("User not found"),
        },
        Err(AuthError::WrongPassword) => HttpResponse {
            status: 401,
            body: String::from_str("Invalid credentials"),
        },
    }
}

} // verus!
