//! The data model: users, posts, and HTTP responses, each with a
//! mathematical view over sequences of characters.

use vstd::prelude::*;

verus! {

/// A registered user: a unique username, a plaintext password, and the
/// opaque bearer token issued at registration.
pub struct User {
    pub username: String,
    pub password: String,
    pub token: String,
}

/// The mathematical view of a user.
#[verifier::ext_equal]
pub struct UserModel {
    pub username: Seq<char>,
    pub password: Seq<char>,
    pub token: Seq<char>,
}

impl View for User {
    type V = UserModel;

    open spec fn view(&self) -> UserModel {
        UserModel { username: self.username@, password: self.password@, token: self.token@ }
    }
}

/// One entry of the feed: who posted, and what.
pub struct Post {
    pub poster: String,
    pub contents: String,
}

/// The mathematical view of a post.
#[verifier::ext_equal]
pub struct PostModel {
    pub poster: Seq<char>,
    pub contents: Seq<char>,
}

impl View for Post {
    type V = PostModel;

    open spec fn view(&self) -> PostModel {
        PostModel { poster: self.poster@, contents: self.contents@ }
    }
}

/// What a handler answers: a status code and a body.
pub struct HttpResponse {
    pub status: u16,
    pub body: String,
}

/// The mathematical view of a response.
#[verifier::ext_equal]
pub struct ResponseModel {
    pub status: u16,
    pub body: Seq<char>,
}

impl View for HttpResponse {
    type V = ResponseModel;

    open spec fn view(&self) -> ResponseModel {
        ResponseModel { status: self.status, body: self.body@ }
    }
}

} // verus!
