//! The two shared collections: the credential store of registered users
//! and the append-only feed of posts.

use vstd::prelude::*;
use crate::model::{Post, PostModel, User, UserModel};

verus! {

/// The users a vector of them stands for.
pub open spec fn users_view(s: Seq<User>) -> Seq<UserModel> {
    Seq::new(s.len(), |i: int| s[i]@)
}

/// The posts a vector of them stands for.
pub open spec fn posts_view(s: Seq<Post>) -> Seq<PostModel> {
    Seq::new(s.len(), |i: int| s[i]@)
}

/// The first stored user whose username is `u`, scanning from the front.
pub open spec fn lookup_user(s: Seq<UserModel>, u: Seq<char>) -> Option<UserModel>
    decreases s.len(),
{
    if s.len() == 0 {
        None
    } else if s[0].username == u {
        Some(s[0])
    } else {
        lookup_user(s.skip(1), u)
    }
}

/// The first stored user whose token is `t`, scanning from the front.
pub open spec fn lookup_token(s: Seq<UserModel>, t: Seq<char>) -> Option<UserModel>
    decreases s.len(),
{
    if s.len() == 0 {
        None
    } else if s[0].token == t {
        Some(s[0])
    } else {
        lookup_token(s.skip(1), t)
    }
}

/// No two stored users share a username.
pub open spec fn distinct_usernames(s: Seq<UserModel>) -> bool {
    forall|i: int, j: int|
        0 <= i < j < s.len() ==> s[i].username != s[j].username
}

/// What registration does to the stored users: a conflict when the
/// username is already present, otherwise the new user goes at the end.
pub open spec fn spec_register_user(
    s: Seq<UserModel>,
    u: Seq<char>,
    p: Seq<char>,
    t: Seq<char>,
) -> (Seq<UserModel>, Result<(), Conflict>) {
    if lookup_user(s, u) is Some {
        (s, Err(Conflict))
    } else {
        (s.push(UserModel { username: u, password: p, token: t }), Ok(()))
    }
}

/// Registration refused: the username is already taken.
#[derive(Clone, Copy, PartialEq, Eq, Structural, Debug)]
pub struct Conflict;

/// Why a login was refused: no such user, or the password does not match.
#[derive(Clone, Copy, PartialEq, Eq, Structural, Debug)]
pub enum AuthError {
    UnknownUser,
    WrongPassword,
}

proof fn lemma_lookup_user_skip(s: Seq<UserModel>, u: Seq<char>, i: int)
    requires
        0 <= i < s.len(),
        s[i].username != u,
    ensures
        lookup_user(s.skip(i), u) == lookup_user(s.skip(i + 1), u),
{
    assert(s.skip(i)[0] == s[i]);
    assert(s.skip(i).skip(1) =~= s.skip(i + 1));
}

proof fn lemma_lookup_token_skip(s: Seq<UserModel>, t: Seq<char>, i: int)
    requires
        0 <= i < s.len(),
        s[i].token != t,
    ensures
        lookup_token(s.skip(i), t) == lookup_token(s.skip(i + 1), t),
{
    assert(s.skip(i)[0] == s[i]);
    assert(s.skip(i).skip(1) =~= s.skip(i + 1));
}

/// When a username is absent, no stored user carries it.
proof fn lemma_lookup_user_none(s: Seq<UserModel>, u: Seq<char>)
    requires
        lookup_user(s, u) is None,
    ensures
        forall|i: int| 0 <= i < s.len() ==> s[i].username != u,
    decreases s.len(),
{
    if s.len() > 0 {
        lemma_lookup_user_none(s.skip(1), u);
        assert forall|i: int| 0 <= i < s.len() implies s[i].username != u by {
            if i > 0 {
                assert(s.skip(1)[i - 1] == s[i]);
            }
        }
    }
}

/// Looking a username up after a push: an already-present user still wins;
/// otherwise the pushed user answers exactly when the name is theirs.
pub(crate) proof fn lemma_lookup_user_push(s: Seq<UserModel>, m: UserModel, u: Seq<char>)
    ensures
        lookup_user(s.push(m), u) == (if lookup_user(s, u) is Some {
            lookup_user(s, u)
        } else if m.username == u {
            Some(m)
        } else {
            None::<UserModel>
        }),
    decreases s.len(),
{
    let sp = s.push(m);
    if s.len() == 0 {
        assert(sp[0] == m);
        assert(sp.skip(1) =~= Seq::<UserModel>::empty());
        if m.username == u {
            assert(lookup_user(sp, u) == Some(m));
        } else {
            assert(lookup_user(sp, u) == lookup_user(sp.skip(1), u));
            assert(lookup_user(sp, u) is None);
        }
        assert(lookup_user(s, u) is None);
    } else {
        assert(sp[0] == s[0]);
        if s[0].username == u {
            assert(lookup_user(sp, u) == Some(s[0]));
            assert(lookup_user(s, u) == Some(s[0]));
        } else {
            assert(sp.skip(1) =~= s.skip(1).push(m));
            lemma_lookup_user_push(s.skip(1), m, u);
            assert(lookup_user(sp, u) == lookup_user(sp.skip(1), u));
            assert(lookup_user(s, u) == lookup_user(s.skip(1), u));
        }
    }
}

/// Relies on rand::random: one byte drawn from the thread-local generator;
/// nothing is promised of its value.
#[verifier::external_body]
fn random_byte() -> u8 {
    rand::random::<u8>()
}

/// The standard base64 encoding of the given bytes, padded.
pub uninterp spec fn base64_of(bytes: Seq<u8>) -> Seq<char>;

/// Relies on base64's BASE64_STANDARD engine: the encoding depends on the
/// bytes alone, and the padded standard encoding of n bytes is
/// 4 * ceil(n / 3) characters.
#[verifier::external_body]
fn base64_encode(bytes: &Vec<u8>) -> (r: String)
    ensures
        r@ == base64_of(bytes@),
        r@.len() == 4 * ((bytes@.len() + 2) / 3),
{
    base64::Engine::encode(&base64::prelude::BASE64_STANDARD, bytes.as_slice())
}

/// A fresh bearer token: the padded base64 encoding of ten random bytes,
/// sixteen characters whatever bytes were drawn.
pub fn fresh_token() -> (r: String)
    ensures
        r@.len() == 16,
{
    let mut bytes: Vec<u8> = Vec::new();
    let mut i: usize = 0;
    while i < 10
        invariant
            bytes@.len() == i,
            i <= 10,
        decreases 10 - i,
    {
        bytes.push(random_byte());
        i = i + 1;
    }
    base64_encode(&bytes)
}

/// The credential store: every registered user, in registration order,
/// guarded by one lock for the whole collection in the surrounding process.
pub struct CredentialStore {
    vec: Vec<User>,
}

impl View for CredentialStore {
    type V = Seq<UserModel>;

    closed spec fn view(&self) -> Seq<UserModel> {
        users_view(self.vec@)
    }
}

impl CredentialStore {
    /// Usernames are unique across the stored users.
    pub open spec fn wf(&self) -> bool {
        distinct_usernames(self@)
    }

    /// An empty store.
    pub fn new() -> (r: CredentialStore)
        ensures
            r@ == Seq::<UserModel>::empty(),
            r.wf(),
    {
        let r = CredentialStore { vec: Vec::new() };
        proof {
            assert(r@ =~= Seq::<UserModel>::empty());
        }
        r
    }

    /// Whether some stored user carries this username.
    pub fn contains_username(&self, username: &String) -> (r: bool)
        ensures
            r == (lookup_user(self@, username@) is Some),
    {
        let n = self.vec.len();
        let mut i: usize = 0;
        proof {
            assert(self@.skip(0) =~= self@);
        }
        while i < n
            invariant
                n == self.vec.len(),
                i <= n,
                lookup_user(self@, username@) == lookup_user(self@.skip(i as int), username@),
            decreases n - i,
        {
            if self.vec[i].username == *username {
                proof {
                    assert(self@.skip(i as int)[0] == self@[i as int]);
                }
                return true;
            }
            proof {
                lemma_lookup_user_skip(self@, username@, i as int);
            }
            i = i + 1;
        }
        proof {
            assert(self@.skip(n as int).len() == 0);
        }
        false
    }

    /// Store a new user under this username, or refuse when the name is
    /// taken. The issued token comes from the caller.
    pub fn register(&mut self, username: String, password: String, token: String) -> (r: Result<
        (),
        Conflict,
    >)
        ensures
            (final(self)@, r) == spec_register_user(old(self)@, username@, password@, token@),
            old(self).wf() ==> final(self).wf(),
    {
        if self.contains_username(&username) {
            return Err(Conflict);
        }
        proof {
            lemma_lookup_user_none(self@, username@);
        }
        let ghost s0 = self@;
        let user = User { username, password, token };
        let ghost um = user@;
        self.vec.push(user);
        proof {
            assert(self@ =~= s0.push(um));
            if distinct_usernames(s0) {
                assert forall|i: int, j: int|
                    0 <= i < j < self@.len() implies self@[i].username != self@[j].username by {
                    if j < s0.len() {
                        assert(s0[i].username != s0[j].username);
                    } else {
                        assert(self@[j] == um);
                        assert(s0[i].username != um.username);
                    }
                }
            }
        }
        Ok(())
    }

    /// Register under a freshly drawn token; on success the token is handed
    /// back, and the stored user carries exactly it.
    pub fn register_fresh(&mut self, username: String, password: String) -> (r: Result<
        String,
        Conflict,
    >)
        ensures
            match r {
                Ok(t) => t@.len() == 16 && (final(self)@, Ok::<(), Conflict>(()))
                    == spec_register_user(old(self)@, username@, password@, t@),
                Err(e) => (final(self)@, Err::<(), Conflict>(e))
                    == spec_register_user(old(self)@, username@, password@, Seq::<char>::empty()),
            },
            old(self).wf() ==> final(self).wf(),
    {
        let token = fresh_token();
        let issued = token.clone();
        match self.register(username, password, token) {
            Ok(()) => Ok(issued),
            Err(c) => Err(c),
        }
    }

    /// Look a user up by username and check the password: the stored token
    /// on a match, the reason for refusal otherwise.
    pub fn authenticate(&self, username: &String, password: &String) -> (r: Result<
        String,
        AuthError,
    >)
        ensures
            match lookup_user(self@, username@) {
                None => r == Err::<String, AuthError>(AuthError::UnknownUser),
                Some(m) => if m.password == password@ {
                    r matches Ok(t) && t@ == m.token
                } else {
                    r == Err::<String, AuthError>(AuthError::WrongPassword)
                },
            },
    {
        let n = self.vec.len();
        let mut i: usize = 0;
        proof {
            assert(self@.skip(0) =~= self@);
        }
        while i < n
            invariant
                n == self.vec.len(),
                i <= n,
                lookup_user(self@, username@) == lookup_user(self@.skip(i as int), username@),
            decreases n - i,
        {
            if self.vec[i].username == *username {
                proof {
                    assert(self@.skip(i as int)[0] == self@[i as int]);
                }
                if self.vec[i].password == *password {
                    return Ok(self.vec[i].token.clone());
                }
                return Err(AuthError::WrongPassword);
            }
            proof {
                lemma_lookup_user_skip(self@, username@, i as int);
            }
            i = i + 1;
        }
        proof {
            assert(self@.skip(n as int).len() == 0);
        }
        Err(AuthError::UnknownUser)
    }

    /// Resolve a bearer token to the username of the first user that
    /// carries it, by linear scan.
    pub fn resolve_token(&self, token: &String) -> (r: Option<String>)
        ensures
            match lookup_token(self@, token@) {
                None => r is None,
                Some(m) => r matches Some(u) && u@ == m.username,
            },
    {
        let n = self.vec.len();
        let mut i: usize = 0;
        proof {
            assert(self@.skip(0) =~= self@);
        }
        while i < n
            invariant
                n == self.vec.len(),
                i <= n,
                lookup_token(self@, token@) == lookup_token(self@.skip(i as int), token@),
            decreases n - i,
        {
            if self.vec[i].token == *token {
                proof {
                    assert(self@.skip(i as int)[0] == self@[i as int]);
                }
                return Some(self.vec[i].username.clone());
            }
            proof {
                lemma_lookup_token_skip(self@, token@, i as int);
            }
            i = i + 1;
        }
        proof {
            assert(self@.skip(n as int).len() == 0);
        }
        None
    }
}

/// The feed: every post ever accepted, in insertion order, guarded by its
/// own lock in the surrounding process.
pub struct FeedStore {
    vec: Vec<Post>,
}

impl View for FeedStore {
    type V = Seq<PostModel>;

    closed spec fn view(&self) -> Seq<PostModel> {
        posts_view(self.vec@)
    }
}

/// The four posts the service starts with.
pub open spec fn seed_posts() -> Seq<PostModel> {
    seq![
        PostModel { poster: "example1"@, contents: "hello, world!"@ },
        PostModel { poster: "example2"@, contents: "greetings, earth!"@ },
        PostModel { poster: "example3"@, contents: "howdy, land!"@ },
        PostModel { poster: "example4"@, contents: "hey"@ },
    ]
}

impl FeedStore {
    /// An empty feed.
    pub fn new() -> (r: FeedStore)
        ensures
            r@ == Seq::<PostModel>::empty(),
    {
        let r = FeedStore { vec: Vec::new() };
        proof {
            assert(r@ =~= Seq::<PostModel>::empty());
        }
        r
    }

    /// The feed a fresh process carries: the four example posts.
    pub fn with_examples() -> (r: FeedStore)
        ensures
            r@ == seed_posts(),
    {
        let mut r = FeedStore::new();
        r.append(String::from_str("example1"), String::from_str("hello, world!"));
        r.append(String::from_str("example2"), String::from_str("greetings, earth!"));
        r.append(String::from_str("example3"), String::from_str("howdy, land!"));
        r.append(String::from_str("example4"), String::from_str("hey"));
        proof {
            assert(r@ =~= seed_posts());
        }
        r
    }

    /// How many posts the feed holds.
    pub fn len(&self) -> (r: usize)
        ensures
            r == self@.len(),
    {
        self.vec.len()
    }

    /// The post at a position.
    pub fn get(&self, i: usize) -> (r: &Post)
        requires
            i < self@.len(),
        ensures
            r@ == self@[i as int],
    {
        &self.vec[i]
    }

    /// Add one post at the end.
    pub fn append(&mut self, poster: String, contents: String)
        ensures
            final(self)@ == old(self)@.push(PostModel { poster: poster@, contents: contents@ }),
    {
        let ghost s0 = self@;
        let post = Post { poster, contents };
        let ghost pm = post@;
        self.vec.push(post);
        proof {
            assert(self@ =~= s0.push(pm));
        }
    }

    /// A snapshot copy of the feed, in insertion order.
    pub fn list(&self) -> (r: Vec<Post>)
        ensures
            posts_view(r@) == self@,
    {
        let n = self.vec.len();
        let mut out: Vec<Post> = Vec::new();
        let mut i: usize = 0;
        while i < n
            invariant
                n == self.vec.len(),
                i <= n,
                posts_view(out@) =~= self@.take(i as int),
            decreases n - i,
        {
            let ghost before = out@;
            let p = Post {
                poster: self.vec[i].poster.clone(),
                contents: self.vec[i].contents.clone(),
            };
            proof {
                assert(p@ == self@[i as int]);
            }
            out.push(p);
            proof {
                assert(out@ == before.push(p));
                assert(posts_view(before).len() == before.len());
                assert(self@.take(i as int).len() == i as int);
                assert(before.len() == i as int);
                assert forall|j: int|
                    0 <= j < out@.len() implies posts_view(out@)[j] == self@.take(
                    i as int + 1,
                )[j] by {
                    if j < i as int {
                        assert(out@[j] == before[j]);
                        assert(posts_view(before)[j] == self@.take(i as int)[j]);
                        assert(self@.take(i as int)[j] == self@[j]);
                        assert(self@.take(i as int + 1)[j] == self@[j]);
                    } else {
                        assert(out@[j] == p);
                        assert(self@.take(i as int + 1)[j] == self@[i as int]);
                    }
                }
                assert(posts_view(out@) =~= self@.take(i as int + 1));
            }
            i = i + 1;
        }
        proof {
            assert(self@.take(n as int) =~= self@);
        }
        out
    }
}

} // verus!
