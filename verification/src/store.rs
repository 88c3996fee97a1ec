//! The transactional store: identity rows, protected resources and the policy
//! rules that guard them, mutated together.
//!
//! Every write is an atomic unit: it either applies all of its effects or
//! none. In particular, creating an identity inserts the identity row and its
//! granting policy rule together, and deleting an identity removes both; no
//! error path leaves one without the other. The store's invariant is that
//! usernames are unique.

use vstd::prelude::*;
use vstd::seq_lib::*;
use vstd::string::StringExecFns;

use crate::errors::Error;
use crate::models::posts::{
    BatchDeletePostRequest, CreatePostRequest, DeletePostRequest, ListPostRequest,
    ListPostResponse, Post, PostView, UpdatePostRequest,
};
use crate::models::users::{
    clone_opt, opt_view, CreateUserRequest, DeleteUserRequest, GetUserByIdRequest, GetUserRequest,
    LoginRequest, User, UserView,
};
use crate::password::{verify_ok, verify_password_hash};
use crate::policy::{grant_rule, lemma_remove_exact_step, remove_exact, rule_matches, spec_check, PolicyStore, RuleView};
use crate::text::str_eq;
use crate::token::{base64_ok, decoded_claims, now_seconds, sat_add, ClaimsView, JWT};

verus! {

// ---------------------------------------------------------------------------
// Lookup functions over the stored rows.
// ---------------------------------------------------------------------------
/// The first identity with the given username, if any.
pub open spec fn find_by_username(users: Seq<UserView>, name: Seq<char>) -> Option<UserView>
    decreases users.len(),
{
    if users.len() == 0 {
        None
    } else if users[0].username == name {
        Some(users[0])
    } else {
        find_by_username(users.drop_first(), name)
    }
}

pub proof fn lemma_find_by_username_none(users: Seq<UserView>, name: Seq<char>)
    ensures
        find_by_username(users, name) is None <==> (forall|i: int|
            0 <= i < users.len() ==> #[trigger] users[i].username != name),
    decreases users.len(),
{
    if users.len() != 0 {
        let rest = users.drop_first();
        lemma_find_by_username_none(rest, name);
        if forall|i: int| 0 <= i < users.len() ==> #[trigger] users[i].username != name {
            assert(users[0].username != name);
            assert forall|i: int| 0 <= i < rest.len() implies #[trigger] rest[i].username
                != name by {
                assert(rest[i] == users[i + 1]);
            }
        }
        if find_by_username(users, name) is None {
            assert forall|i: int| 0 <= i < users.len() implies #[trigger] users[i].username
                != name by {
                if i > 0 {
                    assert(rest[i - 1] == users[i]);
                    assert(rest[i - 1].username != name);
                }
            }
        }
    }
}

pub proof fn lemma_find_by_username_first(users: Seq<UserView>, name: Seq<char>, i: int)
    requires
        0 <= i < users.len(),
        users[i].username == name,
        forall|j: int| 0 <= j < i ==> #[trigger] users[j].username != name,
    ensures
        find_by_username(users, name) == Some(users[i]),
    decreases i,
{
    if i > 0 {
        lemma_find_by_username_first(users.drop_first(), name, i - 1);
    }
}

/// The first identity with the given stable identifier, if any.
pub open spec fn find_by_id(users: Seq<UserView>, id: Seq<char>) -> Option<UserView>
    decreases users.len(),
{
    if users.len() == 0 {
        None
    } else if users[0].id == id {
        Some(users[0])
    } else {
        find_by_id(users.drop_first(), id)
    }
}

pub proof fn lemma_find_by_id_none(users: Seq<UserView>, id: Seq<char>)
    ensures
        find_by_id(users, id) is None <==> (forall|i: int|
            0 <= i < users.len() ==> #[trigger] users[i].id != id),
    decreases users.len(),
{
    if users.len() != 0 {
        let rest = users.drop_first();
        lemma_find_by_id_none(rest, id);
        if forall|i: int| 0 <= i < users.len() ==> #[trigger] users[i].id != id {
            assert(users[0].id != id);
            assert forall|i: int| 0 <= i < rest.len() implies #[trigger] rest[i].id != id by {
                assert(rest[i] == users[i + 1]);
            }
        }
        if find_by_id(users, id) is None {
            assert forall|i: int| 0 <= i < users.len() implies #[trigger] users[i].id != id by {
                if i > 0 {
                    assert(rest[i - 1] == users[i]);
                    assert(rest[i - 1].id != id);
                }
            }
        }
    }
}

pub proof fn lemma_find_by_id_first(users: Seq<UserView>, id: Seq<char>, i: int)
    requires
        0 <= i < users.len(),
        users[i].id == id,
        forall|j: int| 0 <= j < i ==> #[trigger] users[j].id != id,
    ensures
        find_by_id(users, id) == Some(users[i]),
    decreases i,
{
    if i > 0 {
        lemma_find_by_id_first(users.drop_first(), id, i - 1);
    }
}

/// The index of the first identity with the given username, or `-1`.
pub open spec fn find_user_idx(users: Seq<UserView>, name: Seq<char>) -> int
    decreases users.len(),
{
    if users.len() == 0 {
        -1
    } else if users[0].username == name {
        0
    } else {
        let r = find_user_idx(users.drop_first(), name);
        if r == -1 {
            -1
        } else {
            1 + r
        }
    }
}

pub proof fn lemma_find_user_idx_first(users: Seq<UserView>, name: Seq<char>, i: int)
    requires
        0 <= i < users.len(),
        users[i].username == name,
        forall|j: int| 0 <= j < i ==> #[trigger] users[j].username != name,
    ensures
        find_user_idx(users, name) == i,
        find_by_username(users, name) == Some(users[i]),
    decreases i,
{
    lemma_find_by_username_first(users, name, i);
    if i > 0 {
        lemma_find_user_idx_first(users.drop_first(), name, i - 1);
    }
}

/// The index of the first post with the given identifier and owner, or `-1`.
pub open spec fn find_post_idx(posts: Seq<PostView>, id: Seq<char>, owner: Seq<char>) -> int
    decreases posts.len(),
{
    if posts.len() == 0 {
        -1
    } else if posts[0].id == id && posts[0].username == owner {
        0
    } else {
        let r = find_post_idx(posts.drop_first(), id, owner);
        if r == -1 {
            -1
        } else {
            1 + r
        }
    }
}

pub proof fn lemma_find_post_idx_bounds(posts: Seq<PostView>, id: Seq<char>, owner: Seq<char>)
    ensures
        -1 <= find_post_idx(posts, id, owner) < posts.len(),
    decreases posts.len(),
{
    if posts.len() != 0 {
        lemma_find_post_idx_bounds(posts.drop_first(), id, owner);
    }
}

pub proof fn lemma_find_post_idx_none(posts: Seq<PostView>, id: Seq<char>, owner: Seq<char>)
    ensures
        find_post_idx(posts, id, owner) == -1 <==> (forall|i: int|
            0 <= i < posts.len() ==> !((#[trigger] posts[i]).id == id && posts[i].username
                == owner)),
    decreases posts.len(),
{
    if posts.len() != 0 {
        let rest = posts.drop_first();
        lemma_find_post_idx_none(rest, id, owner);
        lemma_find_post_idx_bounds(rest, id, owner);
        if forall|i: int|
            0 <= i < posts.len() ==> !((#[trigger] posts[i]).id == id && posts[i].username
                == owner) {
            assert(!(posts[0].id == id && posts[0].username == owner));
            assert forall|i: int|
                0 <= i < rest.len() implies !((#[trigger] rest[i]).id == id && rest[i].username
                == owner) by {
                assert(rest[i] == posts[i + 1]);
            }
        }
        if find_post_idx(posts, id, owner) == -1 {
            assert(!(posts[0].id == id && posts[0].username == owner));
            assert(find_post_idx(rest, id, owner) == -1);
            assert forall|i: int|
                0 <= i < posts.len() implies !((#[trigger] posts[i]).id == id && posts[i].username
                == owner) by {
                if i > 0 {
                    assert(rest[i - 1] == posts[i]);
                    assert(!(rest[i - 1].id == id && rest[i - 1].username == owner));
                }
            }
        }
    }
}

pub proof fn lemma_find_post_idx_first(posts: Seq<PostView>, id: Seq<char>, owner: Seq<char>, i: int)
    requires
        0 <= i < posts.len(),
        posts[i].id == id,
        posts[i].username == owner,
        forall|j: int| 0 <= j < i ==> !((#[trigger] posts[j]).id == id && posts[j].username == owner),
    ensures
        find_post_idx(posts, id, owner) == i,
    decreases i,
{
    if i > 0 {
        lemma_find_post_idx_first(posts.drop_first(), id, owner, i - 1);
    }
}

/// The first post with the given identifier, whoever owns it, if any.
pub open spec fn find_post_by_id(posts: Seq<PostView>, id: Seq<char>) -> Option<PostView>
    decreases posts.len(),
{
    if posts.len() == 0 {
        None
    } else if posts[0].id == id {
        Some(posts[0])
    } else {
        find_post_by_id(posts.drop_first(), id)
    }
}

pub proof fn lemma_find_post_by_id_none(posts: Seq<PostView>, id: Seq<char>)
    ensures
        find_post_by_id(posts, id) is None <==> (forall|i: int|
            0 <= i < posts.len() ==> #[trigger] posts[i].id != id),
    decreases posts.len(),
{
    if posts.len() != 0 {
        let rest = posts.drop_first();
        lemma_find_post_by_id_none(rest, id);
        if forall|i: int| 0 <= i < posts.len() ==> #[trigger] posts[i].id != id {
            assert(posts[0].id != id);
            assert forall|i: int| 0 <= i < rest.len() implies #[trigger] rest[i].id != id by {
                assert(rest[i] == posts[i + 1]);
            }
        }
        if find_post_by_id(posts, id) is None {
            assert forall|i: int| 0 <= i < posts.len() implies #[trigger] posts[i].id != id by {
                if i > 0 {
                    assert(rest[i - 1] == posts[i]);
                    assert(rest[i - 1].id != id);
                }
            }
        }
    }
}

pub proof fn lemma_find_post_by_id_first(posts: Seq<PostView>, id: Seq<char>, i: int)
    requires
        0 <= i < posts.len(),
        posts[i].id == id,
        forall|j: int| 0 <= j < i ==> #[trigger] posts[j].id != id,
    ensures
        find_post_by_id(posts, id) == Some(posts[i]),
    decreases i,
{
    if i > 0 {
        lemma_find_post_by_id_first(posts.drop_first(), id, i - 1);
    }
}

// ---------------------------------------------------------------------------
// Removal functions over the stored rows.
// ---------------------------------------------------------------------------
/// `posts` without every post that has the given identifier and owner.
pub open spec fn remove_posts(posts: Seq<PostView>, id: Seq<char>, owner: Seq<char>) -> Seq<
    PostView,
> {
    posts.filter(|p: PostView| !(p.id == id && p.username == owner))
}

pub proof fn lemma_remove_posts_step(s: Seq<PostView>, x: PostView, id: Seq<char>, owner: Seq<char>)
    ensures
        remove_posts(s.push(x), id, owner) == if !(x.id == id && x.username == owner) {
            remove_posts(s, id, owner).push(x)
        } else {
            remove_posts(s, id, owner)
        },
{
    reveal(Seq::filter);
    assert(s.push(x).drop_last() =~= s);
}

/// `posts` without every post whose identifier is listed and whose owner is
/// the given one.
pub open spec fn remove_posts_many(
    posts: Seq<PostView>,
    ids: Seq<Seq<char>>,
    owner: Seq<char>,
) -> Seq<PostView> {
    posts.filter(|p: PostView| !(ids.contains(p.id) && p.username == owner))
}

pub proof fn lemma_remove_posts_many_step(
    s: Seq<PostView>,
    x: PostView,
    ids: Seq<Seq<char>>,
    owner: Seq<char>,
)
    ensures
        remove_posts_many(s.push(x), ids, owner) == if !(ids.contains(x.id) && x.username
            == owner) {
            remove_posts_many(s, ids, owner).push(x)
        } else {
            remove_posts_many(s, ids, owner)
        },
{
    reveal(Seq::filter);
    assert(s.push(x).drop_last() =~= s);
}

/// `rules` without the grant rule of the given username.
pub open spec fn remove_grant(rules: Seq<RuleView>, username: Seq<char>) -> Seq<RuleView> {
    remove_exact(rules, grant_rule(username))
}

/// The posts of one owner, in storage order.
pub open spec fn user_posts(posts: Seq<PostView>, owner: Seq<char>) -> Seq<PostView> {
    posts.filter(|p: PostView| p.username == owner)
}

pub proof fn lemma_user_posts_step(s: Seq<PostView>, x: PostView, owner: Seq<char>)
    ensures
        user_posts(s.push(x), owner) == if x.username == owner {
            user_posts(s, owner).push(x)
        } else {
            user_posts(s, owner)
        },
{
    reveal(Seq::filter);
    assert(s.push(x).drop_last() =~= s);
}

/// The listing window over an owner's posts: most recent first, `offset`
/// skipped, at most `limit` returned.
pub open spec fn page_of(s: Seq<PostView>, offset: int, limit: int) -> Seq<PostView> {
    if offset >= s.len() || limit <= 0 {
        Seq::empty()
    } else {
        let count = if limit <= s.len() - offset {
            limit
        } else {
            s.len() - offset
        };
        Seq::new(count as nat, |j: int| s[s.len() - 1 - offset - j])
    }
}

// ---------------------------------------------------------------------------
// The store itself.
// ---------------------------------------------------------------------------
/// The mathematical content of the store: its identity rows, its posts and
/// its policy rules.
pub ghost struct StoreView {
    pub users: Seq<UserView>,
    pub posts: Seq<PostView>,
    pub rules: Seq<RuleView>,
}

impl StoreView {
    /// The store's invariant: usernames are unique.
    pub open spec fn wf(self) -> bool {
        forall|i: int, j: int|
            0 <= i < self.users.len() && 0 <= j < self.users.len() && i != j
                ==> #[trigger] self.users[i].username != #[trigger] self.users[j].username
    }
}

/// The backing store of the service: identity rows, posts and policy rules,
/// written together in atomic units.
pub struct Store {
    pub users: Vec<User>,
    pub posts: Vec<Post>,
    pub policy: PolicyStore,
}

impl View for Store {
    type V = StoreView;

    open spec fn view(&self) -> StoreView {
        StoreView { users: self.users.deep_view(), posts: self.posts.deep_view(), rules: self.policy@ }
    }
}

/// A fresh random identifier in the 36-character hyphenated form.
///
/// Relies on `uuid::Uuid::new_v4` and its `Display` form: a version-4
/// identifier always prints as 36 characters.
#[verifier::external_body]
fn new_uuid() -> (r: String)
    ensures
        r@.len() == 36,
{
    uuid::Uuid::new_v4().to_string()
}

impl Store {
    /// An empty store.
    pub fn new() -> (r: Store)
        ensures
            r@.users == Seq::<UserView>::empty(),
            r@.posts == Seq::<PostView>::empty(),
            r@.rules == Seq::<RuleView>::empty(),
            r@.wf(),
    {
        let r = Store { users: Vec::new(), posts: Vec::new(), policy: PolicyStore::new() };
        proof {
            assert(r@.users =~= Seq::<UserView>::empty());
            assert(r@.posts =~= Seq::<PostView>::empty());
        }
        r
    }

    // -----------------------------------------------------------------------
    // Identity rows.
    // -----------------------------------------------------------------------
    /// The identity with the given username, if stored.
    pub fn get_user_by_username(&self, username: &str) -> (r: Option<User>)
        ensures
            match r {
                Some(u) => find_by_username(self@.users, username@) == Some(u@),
                None => find_by_username(self@.users, username@) is None,
            },
    {
        let n = self.users.len();
        for i in 0..n
            invariant
                n == self@.users.len(),
                forall|j: int| 0 <= j < i ==> #[trigger] self@.users[j].username != username@,
        {
            if str_eq(self.users[i].username.as_str(), username) {
                let found = self.users[i].clone();
                proof {
                    lemma_find_by_username_first(self@.users, username@, i as int);
                }
                return Some(found);
            }
        }
        proof {
            lemma_find_by_username_none(self@.users, username@);
        }
        None
    }

    /// The identity with the given stable identifier, if stored.
    pub fn find_user_by_id(&self, id: &str) -> (r: Option<User>)
        ensures
            match r {
                Some(u) => find_by_id(self@.users, id@) == Some(u@),
                None => find_by_id(self@.users, id@) is None,
            },
    {
        let n = self.users.len();
        for i in 0..n
            invariant
                n == self@.users.len(),
                forall|j: int| 0 <= j < i ==> #[trigger] self@.users[j].id != id@,
        {
            if str_eq(self.users[i].id.as_str(), id) {
                let found = self.users[i].clone();
                proof {
                    lemma_find_by_id_first(self@.users, id@, i as int);
                }
                return Some(found);
            }
        }
        proof {
            lemma_find_by_id_none(self@.users, id@);
        }
        None
    }

    /// Inserts a fresh identity row. The caller has already checked that the
    /// username is free; the row gets a random identifier and the current
    /// time as both timestamps.
    pub fn save_user(
        &mut self,
        username: &str,
        email: &Option<String>,
        phone: &Option<String>,
        password: &str,
    ) -> (r: User)
        requires
            old(self)@.wf(),
            find_by_username(old(self)@.users, username@) is None,
        ensures
            final(self)@.wf(),
            r@.username == username@,
            r@.password == password@,
            r@.email == opt_view(*email),
            r@.phone == opt_view(*phone),
            r@.created_at == r@.updated_at,
            final(self)@.users == old(self)@.users.push(r@),
            final(self)@.posts == old(self)@.posts,
            final(self)@.rules == old(self)@.rules,
    {
        let now = now_seconds();
        let user = User {
            id: new_uuid(),
            username: String::from_str(username),
            password: String::from_str(password),
            email: clone_opt(email),
            phone: clone_opt(phone),
            created_at: now,
            updated_at: now,
        };
        let copy = user.clone();
        let ghost prev = self@.users;
        self.users.push(user);
        proof {
            assert(self@.users =~= prev.push(copy@));
            lemma_find_by_username_none(prev, username@);
            assert forall|i: int, j: int|
                0 <= i < self@.users.len() && 0 <= j < self@.users.len() && i != j implies #[trigger] self@.users[i].username
                != #[trigger] self@.users[j].username by {
                if i < prev.len() && j < prev.len() {
                    assert(old(self)@.wf());
                }
            }
        }
        copy
    }

    /// Creates an identity: one atomic unit that inserts the identity row and
    /// the policy rule granting it every method on its own resource subtree.
    /// A taken username is refused as a conflict; on any failure the store is
    /// unchanged, so no identity row ever exists without its grant.
    pub fn create_user(&mut self, req: &CreateUserRequest) -> (r: Result<User, Error>)
        requires
            old(self)@.wf(),
        ensures
            final(self)@.wf(),
            r is Err <==> find_by_username(old(self)@.users, req.username@) is Some,
            r matches Err(e) ==> e is Conflict && final(self)@ == old(self)@,
            r matches Ok(u) ==> {
                &&& u@.username == req.username@
                &&& u@.password == req.password@
                &&& u@.email == opt_view(req.email)
                &&& u@.phone == opt_view(req.phone)
                &&& final(self)@.users == old(self)@.users.push(u@)
                &&& final(self)@.posts == old(self)@.posts
                &&& final(self)@.rules == if old(self)@.rules.contains(grant_rule(req.username@)) {
                    old(self)@.rules
                } else {
                    old(self)@.rules.push(grant_rule(req.username@))
                }
            },
    {
        if self.get_user_by_username(req.username.as_str()).is_some() {
            return Err(Error::Conflict(String::from_str("username already exists")));
        }
        let user = self.save_user(
            req.username.as_str(),
            &req.email,
            &req.phone,
            req.password.as_str(),
        );
        let mut object = String::from_str("/api/users/");
        object.append(user.username.as_str());
        let mut params: Vec<String> = Vec::new();
        params.push(user.username.clone());
        params.push(object);
        params.push(String::from_str("(GET)|(POST)|(PUT)|(DELETE)"));
        let added = self.policy.add_rule("p", params);
        proof {
            assert(RuleView {
                ptype: "p"@,
                subject: req.username@,
                object: "/api/users/"@ + req.username@,
                action: "(GET)|(POST)|(PUT)|(DELETE)"@,
            } == grant_rule(req.username@));
        }
        match added {
            Ok(()) => Ok(user),
            Err(_) => Err(Error::Conflict(String::from_str("policy grant failed"))),
        }
    }

    /// Resolves an identity by username; a missing identity is a conflict.
    pub fn get_user(&self, req: &GetUserRequest) -> (r: Result<User, Error>)
        ensures
            r is Ok <==> find_by_username(self@.users, req.username@) is Some,
            r matches Ok(u) ==> find_by_username(self@.users, req.username@) == Some(u@),
            r matches Err(e) ==> e is Conflict,
    {
        match self.get_user_by_username(req.username.as_str()) {
            Some(u) => Ok(u),
            None => Err(Error::Conflict(String::from_str("user not found"))),
        }
    }

    /// Resolves an identity by stable identifier; a missing identity is a
    /// conflict.
    pub fn get_user_by_id(&self, req: &GetUserByIdRequest) -> (r: Result<User, Error>)
        ensures
            r is Ok <==> find_by_id(self@.users, req.id@) is Some,
            r matches Ok(u) ==> find_by_id(self@.users, req.id@) == Some(u@),
            r matches Err(e) ==> e is Conflict,
    {
        match self.find_user_by_id(req.id.as_str()) {
            Some(u) => Ok(u),
            None => Err(Error::Conflict(String::from_str("user not found"))),
        }
    }

    /// Removes the identity row with the given identifier, if stored.
    pub fn delete_user_by_id(&mut self, id: &str)
        ensures
            final(self)@.posts == old(self)@.posts,
            final(self)@.rules == old(self)@.rules,
            match find_by_id(old(self)@.users, id@) {
                Some(_) => {
                    let k = choose|k: int|
                        0 <= k < old(self)@.users.len() && old(self)@.users[k].id == id@ && (forall|
                            j: int,
                        | 0 <= j < k ==> #[trigger] old(self)@.users[j].id != id@);
                    final(self)@.users == old(self)@.users.remove(k)
                },
                None => final(self)@.users == old(self)@.users,
            },
    {
        let n = self.users.len();
        for i in 0..n
            invariant
                n == self@.users.len(),
                self@ == old(self)@,
                forall|j: int| 0 <= j < i ==> #[trigger] self@.users[j].id != id@,
        {
            if str_eq(self.users[i].id.as_str(), id) {
                proof {
                    lemma_find_by_id_first(self@.users, id@, i as int);
                }
                let ghost prev = self@.users;
                self.users.remove(i);
                proof {
                    assert(self@.users =~= prev.remove(i as int));
                    assert(0 <= i < prev.len() && prev[i as int].id == id@ && (forall|j: int|
                        0 <= j < i ==> #[trigger] prev[j].id != id@));
                }
                return ;
            }
        }
        proof {
            lemma_find_by_id_none(self@.users, id@);
        }
    }

    /// Removes a policy rule by exact field equality.
    pub fn remove_policy(&mut self, ptype: &str, params: Vec<String>) -> (r: Result<(), Error>)
        ensures
            final(self)@.users == old(self)@.users,
            final(self)@.posts == old(self)@.posts,
            params@.len() == 3 ==> r is Ok,
            params@.len() != 3 ==> (r is Err && final(self)@ == old(self)@),
            r is Ok ==> final(self)@.rules == remove_exact(
                old(self)@.rules,
                RuleView {
                    ptype: ptype@,
                    subject: params@[0]@,
                    object: params@[1]@,
                    action: params@[2]@,
                },
            ),
    {
        self.policy.remove_rule(ptype, params)
    }

    /// Inserts a policy rule; a duplicate changes nothing.
    pub fn add_policy(&mut self, ptype: &str, params: Vec<String>) -> (r: Result<(), Error>)
        ensures
            final(self)@.users == old(self)@.users,
            final(self)@.posts == old(self)@.posts,
            params@.len() == 3 ==> r is Ok,
            params@.len() != 3 ==> (r is Err && final(self)@ == old(self)@),
            r is Ok ==> ({
                let added = RuleView {
                    ptype: ptype@,
                    subject: params@[0]@,
                    object: params@[1]@,
                    action: params@[2]@,
                };
                final(self)@.rules == if old(self)@.rules.contains(added) {
                    old(self)@.rules
                } else {
                    old(self)@.rules.push(added)
                }
            }),
    {
        self.policy.add_rule(ptype, params)
    }

    /// The position of the identity row with the given username, if any.
    fn find_user_index(&self, username: &str) -> (r: Option<usize>)
        ensures
            match r {
                Some(i) => i < self@.users.len() && find_user_idx(self@.users, username@)
                    == i as int && self@.users[i as int].username == username@
                    && find_by_username(self@.users, username@) == Some(self@.users[i as int]),
                None => find_by_username(self@.users, username@) is None,
            },
    {
        let n = self.users.len();
        for i in 0..n
            invariant
                n == self@.users.len(),
                forall|j: int| 0 <= j < i ==> #[trigger] self@.users[j].username != username@,
        {
            if str_eq(self.users[i].username.as_str(), username) {
                proof {
                    lemma_find_user_idx_first(self@.users, username@, i as int);
                }
                return Some(i);
            }
        }
        proof {
            lemma_find_by_username_none(self@.users, username@);
        }
        None
    }

    /// Deletes an identity: one atomic unit that removes the identity row and
    /// the policy rule granting it access to its own resources. A missing
    /// username is a conflict and changes nothing.
    pub fn delete_user(&mut self, req: &DeleteUserRequest) -> (r: Result<(), Error>)
        requires
            old(self)@.wf(),
        ensures
            final(self)@.wf(),
            r is Ok <==> find_by_username(old(self)@.users, req.username@) is Some,
            r matches Err(e) ==> e is Conflict && final(self)@ == old(self)@,
            r is Ok ==> {
                &&& final(self)@.users == old(self)@.users.remove(
                    find_user_idx(old(self)@.users, req.username@),
                )
                &&& final(self)@.posts == old(self)@.posts
                &&& final(self)@.rules == remove_grant(old(self)@.rules, req.username@)
            },
    {
        let at = match self.find_user_index(req.username.as_str()) {
            Some(i) => i,
            None => {
                return Err(Error::Conflict(String::from_str("user not found")));
            },
        };
        let ghost prev = self@;
        let id = self.users[at].id.clone();
        let username = self.users[at].username.clone();
        self.users.remove(at);
        proof {
            assert(self@.users =~= prev.users.remove(at as int));
            assert forall|i: int, j: int|
                0 <= i < self@.users.len() && 0 <= j < self@.users.len() && i != j implies #[trigger] self@.users[i].username
                != #[trigger] self@.users[j].username by {
                assert(prev.wf());
            }
        }
        let mut object = String::from_str("/api/users/");
        object.append(username.as_str());
        let mut params: Vec<String> = Vec::new();
        params.push(username);
        params.push(object);
        params.push(String::from_str("(GET)|(POST)|(PUT)|(DELETE)"));
        let removed = self.policy.remove_rule("p", params);
        proof {
            assert(RuleView {
                ptype: "p"@,
                subject: req.username@,
                object: "/api/users/"@ + req.username@,
                action: "(GET)|(POST)|(PUT)|(DELETE)"@,
            } == grant_rule(req.username@));
        }
        match removed {
            Ok(()) => Ok(()),
            Err(_) => Err(Error::Conflict(String::from_str("policy revoke failed"))),
        }
    }

    /// Checks the stored credentials and issues a token for the identity's
    /// stable identifier. A missing identity and a failed credential check are
    /// both refused as the same unauthorized error; only a failure of the
    /// token subsystem is an internal error.
    pub fn login(&self, req: &LoginRequest) -> (r: Result<String, Error>)
        ensures
            r is Ok <==> (find_by_username(self@.users, req.username@) matches Some(u)
                && verify_ok(u.password, req.password@) && base64_ok(req.jwt_secret@)),
            r matches Ok(t) ==> (find_by_username(self@.users, req.username@) matches Some(u)
                && exists|now: u64|
                decoded_claims(req.jwt_secret@, t@) == Some(
                    ClaimsView { pid: u.id, exp: #[trigger] sat_add(now, req.expiration), claims: None },
                )),
            r matches Err(e) ==> (e is Unauthorized || e is Internal),
            r matches Err(e) && e is Internal ==> (find_by_username(self@.users, req.username@)
                matches Some(u) && verify_ok(u.password, req.password@) && !base64_ok(
                req.jwt_secret@,
            )),
    {
        let user = match self.get_user_by_username(req.username.as_str()) {
            Some(u) => u,
            None => {
                return Err(Error::Unauthorized(String::from_str("invalid credentials")));
            },
        };
        if verify_password_hash(user.password.clone(), req.password.clone()).is_err() {
            return Err(Error::Unauthorized(String::from_str("invalid credentials")));
        }
        let jwt = JWT::new(req.jwt_secret.as_str());
        jwt.generate_token(&req.expiration, user.id, None)
    }

    /// The policy decision for one (subject, object, action) triple.
    pub fn check_permission(&self, sub: &str, obj: &str, act: &str) -> (r: Result<bool, Error>)
        ensures
            r matches Ok(b) && b == spec_check(self@.rules, sub@, obj@, act@),
    {
        Ok(self.policy.check(sub, obj, act))
    }

    // -----------------------------------------------------------------------
    // Protected resources.
    // -----------------------------------------------------------------------
    /// Inserts a fresh post for the request's owner, with a random identifier
    /// and the current time as both timestamps.
    pub fn save_post(&mut self, title: &str, content: &str, username: &str) -> (r: Post)
        ensures
            r@.title == title@,
            r@.content == content@,
            r@.username == username@,
            r@.created_at == r@.updated_at,
            final(self)@.posts == old(self)@.posts.push(r@),
            final(self)@.users == old(self)@.users,
            final(self)@.rules == old(self)@.rules,
    {
        let now = now_seconds();
        let post = Post {
            id: new_uuid(),
            title: String::from_str(title),
            content: String::from_str(content),
            username: String::from_str(username),
            created_at: now,
            updated_at: now,
        };
        let copy = post.clone();
        let ghost prev = self@.posts;
        self.posts.push(post);
        proof {
            assert(self@.posts =~= prev.push(copy@));
        }
        copy
    }

    /// Creates a post owned by the requesting identity.
    pub fn create_post(&mut self, req: &CreatePostRequest) -> (r: Result<Post, Error>)
        ensures
            r matches Ok(p) && p.title@ == req.title@ && p.content@ == req.content@ && p.username@
                == req.username@,
            r matches Ok(p) ==> final(self)@.posts == old(self)@.posts.push(p@),
            final(self)@.users == old(self)@.users,
            final(self)@.rules == old(self)@.rules,
    {
        Ok(self.save_post(req.title.as_str(), req.content.as_str(), req.username.as_str()))
    }

    /// The post with the given identifier, whoever owns it; a missing post is
    /// a conflict.
    pub fn get_post(&self, id: &str) -> (r: Result<Post, Error>)
        ensures
            r is Ok <==> find_post_by_id(self@.posts, id@) is Some,
            r matches Ok(p) ==> find_post_by_id(self@.posts, id@) == Some(p@),
            r matches Err(e) ==> e is Conflict,
    {
        let n = self.posts.len();
        for i in 0..n
            invariant
                n == self@.posts.len(),
                forall|j: int| 0 <= j < i ==> #[trigger] self@.posts[j].id != id@,
        {
            if str_eq(self.posts[i].id.as_str(), id) {
                let found = self.posts[i].clone();
                proof {
                    lemma_find_post_by_id_first(self@.posts, id@, i as int);
                }
                return Ok(found);
            }
        }
        proof {
            lemma_find_post_by_id_none(self@.posts, id@);
        }
        Err(Error::Conflict(String::from_str("post not found")))
    }

    /// How many posts are stored, over all owners.
    pub fn post_count(&self) -> (r: u64)
        ensures
            r == self@.posts.len(),
    {
        self.posts.len() as u64
    }

    /// The posts of one owner, in storage order.
    fn posts_of(&self, username: &str) -> (r: Vec<Post>)
        ensures
            r.deep_view() == user_posts(self@.posts, username@),
    {
        let n = self.posts.len();
        let mut out: Vec<Post> = Vec::new();
        proof {
            assert(self@.posts.subrange(0, 0) =~= Seq::<PostView>::empty());
            reveal(Seq::filter);
            assert(out.deep_view() =~= user_posts(self@.posts.subrange(0, 0), username@));
        }
        for i in 0..n
            invariant
                n == self@.posts.len(),
                out.deep_view() == user_posts(self@.posts.subrange(0, i as int), username@),
        {
            let ghost prefix = self@.posts.subrange(0, i as int);
            proof {
                assert(self@.posts.subrange(0, i + 1 as int) =~= prefix.push(
                    self@.posts[i as int],
                ));
                lemma_user_posts_step(prefix, self@.posts[i as int], username@);
            }
            if str_eq(self.posts[i].username.as_str(), username) {
                let ghost out_old = out.deep_view();
                out.push(self.posts[i].clone());
                proof {
                    assert(out.deep_view() =~= out_old.push(self@.posts[i as int]));
                }
            }
        }
        proof {
            assert(self@.posts.subrange(0, n as int) =~= self@.posts);
        }
        out
    }

    /// Lists one owner's posts, most recent first, skipping `offset` of them
    /// and returning at most `limit`, together with the total number of
    /// stored posts.
    pub fn list_post(&self, req: ListPostRequest) -> (r: Result<ListPostResponse, Error>)
        ensures
            r matches Ok(resp) && resp.total == self@.posts.len()
                && resp.posts.deep_view() == page_of(
                user_posts(self@.posts, req.username@),
                req.offset as int,
                req.limit as int,
            ),
    {
        let mine = self.posts_of(req.username.as_str());
        let total = self.post_count();
        let n = mine.len();
        let mut out: Vec<Post> = Vec::new();
        let offset = req.offset as usize;
        let limit = req.limit as usize;
        if offset >= n || limit == 0 {
            proof {
                assert(out.deep_view() =~= page_of(
                    user_posts(self@.posts, req.username@),
                    req.offset as int,
                    req.limit as int,
                ));
            }
            return Ok(ListPostResponse { total, posts: out });
        }
        let count = if limit <= n - offset {
            limit
        } else {
            n - offset
        };
        for j in 0..count
            invariant
                n == mine.deep_view().len(),
                mine.deep_view() == user_posts(self@.posts, req.username@),
                offset == req.offset as int,
                limit == req.limit as int,
                offset < n,
                1 <= limit,
                count == if limit <= n - offset {
                    limit as int
                } else {
                    n - offset
                },
                out.deep_view() == Seq::new(j as nat, |t: int| mine.deep_view()[n - 1 - offset - t]),
        {
            let ghost out_old = out.deep_view();
            out.push(mine[n - 1 - offset - j].clone());
            proof {
                assert(out.deep_view() =~= out_old.push(mine.deep_view()[n - 1 - offset - j]));
                assert(out.deep_view() =~= Seq::new(
                    (j + 1) as nat,
                    |t: int| mine.deep_view()[n - 1 - offset - t],
                ));
            }
        }
        proof {
            assert(out.deep_view() =~= page_of(
                user_posts(self@.posts, req.username@),
                req.offset as int,
                req.limit as int,
            ));
        }
        Ok(ListPostResponse { total, posts: out })
    }

    /// Rewrites the title and body of the owner's identified post, stamping
    /// the update time; a post that is missing or owned by someone else is a
    /// conflict and changes nothing.
    pub fn update_post(&mut self, req: &UpdatePostRequest) -> (r: Result<Post, Error>)
        ensures
            final(self)@.users == old(self)@.users,
            final(self)@.rules == old(self)@.rules,
            r is Err <==> find_post_idx(old(self)@.posts, req.id@, req.username@) == -1,
            r matches Err(e) ==> e is Conflict && final(self)@ == old(self)@,
            r matches Ok(p) ==> {
                let k = find_post_idx(old(self)@.posts, req.id@, req.username@);
                &&& p.id@ == req.id@
                &&& p.title@ == req.title@
                &&& p.content@ == req.content@
                &&& p.username@ == req.username@
                &&& p.created_at == old(self)@.posts[k].created_at
                &&& final(self)@.posts == old(self)@.posts.update(k, p@)
            },
    {
        let n = self.posts.len();
        for i in 0..n
            invariant
                n == self@.posts.len(),
                self@ == old(self)@,
                forall|j: int|
                    0 <= j < i ==> !((#[trigger] self@.posts[j]).id == req.id@
                        && self@.posts[j].username == req.username@),
        {
            if str_eq(self.posts[i].id.as_str(), req.id.as_str()) && str_eq(
                self.posts[i].username.as_str(),
                req.username.as_str(),
            ) {
                proof {
                    lemma_find_post_idx_first(self@.posts, req.id@, req.username@, i as int);
                }
                let now = now_seconds();
                let updated = Post {
                    id: req.id.clone(),
                    title: req.title.clone(),
                    content: req.content.clone(),
                    username: req.username.clone(),
                    created_at: self.posts[i].created_at,
                    updated_at: now,
                };
                let copy = updated.clone();
                let ghost prev = self@.posts;
                let slot = &mut self.posts[i];
                *slot = updated;
                proof {
                    assert(self@.posts =~= prev.update(i as int, copy@));
                }
                return Ok(copy);
            }
        }
        proof {
            lemma_find_post_idx_none(self@.posts, req.id@, req.username@);
        }
        Err(Error::Conflict(String::from_str("post not found")))
    }

    /// Removes every post with the given identifier and owner; removing
    /// nothing is not an error.
    pub fn delete_post_by_id_and_username(&mut self, id: &str, username: &str)
        ensures
            final(self)@.users == old(self)@.users,
            final(self)@.rules == old(self)@.rules,
            final(self)@.posts == remove_posts(old(self)@.posts, id@, username@),
    {
        let n = self.posts.len();
        let mut kept: Vec<Post> = Vec::new();
        proof {
            assert(self@.posts.subrange(0, 0) =~= Seq::<PostView>::empty());
            reveal(Seq::filter);
            assert(kept.deep_view() =~= remove_posts(self@.posts.subrange(0, 0), id@, username@));
        }
        for i in 0..n
            invariant
                n == self@.posts.len(),
                self@ == old(self)@,
                kept.deep_view() == remove_posts(self@.posts.subrange(0, i as int), id@, username@),
        {
            let ghost prefix = self@.posts.subrange(0, i as int);
            proof {
                assert(self@.posts.subrange(0, i + 1 as int) =~= prefix.push(
                    self@.posts[i as int],
                ));
                lemma_remove_posts_step(prefix, self@.posts[i as int], id@, username@);
            }
            if !(str_eq(self.posts[i].id.as_str(), id) && str_eq(
                self.posts[i].username.as_str(),
                username,
            )) {
                let ghost kept_old = kept.deep_view();
                kept.push(self.posts[i].clone());
                proof {
                    assert(kept.deep_view() =~= kept_old.push(self@.posts[i as int]));
                }
            }
        }
        proof {
            assert(self@.posts.subrange(0, n as int) =~= self@.posts);
        }
        self.posts = kept;
    }

    /// Deletes one post of the requesting owner.
    pub fn delete_post(&mut self, req: &DeletePostRequest) -> (r: Result<(), Error>)
        ensures
            r is Ok,
            final(self)@.users == old(self)@.users,
            final(self)@.rules == old(self)@.rules,
            final(self)@.posts == remove_posts(old(self)@.posts, req.id@, req.username@),
    {
        self.delete_post_by_id_and_username(req.id.as_str(), req.username.as_str());
        Ok(())
    }

    /// Removes every post whose identifier is listed and whose owner is the
    /// given one.
    pub fn delete_posts_by_ids(&mut self, ids: &Vec<String>, username: &str)
        ensures
            final(self)@.users == old(self)@.users,
            final(self)@.rules == old(self)@.rules,
            final(self)@.posts == remove_posts_many(old(self)@.posts, ids.deep_view(), username@),
    {
        let n = self.posts.len();
        let mut kept: Vec<Post> = Vec::new();
        proof {
            assert(self@.posts.subrange(0, 0) =~= Seq::<PostView>::empty());
            reveal(Seq::filter);
            assert(kept.deep_view() =~= remove_posts_many(
                self@.posts.subrange(0, 0),
                ids.deep_view(),
                username@,
            ));
        }
        for i in 0..n
            invariant
                n == self@.posts.len(),
                self@ == old(self)@,
                kept.deep_view() == remove_posts_many(
                    self@.posts.subrange(0, i as int),
                    ids.deep_view(),
                    username@,
                ),
        {
            let ghost prefix = self@.posts.subrange(0, i as int);
            proof {
                assert(self@.posts.subrange(0, i + 1 as int) =~= prefix.push(
                    self@.posts[i as int],
                ));
                lemma_remove_posts_many_step(
                    prefix,
                    self@.posts[i as int],
                    ids.deep_view(),
                    username@,
                );
            }
            if !(contains_str(ids, self.posts[i].id.as_str()) && str_eq(
                self.posts[i].username.as_str(),
                username,
            )) {
                let ghost kept_old = kept.deep_view();
                kept.push(self.posts[i].clone());
                proof {
                    assert(kept.deep_view() =~= kept_old.push(self@.posts[i as int]));
                }
            }
        }
        proof {
            assert(self@.posts.subrange(0, n as int) =~= self@.posts);
        }
        self.posts = kept;
    }

    /// Deletes several posts of the requesting owner in one unit.
    pub fn batch_delete_post(&mut self, req: &BatchDeletePostRequest) -> (r: Result<(), Error>)
        ensures
            r is Ok,
            final(self)@.users == old(self)@.users,
            final(self)@.rules == old(self)@.rules,
            final(self)@.posts == remove_posts_many(
                old(self)@.posts,
                req.ids.deep_view(),
                req.username@,
            ),
    {
        self.delete_posts_by_ids(&req.ids, req.username.as_str());
        Ok(())
    }
}

/// Law: once an identity's grant rule is removed, a subject whose only rules
/// were that grant is denied on every object and action — in particular on
/// its former resource subtree. Together with `delete_user`'s contract (the
/// identity row and its grant rule leave in one unit) this says a deleted
/// identity can no longer pass any policy check.
pub proof fn lemma_remove_grant_denies(
    rules: Seq<RuleView>,
    username: Seq<char>,
    obj: Seq<char>,
    act: Seq<char>,
)
    requires
        forall|i: int|
            0 <= i < rules.len() && (#[trigger] rules[i]).subject == username ==> rules[i]
                == grant_rule(username),
    ensures
        !spec_check(remove_grant(rules, username), username, obj, act),
    decreases rules.len(),
{
    reveal(Seq::filter);
    let kept = remove_grant(rules, username);
    if rules.len() == 0 {
        assert(kept =~= Seq::<RuleView>::empty());
    } else {
        let s = rules.drop_last();
        let x = rules.last();
        assert forall|i: int|
            0 <= i < s.len() && (#[trigger] s[i]).subject == username implies s[i] == grant_rule(
            username,
        ) by {
            assert(s[i] == rules[i]);
        }
        lemma_remove_grant_denies(s, username, obj, act);
        assert(s.push(x) =~= rules);
        lemma_remove_exact_step(s, x, grant_rule(username));
        let prev = remove_grant(s, username);
        if x != grant_rule(username) {
            assert(kept == prev.push(x));
            assert(x.subject != username);
            assert forall|i: int|
                0 <= i < kept.len() implies !rule_matches(#[trigger] kept[i], username, obj, act) by {
                if i < prev.len() {
                    assert(kept[i] == prev[i]);
                    assert(!spec_check(prev, username, obj, act));
                    assert(!rule_matches(prev[i], username, obj, act));
                } else {
                    assert(kept[i] == x);
                }
            }
        } else {
            assert(kept == prev);
        }
    }
}

/// Law: of two identity creations with the same username against a store that
/// did not hold it, only the first can succeed. After the first commits, the
/// username resolves, so `create_user`'s contract forces the second to return
/// a conflict and leave the store unchanged — and exactly one identity row
/// and one grant rule for that username exist.
pub proof fn lemma_second_create_conflicts(s0: StoreView, s1: StoreView, u: UserView, name: Seq<char>)
    requires
        s0.wf(),
        find_by_username(s0.users, name) is None,
        u.username == name,
        s1.users == s0.users.push(u),
        !s0.rules.contains(grant_rule(name)),
        s1.rules == s0.rules.push(grant_rule(name)),
    ensures
        find_by_username(s1.users, name) is Some,
        s1.wf(),
        forall|i: int, j: int|
            0 <= i < s1.users.len() && 0 <= j < s1.users.len() && (#[trigger] s1.users[i]).username
                == name && (#[trigger] s1.users[j]).username == name ==> i == j,
        forall|i: int, j: int|
            0 <= i < s1.rules.len() && 0 <= j < s1.rules.len() && #[trigger] s1.rules[i]
                == grant_rule(name) && #[trigger] s1.rules[j] == grant_rule(name) ==> i == j,
{
    lemma_find_by_username_none(s0.users, name);
    lemma_find_by_username_none(s1.users, name);
    assert(s1.users[s0.users.len() as int].username == name);
    assert forall|i: int, j: int|
        0 <= i < s1.users.len() && 0 <= j < s1.users.len() && i != j implies #[trigger] s1.users[i].username
        != #[trigger] s1.users[j].username by {
        if i < s0.users.len() && j < s0.users.len() {
            assert(s0.wf());
        }
    }
}

/// Whether one of the strings holds exactly these characters.
pub fn contains_str(items: &Vec<String>, s: &str) -> (r: bool)
    ensures
        r == items.deep_view().contains(s@),
{
    let n = items.len();
    for i in 0..n
        invariant
            n == items.deep_view().len(),
            forall|j: int| 0 <= j < i ==> #[trigger] items.deep_view()[j] != s@,
    {
        if str_eq(items[i].as_str(), s) {
            proof {
                assert(items.deep_view()[i as int] == s@);
            }
            return true;
        }
    }
    false
}

} // verus!
