use vstd::prelude::*;
use crate::entity::{Timestamp, UserEntity, UserRecord};

verus! {

/// Why a repository operation failed.
#[derive(Clone, Copy, Debug, PartialEq, Eq, Structural)]
pub enum RepositoryError {
    /// The addressed row does not exist.
    NotFound,
    /// The write would give two users the same email or username.
    UniqueViolation,
    /// The store could not serve the call.
    Unavailable,
    /// A test double was called on a method that the test did not set up.
    Unconfigured,
}

/// A method of `UsersRepository`.
#[derive(Clone, Copy, Debug, PartialEq, Eq, Structural)]
pub enum UsersMethod {
    SearchUserByEmailOrUsername,
    CreateUser,
    GetUserByEmail,
    GetUserByUsername,
    GetUserById,
    UpdateUser,
}

/// A call made on a users repository, with its arguments.
#[derive(Debug, PartialEq, Eq)]
pub enum UsersCall {
    SearchUserByEmailOrUsername { email: String, username: String },
    CreateUser { email: String, username: String, hashed_password: String },
    GetUserByEmail { email: String },
    GetUserByUsername { username: String },
    GetUserById { id: i64 },
    UpdateUser { id: i64, email: String, username: String, password: String, bio: String, image: String },
}

/// Mathematical view of a `UsersCall`.
pub enum UsersCallView {
    SearchUserByEmailOrUsername { email: Seq<char>, username: Seq<char> },
    CreateUser { email: Seq<char>, username: Seq<char>, hashed_password: Seq<char> },
    GetUserByEmail { email: Seq<char> },
    GetUserByUsername { username: Seq<char> },
    GetUserById { id: i64 },
    UpdateUser {
        id: i64,
        email: Seq<char>,
        username: Seq<char>,
        password: Seq<char>,
        bio: Seq<char>,
        image: Seq<char>,
    },
}

impl View for UsersCall {
    type V = UsersCallView;

    open spec fn view(&self) -> UsersCallView {
        match self {
            UsersCall::SearchUserByEmailOrUsername { email, username } =>
                UsersCallView::SearchUserByEmailOrUsername { email: email@, username: username@ },
            UsersCall::CreateUser { email, username, hashed_password } =>
                UsersCallView::CreateUser { email: email@, username: username@, hashed_password: hashed_password@ },
            UsersCall::GetUserByEmail { email } => UsersCallView::GetUserByEmail { email: email@ },
            UsersCall::GetUserByUsername { username } => UsersCallView::GetUserByUsername { username: username@ },
            UsersCall::GetUserById { id } => UsersCallView::GetUserById { id: *id },
            UsersCall::UpdateUser { id, email, username, password, bio, image } => UsersCallView::UpdateUser {
                id: *id,
                email: email@,
                username: username@,
                password: password@,
                bio: bio@,
                image: image@,
            },
        }
    }
}

/// What a lookup over user rows asks of a row.
pub enum Probe {
    Id(i64),
    Email(Seq<char>),
    Username(Seq<char>),
    EmailOrUsername(Seq<char>, Seq<char>),
    /// A row other than `id` that holds the email or the username.
    Conflict(i64, Seq<char>, Seq<char>),
}

pub open spec fn probe_hits(p: Probe, u: UserRecord) -> bool {
    match p {
        Probe::Id(id) => u.id == id,
        Probe::Email(e) => u.email == e,
        Probe::Username(n) => u.username == n,
        Probe::EmailOrUsername(e, n) => u.email == e || u.username == n,
        Probe::Conflict(id, e, n) => u.id != id && (u.email == e || u.username == n),
    }
}

/// Position of the first row at or after `i` that the probe hits.
pub open spec fn first_index_from(users: Seq<UserRecord>, p: Probe, i: nat) -> Option<int>
    decreases users.len() - i,
{
    if i >= users.len() {
        None
    } else if probe_hits(p, users[i as int]) {
        Some(i as int)
    } else {
        first_index_from(users, p, i + 1)
    }
}

pub open spec fn first_index(users: Seq<UserRecord>, p: Probe) -> Option<int> {
    first_index_from(users, p, 0)
}

/// The first row that the probe hits, in store order.
pub open spec fn first_hit(users: Seq<UserRecord>, p: Probe) -> Option<UserRecord> {
    match first_index(users, p) {
        Some(k) => Some(users[k]),
        None => None,
    }
}

pub open spec fn find_by_id(users: Seq<UserRecord>, id: i64) -> Option<UserRecord> {
    first_hit(users, Probe::Id(id))
}

pub open spec fn find_by_email(users: Seq<UserRecord>, email: Seq<char>) -> Option<UserRecord> {
    first_hit(users, Probe::Email(email))
}

pub open spec fn find_by_username(users: Seq<UserRecord>, username: Seq<char>) -> Option<UserRecord> {
    first_hit(users, Probe::Username(username))
}

pub open spec fn find_by_email_or_username(
    users: Seq<UserRecord>,
    email: Seq<char>,
    username: Seq<char>,
) -> Option<UserRecord> {
    first_hit(users, Probe::EmailOrUsername(email, username))
}

/// Some row already holds the email or the username.
pub open spec fn taken(users: Seq<UserRecord>, email: Seq<char>, username: Seq<char>) -> bool {
    exists|i: int| 0 <= i < users.len() && probe_hits(Probe::EmailOrUsername(email, username), #[trigger] users[i])
}

/// A row other than `id` holds the email or the username.
pub open spec fn taken_by_other(users: Seq<UserRecord>, id: i64, email: Seq<char>, username: Seq<char>) -> bool {
    exists|i: int| 0 <= i < users.len() && probe_hits(Probe::Conflict(id, email, username), #[trigger] users[i])
}

/// The view of a lookup's answer.
pub open spec fn record_of(o: Option<UserEntity>) -> Option<UserRecord> {
    match o {
        Some(u) => Some(u@),
        None => None,
    }
}

/// `after` is `before` with the new user `u` appended: a fresh id, the given
/// credentials, empty display fields, and one creation time for both stamps.
pub open spec fn created(
    before: Seq<UserRecord>,
    after: Seq<UserRecord>,
    email: Seq<char>,
    username: Seq<char>,
    password: Seq<char>,
    u: UserRecord,
) -> bool {
    &&& !taken(before, email, username)
    &&& forall|i: int| 0 <= i < before.len() ==> #[trigger] before[i].id != u.id
    &&& after == before.push(u)
    &&& u.email == email
    &&& u.username == username
    &&& u.password == password
    &&& u.bio == Seq::<char>::empty()
    &&& u.image == Seq::<char>::empty()
    &&& u.created_at == u.updated_at
}

/// `after` is `before` with the first row of `id` rewritten to `u`: every
/// mutable field replaced, the identity and creation time kept.
pub open spec fn replaced(
    before: Seq<UserRecord>,
    after: Seq<UserRecord>,
    id: i64,
    email: Seq<char>,
    username: Seq<char>,
    password: Seq<char>,
    bio: Seq<char>,
    image: Seq<char>,
    u: UserRecord,
) -> bool {
    &&& first_index(before, Probe::Id(id)) is Some
    &&& !taken_by_other(before, id, email, username)
    &&& after == before.update(first_index(before, Probe::Id(id))->Some_0, u)
    &&& u.id == id
    &&& u.email == email
    &&& u.username == username
    &&& u.password == password
    &&& u.bio == bio
    &&& u.image == image
    &&& u.created_at == before[first_index(before, Probe::Id(id))->Some_0].created_at
    &&& u.created_at.le(u.updated_at)
}

/// What the first hit of a probe at or after `i` says about the rows.
pub proof fn lemma_first_index_from(users: Seq<UserRecord>, p: Probe, i: nat)
    ensures
        match first_index_from(users, p, i) {
            Some(k) => i <= k < users.len() && probe_hits(p, users[k])
                && forall|j: int| i <= j < k ==> !probe_hits(p, #[trigger] users[j]),
            None => forall|j: int| i <= j < users.len() ==> !probe_hits(p, #[trigger] users[j]),
        },
    decreases users.len() - i,
{
    if i < users.len() {
        lemma_first_index_from(users, p, i + 1);
    }
}

/// The first hit at or after `i` is `k` when `k` is hit and nothing between is.
pub proof fn lemma_first_index_at(users: Seq<UserRecord>, p: Probe, i: nat, k: int)
    requires
        i <= k < users.len(),
        probe_hits(p, users[k]),
        forall|j: int| i <= j < k ==> !probe_hits(p, #[trigger] users[j]),
    ensures
        first_index_from(users, p, i) == Some(k),
    decreases k - i,
{
    if i < k {
        lemma_first_index_at(users, p, i + 1, k);
    }
}

/// A user just created is what lookups by its email, its username and its id
/// find afterwards; it carries the credentials it was created with, and its
/// creation and update times are equal.
pub proof fn law_create_then_find(
    before: Seq<UserRecord>,
    after: Seq<UserRecord>,
    email: Seq<char>,
    username: Seq<char>,
    password: Seq<char>,
    u: UserRecord,
)
    requires
        created(before, after, email, username, password, u),
    ensures
        find_by_email(after, email) == Some(u),
        find_by_username(after, username) == Some(u),
        find_by_id(after, u.id) == Some(u),
        u.email == email,
        u.username == username,
        u.password == password,
        u.created_at == u.updated_at,
{
    let k = before.len() as int;
    assert(after[k] == u);
    assert forall|j: int| 0 <= j < k implies after[j] == before[j] by {}
    assert forall|j: int| 0 <= j < k implies !probe_hits(Probe::Email(email), #[trigger] after[j]) by {
        assert(!probe_hits(Probe::EmailOrUsername(email, username), before[j]));
    }
    assert forall|j: int| 0 <= j < k implies !probe_hits(Probe::Username(username), #[trigger] after[j]) by {
        assert(!probe_hits(Probe::EmailOrUsername(email, username), before[j]));
    }
    assert forall|j: int| 0 <= j < k implies !probe_hits(Probe::Id(u.id), #[trigger] after[j]) by {
        assert(before[j].id != u.id);
    }
    lemma_first_index_at(after, Probe::Email(email), 0, k);
    lemma_first_index_at(after, Probe::Username(username), 0, k);
    lemma_first_index_at(after, Probe::Id(u.id), 0, k);
}

/// A lookup by an email that no row holds finds nothing.
pub proof fn law_absent_email_finds_nothing(users: Seq<UserRecord>, email: Seq<char>)
    requires
        forall|i: int| 0 <= i < users.len() ==> #[trigger] users[i].email != email,
    ensures
        find_by_email(users, email) is None,
{
    lemma_first_index_from(users, Probe::Email(email), 0);
    if first_index(users, Probe::Email(email)) is Some {
        let k = first_index(users, Probe::Email(email))->Some_0;
        assert(users[k].email != email);
    }
}

/// After a full replace, a lookup by the id finds the row with every mutable
/// field set to the new values, whatever they were before.
pub proof fn law_update_then_find_by_id(
    before: Seq<UserRecord>,
    after: Seq<UserRecord>,
    id: i64,
    email: Seq<char>,
    username: Seq<char>,
    password: Seq<char>,
    bio: Seq<char>,
    image: Seq<char>,
    u: UserRecord,
)
    requires
        replaced(before, after, id, email, username, password, bio, image, u),
    ensures
        find_by_id(after, id) == Some(u),
        u.id == id,
        u.email == email,
        u.username == username,
        u.password == password,
        u.bio == bio,
        u.image == image,
{
    let k = first_index(before, Probe::Id(id))->Some_0;
    lemma_first_index_from(before, Probe::Id(id), 0);
    assert forall|j: int| 0 <= j < k implies !probe_hits(Probe::Id(id), #[trigger] after[j]) by {
        assert(after[j] == before[j]);
    }
    lemma_first_index_at(after, Probe::Id(id), 0, k);
}

/// Persistence operations on users. A lookup that finds nothing answers
/// `Ok(None)`, except `get_user_by_id`, which answers `Err(NotFound)`. Every
/// call is logged. The methods take `&mut self`: a handle shared between tasks
/// is put behind a lock by its owner.
pub trait UsersRepository {
    /// The stored user rows, in store order.
    spec fn stored(&self) -> Seq<UserRecord>;

    /// The calls made on this handle, oldest first.
    spec fn calls(&self) -> Seq<UsersCallView>;

    /// The answer that every call of `m` gets whatever the rows, if there is one.
    spec fn refusal(&self, m: UsersMethod) -> Option<RepositoryError>;

    /// Whether a call may fail for a reason that neither the rows nor a refusal give.
    spec fn may_fail(&self) -> bool;

    /// The id that the next created user gets.
    spec fn next_id(&self) -> i64;

    /// The time stamped on rows written next.
    spec fn now(&self) -> Timestamp;

    /// Whether the handle's own bookkeeping is consistent.
    spec fn valid(&self) -> bool;

    fn search_user_by_email_or_username(&mut self, email: &str, username: &str) -> (r: Result<Option<UserEntity>, RepositoryError>)
        requires
            old(self).valid(),
        ensures
            final(self).valid(),
            forall|m: UsersMethod| #[trigger] final(self).refusal(m) == old(self).refusal(m),
            final(self).may_fail() == old(self).may_fail(),
            final(self).now() == old(self).now(),
            final(self).stored() == old(self).stored(),
            final(self).next_id() == old(self).next_id(),
            final(self).calls() == old(self).calls().push(
                UsersCallView::SearchUserByEmailOrUsername { email: email@, username: username@ },
            ),
            old(self).refusal(UsersMethod::SearchUserByEmailOrUsername) is Some ==> r
                == Err::<Option<UserEntity>, RepositoryError>(old(self).refusal(UsersMethod::SearchUserByEmailOrUsername)->Some_0),
            r is Ok ==> record_of(r->Ok_0) == find_by_email_or_username(old(self).stored(), email@, username@),
            old(self).refusal(UsersMethod::SearchUserByEmailOrUsername) is None && !old(self).may_fail() ==> r is Ok,
    ;

    fn create_user(&mut self, email: &str, username: &str, hashed_password: &str) -> (r: Result<UserEntity, RepositoryError>)
        requires
            old(self).valid(),
        ensures
            final(self).valid(),
            forall|m: UsersMethod| #[trigger] final(self).refusal(m) == old(self).refusal(m),
            final(self).may_fail() == old(self).may_fail(),
            final(self).now() == old(self).now(),
            final(self).calls() == old(self).calls().push(
                UsersCallView::CreateUser { email: email@, username: username@, hashed_password: hashed_password@ },
            ),
            old(self).refusal(UsersMethod::CreateUser) is Some ==> r
                == Err::<UserEntity, RepositoryError>(old(self).refusal(UsersMethod::CreateUser)->Some_0),
            r is Ok ==> created(old(self).stored(), final(self).stored(), email@, username@, hashed_password@, r->Ok_0@),
            r is Ok ==> r->Ok_0.id == old(self).next_id() && r->Ok_0.created_at == old(self).now()
                && final(self).next_id() == old(self).next_id() + 1,
            r is Err ==> final(self).stored() == old(self).stored() && final(self).next_id() == old(self).next_id(),
            taken(old(self).stored(), email@, username@) ==> r is Err,
            old(self).refusal(UsersMethod::CreateUser) is None && !old(self).may_fail() ==> (r is Ok <==> (
                !taken(old(self).stored(), email@, username@) && old(self).next_id() < i64::MAX)),
            old(self).refusal(UsersMethod::CreateUser) is None && !old(self).may_fail()
                && taken(old(self).stored(), email@, username@)
                ==> r == Err::<UserEntity, RepositoryError>(RepositoryError::UniqueViolation),
            old(self).refusal(UsersMethod::CreateUser) is None && !old(self).may_fail()
                && !taken(old(self).stored(), email@, username@) && old(self).next_id() == i64::MAX
                ==> r == Err::<UserEntity, RepositoryError>(RepositoryError::Unavailable),
    ;

    fn get_user_by_email(&mut self, email: &str) -> (r: Result<Option<UserEntity>, RepositoryError>)
        requires
            old(self).valid(),
        ensures
            final(self).valid(),
            forall|m: UsersMethod| #[trigger] final(self).refusal(m) == old(self).refusal(m),
            final(self).may_fail() == old(self).may_fail(),
            final(self).now() == old(self).now(),
            final(self).stored() == old(self).stored(),
            final(self).next_id() == old(self).next_id(),
            final(self).calls() == old(self).calls().push(UsersCallView::GetUserByEmail { email: email@ }),
            old(self).refusal(UsersMethod::GetUserByEmail) is Some ==> r
                == Err::<Option<UserEntity>, RepositoryError>(old(self).refusal(UsersMethod::GetUserByEmail)->Some_0),
            r is Ok ==> record_of(r->Ok_0) == find_by_email(old(self).stored(), email@),
            old(self).refusal(UsersMethod::GetUserByEmail) is None && !old(self).may_fail() ==> r is Ok,
    ;

    fn get_user_by_username(&mut self, username: &str) -> (r: Result<Option<UserEntity>, RepositoryError>)
        requires
            old(self).valid(),
        ensures
            final(self).valid(),
            forall|m: UsersMethod| #[trigger] final(self).refusal(m) == old(self).refusal(m),
            final(self).may_fail() == old(self).may_fail(),
            final(self).now() == old(self).now(),
            final(self).stored() == old(self).stored(),
            final(self).next_id() == old(self).next_id(),
            final(self).calls() == old(self).calls().push(UsersCallView::GetUserByUsername { username: username@ }),
            old(self).refusal(UsersMethod::GetUserByUsername) is Some ==> r
                == Err::<Option<UserEntity>, RepositoryError>(old(self).refusal(UsersMethod::GetUserByUsername)->Some_0),
            r is Ok ==> record_of(r->Ok_0) == find_by_username(old(self).stored(), username@),
            old(self).refusal(UsersMethod::GetUserByUsername) is None && !old(self).may_fail() ==> r is Ok,
    ;

    fn get_user_by_id(&mut self, id: i64) -> (r: Result<UserEntity, RepositoryError>)
        requires
            old(self).valid(),
        ensures
            final(self).valid(),
            forall|m: UsersMethod| #[trigger] final(self).refusal(m) == old(self).refusal(m),
            final(self).may_fail() == old(self).may_fail(),
            final(self).now() == old(self).now(),
            final(self).stored() == old(self).stored(),
            final(self).next_id() == old(self).next_id(),
            final(self).calls() == old(self).calls().push(UsersCallView::GetUserById { id }),
            old(self).refusal(UsersMethod::GetUserById) is Some ==> r
                == Err::<UserEntity, RepositoryError>(old(self).refusal(UsersMethod::GetUserById)->Some_0),
            r is Ok ==> find_by_id(old(self).stored(), id) == Some(r->Ok_0@),
            find_by_id(old(self).stored(), id) is None ==> r is Err,
            old(self).refusal(UsersMethod::GetUserById) is None && !old(self).may_fail()
                ==> (r is Ok <==> find_by_id(old(self).stored(), id) is Some),
            old(self).refusal(UsersMethod::GetUserById) is None && !old(self).may_fail() && r is Err
                ==> r == Err::<UserEntity, RepositoryError>(RepositoryError::NotFound),
    ;

    fn update_user(
        &mut self,
        id: i64,
        email: String,
        username: String,
        password: String,
        bio: String,
        image: String,
    ) -> (r: Result<UserEntity, RepositoryError>)
        requires
            old(self).valid(),
        ensures
            final(self).valid(),
            forall|m: UsersMethod| #[trigger] final(self).refusal(m) == old(self).refusal(m),
            final(self).may_fail() == old(self).may_fail(),
            final(self).now() == old(self).now(),
            final(self).next_id() == old(self).next_id(),
            final(self).calls() == old(self).calls().push(UsersCallView::UpdateUser {
                id,
                email: email@,
                username: username@,
                password: password@,
                bio: bio@,
                image: image@,
            }),
            old(self).refusal(UsersMethod::UpdateUser) is Some ==> r
                == Err::<UserEntity, RepositoryError>(old(self).refusal(UsersMethod::UpdateUser)->Some_0),
            r is Ok ==> replaced(old(self).stored(), final(self).stored(), id, email@, username@, password@, bio@, image@, r->Ok_0@),
            r is Ok ==> r->Ok_0.updated_at == old(self).now().later(r->Ok_0.created_at),
            r is Err ==> final(self).stored() == old(self).stored(),
            find_by_id(old(self).stored(), id) is None ==> r is Err,
            taken_by_other(old(self).stored(), id, email@, username@) ==> r is Err,
            old(self).refusal(UsersMethod::UpdateUser) is None && !old(self).may_fail() ==> (r is Ok <==> (
                find_by_id(old(self).stored(), id) is Some && !taken_by_other(old(self).stored(), id, email@, username@))),
            old(self).refusal(UsersMethod::UpdateUser) is None && !old(self).may_fail()
                && find_by_id(old(self).stored(), id) is None
                ==> r == Err::<UserEntity, RepositoryError>(RepositoryError::NotFound),
            old(self).refusal(UsersMethod::UpdateUser) is None && !old(self).may_fail()
                && find_by_id(old(self).stored(), id) is Some && r is Err
                ==> r == Err::<UserEntity, RepositoryError>(RepositoryError::UniqueViolation),
    ;
}

} // verus!
