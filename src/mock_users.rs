use vstd::prelude::*;
use crate::entity::{Timestamp, UserEntity, UserRecord};
use crate::users::{
    first_index, first_index_from, lemma_first_index_from, probe_hits, Probe,
    RepositoryError, UsersCall, UsersCallView, UsersMethod, UsersRepository,
};

verus! {

/// The views of stored users, in order.
pub open spec fn records(users: Seq<UserEntity>) -> Seq<UserRecord> {
    users.map_values(|u: UserEntity| u@)
}

/// An exec form of a probe.
enum Lookup {
    Id(i64),
    Email(String),
    Username(String),
    EmailOrUsername(String, String),
    Conflict(i64, String, String),
}

spec fn probe_of(l: Lookup) -> Probe {
    match l {
        Lookup::Id(id) => Probe::Id(id),
        Lookup::Email(e) => Probe::Email(e@),
        Lookup::Username(n) => Probe::Username(n@),
        Lookup::EmailOrUsername(e, n) => Probe::EmailOrUsername(e@, n@),
        Lookup::Conflict(id, e, n) => Probe::Conflict(id, e@, n@),
    }
}

fn hits(l: &Lookup, u: &UserEntity) -> (r: bool)
    ensures
        r == probe_hits(probe_of(*l), u@),
{
    match l {
        Lookup::Id(id) => u.id == *id,
        Lookup::Email(e) => u.email == *e,
        Lookup::Username(n) => u.username == *n,
        Lookup::EmailOrUsername(e, n) => u.email == *e || u.username == *n,
        Lookup::Conflict(id, e, n) => u.id != *id && (u.email == *e || u.username == *n),
    }
}

fn position(users: &Vec<UserEntity>, l: &Lookup) -> (r: Option<usize>)
    ensures
        match r {
            Some(k) => first_index(records(users@), probe_of(*l)) == Some(k as int),
            None => first_index(records(users@), probe_of(*l)) is None,
        },
{
    let ghost recs = records(users@);
    let mut i: usize = 0;
    while i < users.len()
        invariant
            i <= users@.len(),
            recs == records(users@),
            first_index_from(recs, probe_of(*l), i as nat) == first_index(recs, probe_of(*l)),
        decreases users@.len() - i,
    {
        if hits(l, &users[i]) {
            return Some(i);
        }
        i = i + 1;
    }
    None
}

/// The views of logged calls, in order.
pub open spec fn call_views(calls: Seq<UsersCall>) -> Seq<UsersCallView> {
    calls.map_values(|c: UsersCall| c@)
}

/// A users test double. A method answers `Err(Unconfigured)` until the test
/// expects it; an expected method answers from the rows the test seeded and
/// wrote, kept in insertion order. New rows get ids from a counter that stays
/// above every stored id. A configured failure makes every call fail with it.
/// Every call is logged with its arguments.
pub struct MockUsersRepository {
    users: Vec<UserEntity>,
    next_id: i64,
    clock: Timestamp,
    failure: Option<RepositoryError>,
    expected: Vec<UsersMethod>,
    calls: Vec<UsersCall>,
}

impl MockUsersRepository {
    /// The failure that every call answers with, if one is configured.
    pub closed spec fn configured_failure(&self) -> Option<RepositoryError> {
        self.failure
    }

    /// A store with no rows, ids from 1, the clock at the epoch, no method
    /// expected, no failure configured and no call logged.
    pub fn new() -> (r: MockUsersRepository)
        ensures
            r.valid(),
            r.stored() == Seq::<UserRecord>::empty(),
            r.calls() == Seq::<UsersCallView>::empty(),
            forall|m: UsersMethod| #[trigger] r.refusal(m) == Some(RepositoryError::Unconfigured),
            r.configured_failure() is None,
            !r.may_fail(),
            r.next_id() == 1,
            r.now() == (Timestamp { unix_micros: 0 }),
    {
        let r = MockUsersRepository {
            users: Vec::new(),
            next_id: 1,
            clock: Timestamp { unix_micros: 0 },
            failure: None,
            expected: Vec::new(),
            calls: Vec::new(),
        };
        assert(records(r.users@) =~= Seq::<UserRecord>::empty());
        assert(call_views(r.calls@) =~= Seq::<UsersCallView>::empty());
        r
    }

    /// Makes calls of `m` answer from the stored rows (unless a failure is configured).
    pub fn expect(&mut self, m: UsersMethod)
        requires
            old(self).valid(),
        ensures
            final(self).valid(),
            final(self).refusal(m) == if old(self).refusal(m) == Some(RepositoryError::Unconfigured) {
                None
            } else {
                old(self).refusal(m)
            },
            forall|n: UsersMethod| n != m ==> #[trigger] final(self).refusal(n) == old(self).refusal(n),
            final(self).configured_failure() == old(self).configured_failure(),
            final(self).stored() == old(self).stored(),
            final(self).calls() == old(self).calls(),
            final(self).may_fail() == old(self).may_fail(),
            final(self).next_id() == old(self).next_id(),
            final(self).now() == old(self).now(),
    {
        self.expected.push(m);
        assert(self.expected@.last() == m);
        assert forall|n: UsersMethod| n != m implies #[trigger] self.expected@.contains(n) == old(self).expected@.contains(n) by {
            if old(self).expected@.contains(n) {
                let i = choose|i: int| 0 <= i < old(self).expected@.len() && old(self).expected@[i] == n;
                assert(self.expected@[i] == n);
            }
        }
        assert(self.expected@[self.expected@.len() - 1] == m);
    }

    /// Makes every method answer from the stored rows (unless a failure is configured).
    pub fn expect_all(&mut self)
        requires
            old(self).valid(),
        ensures
            final(self).valid(),
            forall|n: UsersMethod| #[trigger] final(self).refusal(n) == if old(self).refusal(n) == Some(
                RepositoryError::Unconfigured,
            ) {
                None
            } else {
                old(self).refusal(n)
            },
            final(self).configured_failure() == old(self).configured_failure(),
            final(self).stored() == old(self).stored(),
            final(self).calls() == old(self).calls(),
            final(self).may_fail() == old(self).may_fail(),
            final(self).next_id() == old(self).next_id(),
            final(self).now() == old(self).now(),
    {
        self.expect(UsersMethod::SearchUserByEmailOrUsername);
        self.expect(UsersMethod::CreateUser);
        self.expect(UsersMethod::GetUserByEmail);
        self.expect(UsersMethod::GetUserByUsername);
        self.expect(UsersMethod::GetUserById);
        self.expect(UsersMethod::UpdateUser);
        assert forall|n: UsersMethod| #[trigger] self.refusal(n) == if old(self).refusal(n) == Some(
            RepositoryError::Unconfigured,
        ) {
            None
        } else {
            old(self).refusal(n)
        } by {
            match n {
                UsersMethod::SearchUserByEmailOrUsername => {},
                UsersMethod::CreateUser => {},
                UsersMethod::GetUserByEmail => {},
                UsersMethod::GetUserByUsername => {},
                UsersMethod::GetUserById => {},
                UsersMethod::UpdateUser => {},
            }
        }
    }

    /// Stores `user` as it is, after the rows already there.
    pub fn seed_user(&mut self, user: UserEntity)
        requires
            old(self).valid(),
        ensures
            final(self).valid(),
            forall|m: UsersMethod| #[trigger] final(self).refusal(m) == old(self).refusal(m),
            final(self).may_fail() == old(self).may_fail(),
            final(self).now() == old(self).now(),
            final(self).stored() == old(self).stored().push(user@),
            final(self).calls() == old(self).calls(),
            final(self).configured_failure() == old(self).configured_failure(),
            final(self).next_id() == if user.id < old(self).next_id() {
                old(self).next_id()
            } else if user.id < i64::MAX {
                (user.id + 1) as i64
            } else {
                i64::MAX
            },
    {
        if user.id >= self.next_id {
            if user.id < i64::MAX {
                self.next_id = user.id + 1;
            } else {
                self.next_id = i64::MAX;
            }
        }
        self.users.push(user);
        assert(records(self.users@) =~= records(old(self).users@).push(user@));
    }

    /// Sets the time stamped on rows written next.
    pub fn set_clock(&mut self, now: Timestamp)
        requires
            old(self).valid(),
        ensures
            final(self).valid(),
            final(self).now() == now,
            forall|m: UsersMethod| #[trigger] final(self).refusal(m) == old(self).refusal(m),
            final(self).may_fail() == old(self).may_fail(),
            final(self).stored() == old(self).stored(),
            final(self).calls() == old(self).calls(),
            final(self).configured_failure() == old(self).configured_failure(),
            final(self).next_id() == old(self).next_id(),
    {
        self.clock = now;
    }

    /// Makes every later call fail with `error`; `Unconfigured` stays the
    /// answer of methods the test did not expect.
    pub fn fail_with(&mut self, error: RepositoryError)
        requires
            old(self).valid(),
            error != RepositoryError::Unconfigured,
        ensures
            final(self).valid(),
            forall|m: UsersMethod| #[trigger] final(self).refusal(m) == Some(error),
            final(self).configured_failure() == Some(error),
            final(self).may_fail() == old(self).may_fail(),
            final(self).stored() == old(self).stored(),
            final(self).calls() == old(self).calls(),
            final(self).next_id() == old(self).next_id(),
            final(self).now() == old(self).now(),
    {
        self.failure = Some(error);
    }

    /// The calls made so far, oldest first.
    pub fn recorded_calls(&self) -> (r: &Vec<UsersCall>)
        ensures
            call_views(r@) == self.calls(),
    {
        &self.calls
    }

    fn expects(&self, m: UsersMethod) -> (r: bool)
        ensures
            r == self.expected@.contains(m),
    {
        let mut i: usize = 0;
        while i < self.expected.len()
            invariant
                i <= self.expected@.len(),
                forall|j: int| 0 <= j < i ==> self.expected@[j] != m,
            decreases self.expected@.len() - i,
        {
            if self.expected[i] == m {
                return true;
            }
            i = i + 1;
        }
        false
    }

    fn refusal_of(&self, m: UsersMethod) -> (r: Option<RepositoryError>)
        ensures
            r == self.refusal(m),
    {
        if let Some(e) = self.failure {
            Some(e)
        } else if !self.expects(m) {
            Some(RepositoryError::Unconfigured)
        } else {
            None
        }
    }

    fn log(&mut self, call: UsersCall)
        ensures
            final(self).calls() == old(self).calls().push(call@),
            final(self).users == old(self).users,
            final(self).next_id == old(self).next_id,
            final(self).clock == old(self).clock,
            final(self).failure == old(self).failure,
            final(self).expected == old(self).expected,
    {
        self.calls.push(call);
        assert(call_views(self.calls@) =~= call_views(old(self).calls@).push(call@));
    }

    fn find(&self, l: Lookup) -> (r: Option<UserEntity>)
        ensures
            crate::users::record_of(r) == crate::users::first_hit(self.stored(), probe_of(l)),
    {
        proof {
            lemma_first_index_from(records(self.users@), probe_of(l), 0);
        }
        match position(&self.users, &l) {
            Some(k) => Some(self.users[k].duplicate()),
            None => None,
        }
    }
}

impl UsersRepository for MockUsersRepository {
    closed spec fn stored(&self) -> Seq<UserRecord> {
        records(self.users@)
    }

    closed spec fn calls(&self) -> Seq<UsersCallView> {
        call_views(self.calls@)
    }

    closed spec fn refusal(&self, m: UsersMethod) -> Option<RepositoryError> {
        if self.failure is Some {
            self.failure
        } else if !self.expected@.contains(m) {
            Some(RepositoryError::Unconfigured)
        } else {
            None
        }
    }

    closed spec fn may_fail(&self) -> bool {
        false
    }

    closed spec fn next_id(&self) -> i64 {
        self.next_id
    }

    closed spec fn now(&self) -> Timestamp {
        self.clock
    }

    closed spec fn valid(&self) -> bool {
        &&& self.failure != Some(RepositoryError::Unconfigured)
        &&& forall|i: int| 0 <= i < self.users@.len() ==> #[trigger] self.users@[i].id < self.next_id
                || self.next_id == i64::MAX
    }

    fn search_user_by_email_or_username(&mut self, email: &str, username: &str) -> (r: Result<Option<UserEntity>, RepositoryError>) {
        self.log(UsersCall::SearchUserByEmailOrUsername { email: email.to_owned(), username: username.to_owned() });
        if let Some(e) = self.refusal_of(UsersMethod::SearchUserByEmailOrUsername) {
            return Err(e);
        }
        Ok(self.find(Lookup::EmailOrUsername(email.to_owned(), username.to_owned())))
    }

    fn create_user(&mut self, email: &str, username: &str, hashed_password: &str) -> (r: Result<UserEntity, RepositoryError>) {
        self.log(UsersCall::CreateUser {
            email: email.to_owned(),
            username: username.to_owned(),
            hashed_password: hashed_password.to_owned(),
        });
        let ghost before = self.stored();
        if let Some(e) = self.refusal_of(UsersMethod::CreateUser) {
            return Err(e);
        }
        let probe = Lookup::EmailOrUsername(email.to_owned(), username.to_owned());
        let hit = position(&self.users, &probe);
        proof {
            lemma_first_index_from(before, probe_of(probe), 0);
        }
        if hit.is_some() {
            return Err(RepositoryError::UniqueViolation);
        }
        if self.next_id == i64::MAX {
            return Err(RepositoryError::Unavailable);
        }
        let user = UserEntity {
            id: self.next_id,
            created_at: self.clock,
            updated_at: self.clock,
            username: username.to_owned(),
            email: email.to_owned(),
            password: hashed_password.to_owned(),
            bio: String::new(),
            image: String::new(),
        };
        let out = user.duplicate();
        self.users.push(user);
        self.next_id = self.next_id + 1;
        assert(records(self.users@) =~= before.push(out@));
        Ok(out)
    }

    fn get_user_by_email(&mut self, email: &str) -> (r: Result<Option<UserEntity>, RepositoryError>) {
        self.log(UsersCall::GetUserByEmail { email: email.to_owned() });
        if let Some(e) = self.refusal_of(UsersMethod::GetUserByEmail) {
            return Err(e);
        }
        Ok(self.find(Lookup::Email(email.to_owned())))
    }

    fn get_user_by_username(&mut self, username: &str) -> (r: Result<Option<UserEntity>, RepositoryError>) {
        self.log(UsersCall::GetUserByUsername { username: username.to_owned() });
        if let Some(e) = self.refusal_of(UsersMethod::GetUserByUsername) {
            return Err(e);
        }
        Ok(self.find(Lookup::Username(username.to_owned())))
    }

    fn get_user_by_id(&mut self, id: i64) -> (r: Result<UserEntity, RepositoryError>) {
        self.log(UsersCall::GetUserById { id });
        if let Some(e) = self.refusal_of(UsersMethod::GetUserById) {
            return Err(e);
        }
        match self.find(Lookup::Id(id)) {
            Some(u) => Ok(u),
            None => Err(RepositoryError::NotFound),
        }
    }

    fn update_user(
        &mut self,
        id: i64,
        email: String,
        username: String,
        password: String,
        bio: String,
        image: String,
    ) -> (r: Result<UserEntity, RepositoryError>) {
        self.log(UsersCall::UpdateUser {
            id,
            email: email.clone(),
            username: username.clone(),
            password: password.clone(),
            bio: bio.clone(),
            image: image.clone(),
        });
        let ghost before = self.stored();
        if let Some(e) = self.refusal_of(UsersMethod::UpdateUser) {
            return Err(e);
        }
        match position(&self.users, &Lookup::Id(id)) {
            None => Err(RepositoryError::NotFound),
            Some(k) => {
                let probe = Lookup::Conflict(id, email.clone(), username.clone());
                let clash = position(&self.users, &probe);
                proof {
                    lemma_first_index_from(before, probe_of(probe), 0);
                    lemma_first_index_from(before, Probe::Id(id), 0);
                }
                if clash.is_some() {
                    return Err(RepositoryError::UniqueViolation);
                }
                let created_at = self.users[k].created_at;
                let updated_at = self.clock.later_of(created_at);
                let user = UserEntity { id, created_at, updated_at, username, email, password, bio, image };
                let out = user.duplicate();
                self.users.set(k, user);
                assert(records(self.users@) =~= before.update(k as int, out@));
                Ok(out)
            },
        }
    }
}

} // verus!
