use vstd::prelude::*;
use crate::entity::UserFollowEntity;
use crate::users::RepositoryError;

verus! {

/// Holds of the follow rows whose follower is `user_id`.
pub open spec fn followed_by(user_id: i64) -> spec_fn(UserFollowEntity) -> bool {
    |f: UserFollowEntity| f.follower_id == user_id
}

/// The follow rows whose follower is `user_id`, in store order.
pub open spec fn followees_of(follows: Seq<UserFollowEntity>, user_id: i64) -> Seq<UserFollowEntity> {
    follows.filter(followed_by(user_id))
}

/// A user with no follow rows as follower has no followees.
pub proof fn law_no_follow_rows_no_followees(follows: Seq<UserFollowEntity>, user_id: i64)
    requires
        forall|i: int| 0 <= i < follows.len() ==> #[trigger] follows[i].follower_id != user_id,
    ensures
        followees_of(follows, user_id) == Seq::<UserFollowEntity>::empty(),
{
    assert(follows.all(|f: UserFollowEntity| !followed_by(user_id)(f))) by {
        assert forall|i: int| 0 <= i < follows.len() implies !followed_by(user_id)(#[trigger] follows[i]) by {}
    }
    follows.lemma_all_neg_filter_empty(followed_by(user_id));
    assert(followees_of(follows, user_id) =~= Seq::<UserFollowEntity>::empty());
}

/// Persistence operations on follow relations. Every call is logged by the
/// user id it asked for. The method takes `&mut self`: a handle shared between
/// tasks is put behind a lock by its owner.
pub trait ProfilesRepository {
    /// The stored follow rows, in store order.
    spec fn follows(&self) -> Seq<UserFollowEntity>;

    /// The user ids that `get_user_followees` was called with, oldest first.
    spec fn calls(&self) -> Seq<i64>;

    /// The answer that every call gets whatever the rows, if there is one.
    spec fn refusal(&self) -> Option<RepositoryError>;

    /// Whether a call may fail for a reason that neither the rows nor a refusal give.
    spec fn may_fail(&self) -> bool;

    /// Whether the handle's own bookkeeping is consistent.
    spec fn valid(&self) -> bool;

    /// Every follow row whose follower is `user_id`; none is no failure.
    fn get_user_followees(&mut self, user_id: i64) -> (r: Result<Vec<UserFollowEntity>, RepositoryError>)
        requires
            old(self).valid(),
        ensures
            final(self).valid(),
            final(self).follows() == old(self).follows(),
            final(self).refusal() == old(self).refusal(),
            final(self).may_fail() == old(self).may_fail(),
            final(self).calls() == old(self).calls().push(user_id),
            old(self).refusal() is Some ==> r == Err::<Vec<UserFollowEntity>, RepositoryError>(old(self).refusal()->Some_0),
            r is Ok ==> r->Ok_0@ == followees_of(old(self).follows(), user_id),
            old(self).refusal() is None && !old(self).may_fail() ==> r is Ok,
    ;
}

/// A follow test double. `get_user_followees` answers `Err(Unconfigured)`
/// until the test expects it, then answers from the rows the test seeded; a
/// configured failure makes every call fail with it. Every call is logged.
pub struct MockProfilesRepository {
    follows: Vec<UserFollowEntity>,
    failure: Option<RepositoryError>,
    expected: bool,
    calls: Vec<i64>,
}

impl MockProfilesRepository {
    /// The failure that every call answers with, if one is configured.
    pub closed spec fn configured_failure(&self) -> Option<RepositoryError> {
        self.failure
    }

    /// A store with no rows, the method not expected, no failure configured and
    /// no call logged.
    pub fn new() -> (r: MockProfilesRepository)
        ensures
            r.valid(),
            r.follows() == Seq::<UserFollowEntity>::empty(),
            r.calls() == Seq::<i64>::empty(),
            r.refusal() == Some(RepositoryError::Unconfigured),
            r.configured_failure() is None,
            !r.may_fail(),
    {
        MockProfilesRepository { follows: Vec::new(), failure: None, expected: false, calls: Vec::new() }
    }

    /// Makes `get_user_followees` answer from the stored rows (unless a failure is configured).
    pub fn expect_get_user_followees(&mut self)
        requires
            old(self).valid(),
        ensures
            final(self).valid(),
            final(self).refusal() == if old(self).refusal() == Some(RepositoryError::Unconfigured) {
                None
            } else {
                old(self).refusal()
            },
            final(self).configured_failure() == old(self).configured_failure(),
            final(self).follows() == old(self).follows(),
            final(self).calls() == old(self).calls(),
            final(self).may_fail() == old(self).may_fail(),
    {
        self.expected = true;
    }

    /// Stores `follow` after the rows already there.
    pub fn seed_follow(&mut self, follow: UserFollowEntity)
        requires
            old(self).valid(),
        ensures
            final(self).valid(),
            final(self).follows() == old(self).follows().push(follow),
            final(self).refusal() == old(self).refusal(),
            final(self).configured_failure() == old(self).configured_failure(),
            final(self).calls() == old(self).calls(),
            final(self).may_fail() == old(self).may_fail(),
    {
        self.follows.push(follow);
    }

    /// Makes every later call fail with `error`; `Unconfigured` stays the
    /// answer while the test has not expected the method.
    pub fn fail_with(&mut self, error: RepositoryError)
        requires
            old(self).valid(),
            error != RepositoryError::Unconfigured,
        ensures
            final(self).valid(),
            final(self).follows() == old(self).follows(),
            final(self).refusal() == Some(error),
            final(self).configured_failure() == Some(error),
            final(self).calls() == old(self).calls(),
            final(self).may_fail() == old(self).may_fail(),
    {
        self.failure = Some(error);
    }

    /// The user ids asked for so far, oldest first.
    pub fn recorded_calls(&self) -> (r: &Vec<i64>)
        ensures
            r@ == self.calls(),
    {
        &self.calls
    }
}

impl ProfilesRepository for MockProfilesRepository {
    closed spec fn follows(&self) -> Seq<UserFollowEntity> {
        self.follows@
    }

    closed spec fn calls(&self) -> Seq<i64> {
        self.calls@
    }

    closed spec fn refusal(&self) -> Option<RepositoryError> {
        if self.failure is Some {
            self.failure
        } else if !self.expected {
            Some(RepositoryError::Unconfigured)
        } else {
            None
        }
    }

    closed spec fn may_fail(&self) -> bool {
        false
    }

    closed spec fn valid(&self) -> bool {
        self.failure != Some(RepositoryError::Unconfigured)
    }

    fn get_user_followees(&mut self, user_id: i64) -> (r: Result<Vec<UserFollowEntity>, RepositoryError>) {
        self.calls.push(user_id);
        if let Some(e) = self.failure {
            return Err(e);
        }
        if !self.expected {
            return Err(RepositoryError::Unconfigured);
        }
        let mut out: Vec<UserFollowEntity> = Vec::new();
        let mut i: usize = 0;
        proof {
            reveal(Seq::filter);
            assert(self.follows@.subrange(0, 0) =~= Seq::<UserFollowEntity>::empty());
        }
        while i < self.follows.len()
            invariant
                i <= self.follows@.len(),
                out@ == followees_of(self.follows@.subrange(0, i as int), user_id),
            decreases self.follows@.len() - i,
        {
            let f = self.follows[i];
            proof {
                assert(self.follows@.subrange(0, i + 1) =~= self.follows@.subrange(0, i as int).push(f));
                self.follows@.subrange(0, i as int).lemma_filter_push(f, followed_by(user_id));
            }
            if f.follower_id == user_id {
                out.push(f);
            }
            i = i + 1;
        }
        assert(self.follows@.subrange(0, i as int) =~= self.follows@);
        Ok(out)
    }
}

} // verus!
