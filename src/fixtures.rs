use vstd::prelude::*;
use crate::entity::{Timestamp, UserFollowEntity, UserRecord};
use crate::mock_users::MockUsersRepository;
use crate::profiles::{MockProfilesRepository, ProfilesRepository};
use crate::services::{MockSecurityService, MockTokenService};
use crate::profiles::followees_of;
use crate::users::{find_by_email, find_by_id, RepositoryError, UsersCallView, UsersMethod, UsersRepository};

verus! {

/// A users double as `MockUsersRepository::new` makes it: no rows, no call
/// logged, every method refused as unconfigured, ids from 1, the clock at the
/// epoch.
pub open spec fn pristine_users(r: MockUsersRepository) -> bool {
    &&& r.valid()
    &&& r.stored() == Seq::<UserRecord>::empty()
    &&& r.calls() == Seq::<UsersCallView>::empty()
    &&& forall|m: UsersMethod| #[trigger] r.refusal(m) == Some(RepositoryError::Unconfigured)
    &&& r.configured_failure() is None
    &&& !r.may_fail()
    &&& r.next_id() == 1
    &&& r.now() == (Timestamp { unix_micros: 0 })
}

/// A follow double as `MockProfilesRepository::new` makes it: no rows, no call
/// logged, the method refused as unconfigured.
pub open spec fn pristine_profiles(r: MockProfilesRepository) -> bool {
    &&& r.valid()
    &&& r.follows() == Seq::<UserFollowEntity>::empty()
    &&& r.calls() == Seq::<i64>::empty()
    &&& r.refusal() == Some(RepositoryError::Unconfigured)
    &&& r.configured_failure() is None
    &&& !r.may_fail()
}

/// A fresh users fixture surfaces nothing that a test did not configure: every
/// repository method and every collaborator answers as unconfigured, and no
/// row, call or answer is held over from elsewhere.
pub proof fn law_fresh_users_fixture(f: UsersServiceTestFixture, m: UsersMethod, email: Seq<char>, id: i64)
    requires
        f.pristine(),
    ensures
        f.mock_repository.refusal(m) == Some(RepositoryError::Unconfigured),
        f.mock_repository.calls().len() == 0,
        find_by_email(f.mock_repository.stored(), email) is None,
        find_by_id(f.mock_repository.stored(), id) is None,
        f.mock_token_service.token_answer() is None,
        f.mock_token_service.user_id_answer() is None,
        f.mock_security_service.hash_answer() is None,
        f.mock_security_service.verify_answer() is None,
{
}

/// A fresh profiles fixture surfaces nothing that a test did not configure:
/// both repositories answer as unconfigured and hold no row or call.
pub proof fn law_fresh_profiles_fixture(f: ProfilesServiceTestFixture, m: UsersMethod, user_id: i64)
    requires
        f.pristine(),
    ensures
        f.mock_profiles_repository.refusal() == Some(RepositoryError::Unconfigured),
        f.mock_profiles_repository.calls().len() == 0,
        followees_of(f.mock_profiles_repository.follows(), user_id) == Seq::<UserFollowEntity>::empty(),
        f.mock_users_repository.refusal(m) == Some(RepositoryError::Unconfigured),
        f.mock_users_repository.calls().len() == 0,
        find_by_id(f.mock_users_repository.stored(), user_id) is None,
{
    crate::profiles::law_no_follow_rows_no_followees(f.mock_profiles_repository.follows(), user_id);
}

/// Test doubles for exercising the users service in isolation.
pub struct UsersServiceTestFixture {
    pub mock_repository: MockUsersRepository,
    pub mock_token_service: MockTokenService,
    pub mock_security_service: MockSecurityService,
}

/// Test doubles for exercising the profiles service in isolation.
pub struct ProfilesServiceTestFixture {
    pub mock_profiles_repository: MockProfilesRepository,
    pub mock_users_repository: MockUsersRepository,
}

impl UsersServiceTestFixture {
    /// Whether no double holds data or a configured answer.
    pub open spec fn pristine(&self) -> bool {
        &&& pristine_users(self.mock_repository)
        &&& self.mock_token_service.unconfigured()
        &&& self.mock_security_service.unconfigured()
    }

    /// Fresh doubles: no stored rows, no configured answers or failures.
    pub fn new() -> (r: UsersServiceTestFixture)
        ensures
            r.pristine(),
    {
        UsersServiceTestFixture {
            mock_repository: MockUsersRepository::new(),
            mock_token_service: MockTokenService::new(),
            mock_security_service: MockSecurityService::new(),
        }
    }
}

impl Default for UsersServiceTestFixture {
    fn default() -> (r: UsersServiceTestFixture)
        ensures
            r.pristine(),
    {
        UsersServiceTestFixture::new()
    }
}

impl ProfilesServiceTestFixture {
    /// Whether no double holds data or a configured failure.
    pub open spec fn pristine(&self) -> bool {
        &&& pristine_profiles(self.mock_profiles_repository)
        &&& pristine_users(self.mock_users_repository)
    }

    /// Fresh doubles: no stored rows, no configured failures.
    pub fn new() -> (r: ProfilesServiceTestFixture)
        ensures
            r.pristine(),
    {
        ProfilesServiceTestFixture {
            mock_profiles_repository: MockProfilesRepository::new(),
            mock_users_repository: MockUsersRepository::new(),
        }
    }
}

impl Default for ProfilesServiceTestFixture {
    fn default() -> (r: ProfilesServiceTestFixture)
        ensures
            r.pristine(),
    {
        ProfilesServiceTestFixture::new()
    }
}

} // verus!
