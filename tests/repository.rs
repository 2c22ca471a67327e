use conduit_core::entity::{Timestamp, UserEntity, UserFollowEntity};
use conduit_core::fixtures::{ProfilesServiceTestFixture, UsersServiceTestFixture};
use conduit_core::mock_users::MockUsersRepository;
use conduit_core::profiles::{MockProfilesRepository, ProfilesRepository};
use conduit_core::services::{SecurityCall, ServiceError, TokenCall};
use conduit_core::users::{RepositoryError, UsersCall, UsersMethod, UsersRepository};

fn store() -> MockUsersRepository {
    let mut repo = MockUsersRepository::new();
    repo.expect_all();
    repo
}

fn follow_store() -> MockProfilesRepository {
    let mut repo = MockProfilesRepository::new();
    repo.expect_get_user_followees();
    repo
}

fn follow(id: i64, follower_id: i64, followee_id: i64) -> UserFollowEntity {
    UserFollowEntity { id, created_at: Timestamp::at_micros(5), follower_id, followee_id }
}

#[test]
fn create_then_lookup_by_username_scenario() {
    let mut repo = store();
    let created = repo.create_user("ann@example.com", "ann", "h$ash").unwrap();
    assert_eq!(created.id, 1);
    assert_eq!(created.username, "ann");
    assert_eq!(created.email, "ann@example.com");
    assert_eq!(created.password, "h$ash");
    assert_eq!(created.bio, "");
    assert_eq!(created.image, "");
    let found = repo.get_user_by_username("ann").unwrap().unwrap();
    assert_eq!(found.id, 1);
    assert_eq!(found.username, "ann");
    assert_eq!(found.email, "ann@example.com");
    assert_eq!(found.password, "h$ash");
    assert_eq!(found.bio, "");
    assert_eq!(found.image, "");
    assert!(repo.get_user_by_username("missing").unwrap().is_none());
}

#[test]
fn create_then_get_by_email_round_trip() {
    let mut repo = store();
    repo.set_clock(Timestamp::at_micros(1_700_000_000_000_000));
    repo.create_user("bob@example.com", "bob", "hashed-bob").unwrap();
    let found = repo.get_user_by_email("bob@example.com").unwrap().unwrap();
    assert_eq!(found.email, "bob@example.com");
    assert_eq!(found.username, "bob");
    assert_eq!(found.password, "hashed-bob");
    assert_eq!(found.created_at, found.updated_at);
    assert_eq!(found.created_at, Timestamp::at_micros(1_700_000_000_000_000));
}

#[test]
fn lookup_of_unknown_email_is_absence() {
    let mut repo = store();
    assert!(matches!(repo.get_user_by_email("nobody@example.com"), Ok(None)));
    repo.create_user("ann@example.com", "ann", "h").unwrap();
    assert!(matches!(repo.get_user_by_email("nobody@example.com"), Ok(None)));
}

#[test]
fn search_matches_email_or_username() {
    let mut repo = store();
    repo.create_user("ann@example.com", "ann", "h1").unwrap();
    repo.create_user("bob@example.com", "bob", "h2").unwrap();
    let by_email = repo.search_user_by_email_or_username("bob@example.com", "zed").unwrap().unwrap();
    assert_eq!(by_email.username, "bob");
    let by_name = repo.search_user_by_email_or_username("zed@example.com", "ann").unwrap().unwrap();
    assert_eq!(by_name.email, "ann@example.com");
    let first = repo.search_user_by_email_or_username("bob@example.com", "ann").unwrap().unwrap();
    assert_eq!(first.username, "ann");
    assert!(repo.search_user_by_email_or_username("x", "y").unwrap().is_none());
}

#[test]
fn get_user_by_id_signals_missing_as_failure() {
    let mut repo = store();
    let u = repo.create_user("ann@example.com", "ann", "h").unwrap();
    assert_eq!(repo.get_user_by_id(u.id).unwrap().username, "ann");
    assert!(matches!(repo.get_user_by_id(99), Err(RepositoryError::NotFound)));
}

#[test]
fn create_with_taken_email_or_username_fails() {
    let mut repo = store();
    repo.create_user("ann@example.com", "ann", "h").unwrap();
    assert!(matches!(repo.create_user("ann@example.com", "other", "h"), Err(RepositoryError::UniqueViolation)));
    assert!(matches!(repo.create_user("other@example.com", "ann", "h"), Err(RepositoryError::UniqueViolation)));
    let next = repo.create_user("other@example.com", "other", "h").unwrap();
    assert_eq!(next.id, 2);
}

#[test]
fn update_replaces_every_mutable_field() {
    let mut repo = store();
    repo.set_clock(Timestamp::at_micros(100));
    let u = repo.create_user("ann@example.com", "ann", "h1").unwrap();
    repo.set_clock(Timestamp::at_micros(250));
    let updated = repo
        .update_user(
            u.id,
            String::from("ann2@example.com"),
            String::from("ann2"),
            String::from("h2"),
            String::from("new bio"),
            String::from("new.png"),
        )
        .unwrap();
    assert_eq!(updated.updated_at, Timestamp::at_micros(250));
    let found = repo.get_user_by_id(u.id).unwrap();
    assert_eq!(found.id, u.id);
    assert_eq!(found.email, "ann2@example.com");
    assert_eq!(found.username, "ann2");
    assert_eq!(found.password, "h2");
    assert_eq!(found.bio, "new bio");
    assert_eq!(found.image, "new.png");
    assert_eq!(found.created_at, Timestamp::at_micros(100));
    assert_eq!(found.updated_at, Timestamp::at_micros(250));
    assert!(repo.get_user_by_email("ann@example.com").unwrap().is_none());
}

#[test]
fn update_keeps_update_time_after_creation() {
    let mut repo = store();
    repo.set_clock(Timestamp::at_micros(500));
    let u = repo.create_user("a@x", "a", "h").unwrap();
    repo.set_clock(Timestamp::at_micros(10));
    let updated = repo
        .update_user(u.id, String::from("a@x"), String::from("a"), String::from("h"), String::new(), String::new())
        .unwrap();
    assert_eq!(updated.updated_at, Timestamp::at_micros(500));
}

#[test]
fn update_of_unknown_id_or_taken_name_fails() {
    let mut repo = store();
    let a = repo.create_user("a@x", "a", "h").unwrap();
    repo.create_user("b@x", "b", "h").unwrap();
    let missing = repo.update_user(42, String::from("z@x"), String::from("z"), String::new(), String::new(), String::new());
    assert!(matches!(missing, Err(RepositoryError::NotFound)));
    let clash = repo.update_user(a.id, String::from("a@x"), String::from("b"), String::new(), String::new(), String::new());
    assert!(matches!(clash, Err(RepositoryError::UniqueViolation)));
    assert_eq!(repo.get_user_by_id(a.id).unwrap().username, "a");
    let same = repo.update_user(a.id, String::from("a@x"), String::from("a"), String::from("p"), String::new(), String::new());
    assert_eq!(same.unwrap().password, "p");
}

#[test]
fn configured_failure_surfaces_on_every_call() {
    let mut repo = store();
    repo.create_user("a@x", "a", "h").unwrap();
    repo.fail_with(RepositoryError::Unavailable);
    assert!(matches!(repo.get_user_by_email("a@x"), Err(RepositoryError::Unavailable)));
    assert!(matches!(repo.get_user_by_username("a"), Err(RepositoryError::Unavailable)));
    assert!(matches!(repo.get_user_by_id(1), Err(RepositoryError::Unavailable)));
    assert!(matches!(repo.create_user("b@x", "b", "h"), Err(RepositoryError::Unavailable)));
    assert!(matches!(
        repo.search_user_by_email_or_username("a@x", "a"),
        Err(RepositoryError::Unavailable)
    ));
}

#[test]
fn seeded_ids_stay_below_new_ids() {
    let mut repo = store();
    let mut seeded = UserEntity::default();
    seeded.id = 40;
    repo.seed_user(seeded);
    let u = repo.create_user("new@x", "new", "h").unwrap();
    assert_eq!(u.id, 41);
    assert_eq!(repo.get_user_by_id(40).unwrap().username, "stub username");
}

#[test]
fn id_space_exhaustion_fails_creation() {
    let mut repo = store();
    let mut seeded = UserEntity::default();
    seeded.id = i64::MAX;
    repo.seed_user(seeded);
    assert!(matches!(repo.create_user("new@x", "new", "h"), Err(RepositoryError::Unavailable)));
}

#[test]
fn followees_of_user_without_follows_is_empty() {
    let mut repo = follow_store();
    assert!(repo.get_user_followees(7).unwrap().is_empty());
    repo.seed_follow(follow(1, 2, 3));
    assert!(repo.get_user_followees(7).unwrap().is_empty());
}

#[test]
fn followees_are_the_rows_of_the_follower_in_store_order() {
    let mut repo = follow_store();
    repo.seed_follow(follow(1, 2, 3));
    repo.seed_follow(follow(2, 9, 3));
    repo.seed_follow(follow(3, 2, 5));
    let got = repo.get_user_followees(2).unwrap();
    assert_eq!(got, vec![follow(1, 2, 3), follow(3, 2, 5)]);
    repo.fail_with(RepositoryError::Unavailable);
    assert!(matches!(repo.get_user_followees(2), Err(RepositoryError::Unavailable)));
}

#[test]
fn fresh_users_fixture_answers_only_what_is_configured() {
    let mut f = UsersServiceTestFixture::new();
    assert!(matches!(f.mock_repository.get_user_by_email("ann@example.com"), Err(RepositoryError::Unconfigured)));
    assert!(matches!(f.mock_repository.get_user_by_username("ann"), Err(RepositoryError::Unconfigured)));
    assert!(matches!(f.mock_repository.get_user_by_id(1), Err(RepositoryError::Unconfigured)));
    assert!(matches!(f.mock_repository.create_user("a@x", "a", "h"), Err(RepositoryError::Unconfigured)));
    assert!(matches!(
        f.mock_repository.search_user_by_email_or_username("a@x", "a"),
        Err(RepositoryError::Unconfigured)
    ));
    let update = f.mock_repository.update_user(1, String::new(), String::new(), String::new(), String::new(), String::new());
    assert!(matches!(update, Err(RepositoryError::Unconfigured)));
    assert!(matches!(f.mock_token_service.new_token(1, "ann@example.com"), Err(ServiceError::Unconfigured)));
    assert!(matches!(f.mock_token_service.get_user_id_from_token("t"), Err(ServiceError::Unconfigured)));
    assert!(matches!(f.mock_security_service.hash_password("pw"), Err(ServiceError::Unconfigured)));
    assert!(matches!(f.mock_security_service.verify_password("h", "pw"), Err(ServiceError::Unconfigured)));
}

#[test]
fn expecting_one_method_leaves_the_others_unconfigured() {
    let mut f = UsersServiceTestFixture::new();
    f.mock_repository.expect(UsersMethod::GetUserByEmail);
    assert!(matches!(f.mock_repository.get_user_by_email("ann@example.com"), Ok(None)));
    assert!(matches!(f.mock_repository.get_user_by_username("ann"), Err(RepositoryError::Unconfigured)));
    let mut seeded = UserEntity::default();
    seeded.email = String::from("ann@example.com");
    f.mock_repository.seed_user(seeded);
    let found = f.mock_repository.get_user_by_email("ann@example.com").unwrap().unwrap();
    assert_eq!(found.username, "stub username");
}

#[test]
fn calls_are_recorded_with_their_arguments() {
    let mut repo = MockUsersRepository::new();
    repo.expect(UsersMethod::CreateUser);
    repo.create_user("ann@example.com", "ann", "h$ash").unwrap();
    let _ = repo.get_user_by_id(4);
    assert_eq!(
        repo.recorded_calls(),
        &vec![
            UsersCall::CreateUser {
                email: String::from("ann@example.com"),
                username: String::from("ann"),
                hashed_password: String::from("h$ash"),
            },
            UsersCall::GetUserById { id: 4 },
        ]
    );
    let mut follows = MockProfilesRepository::new();
    let _ = follows.get_user_followees(3);
    follows.expect_get_user_followees();
    let _ = follows.get_user_followees(5);
    assert_eq!(follows.recorded_calls(), &vec![3, 5]);
}

#[test]
fn fixtures_do_not_share_state() {
    let mut first = UsersServiceTestFixture::default();
    first.mock_repository.expect_all();
    first.mock_repository.create_user("ann@example.com", "ann", "h").unwrap();
    first.mock_token_service.expect_new_token(String::from("tok"));
    let mut second = UsersServiceTestFixture::new();
    assert!(matches!(second.mock_repository.get_user_by_email("ann@example.com"), Err(RepositoryError::Unconfigured)));
    second.mock_repository.expect_all();
    assert!(second.mock_repository.get_user_by_email("ann@example.com").unwrap().is_none());
    assert!(second.mock_repository.recorded_calls().len() == 2);
    assert!(second.mock_token_service.new_token(1, "ann@example.com").is_err());
    assert_eq!(first.mock_token_service.new_token(1, "ann@example.com").unwrap(), "tok");
}

#[test]
fn fresh_profiles_fixture_answers_only_what_is_configured() {
    let mut f = ProfilesServiceTestFixture::default();
    assert!(matches!(f.mock_profiles_repository.get_user_followees(1), Err(RepositoryError::Unconfigured)));
    assert!(matches!(f.mock_users_repository.get_user_by_username("ann"), Err(RepositoryError::Unconfigured)));
    f.mock_profiles_repository.expect_get_user_followees();
    assert!(f.mock_profiles_repository.get_user_followees(1).unwrap().is_empty());
    let mut g = ProfilesServiceTestFixture::new();
    assert!(matches!(g.mock_users_repository.get_user_by_email("a@x"), Err(RepositoryError::Unconfigured)));
}

#[test]
fn configured_collaborators_answer_as_configured() {
    let mut f = UsersServiceTestFixture::new();
    f.mock_security_service.expect_hash_password(String::from("hashed"));
    f.mock_security_service.expect_verify_password(true);
    f.mock_token_service.expect_get_user_id_from_token(17);
    assert_eq!(f.mock_security_service.hash_password("raw").unwrap(), "hashed");
    assert!(f.mock_security_service.verify_password("hashed", "raw").unwrap());
    assert_eq!(f.mock_token_service.get_user_id_from_token("tok").unwrap(), 17);
}

#[test]
fn collaborator_calls_are_recorded() {
    let mut f = UsersServiceTestFixture::new();
    f.mock_token_service.expect_new_token(String::from("tok"));
    assert_eq!(f.mock_token_service.new_token(7, "ann@example.com").unwrap(), "tok");
    let _ = f.mock_token_service.get_user_id_from_token("tok");
    let _ = f.mock_security_service.hash_password("pw");
    let _ = f.mock_security_service.verify_password("h", "pw");
    assert_eq!(
        f.mock_token_service.recorded_calls(),
        &vec![
            TokenCall::NewToken { user_id: 7, email: String::from("ann@example.com") },
            TokenCall::GetUserIdFromToken { token: String::from("tok") },
        ]
    );
    assert_eq!(
        f.mock_security_service.recorded_calls(),
        &vec![
            SecurityCall::HashPassword { raw_password: String::from("pw") },
            SecurityCall::VerifyPassword { stored_password: String::from("h"), attempted_password: String::from("pw") },
        ]
    );
}

#[test]
fn first_user_of_an_expecting_fixture_gets_id_one() {
    let mut f = UsersServiceTestFixture::new();
    f.mock_repository.expect(UsersMethod::CreateUser);
    let u = f.mock_repository.create_user("ann@example.com", "ann", "h$ash").unwrap();
    assert_eq!(u.id, 1);
    assert_eq!(u.created_at, Timestamp::at_micros(0));
}
