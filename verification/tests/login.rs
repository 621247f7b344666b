use db_manager::auth::{decide_login, Lookup, StrikeWrite, LOCK_THRESHOLD};
use db_manager::requests::UserReqErrorKind;
use db_manager::service::AuthService;
use db_manager::store::UserStore;
use db_manager::{AccessLevel, Date, User};

fn user(name: &str, password: &str, strikes: u8) -> User {
    User::from_parts(
        name.to_string(),
        password.to_string(),
        Date::new(2005, 3, 14).unwrap(),
        AccessLevel::USER,
        strikes,
    )
}

fn service_with(users: Vec<User>) -> AuthService {
    let mut store = UserStore::new();
    for u in users {
        assert!(store.insert(u));
    }
    AuthService::new(store)
}

fn strikes_of(service: &AuthService, name: &str) -> u8 {
    service.store().find_by_username(&name.to_string()).unwrap().strikes()
}

#[test]
fn correct_password_at_two_strikes_logs_in_and_resets() {
    let mut service = service_with(vec![user("alice", "hunter22", 2)]);
    let result = service.validate_login("alice".to_string(), "hunter22".to_string());
    let logged_in = result.unwrap();
    assert_eq!(logged_in, user("alice", "hunter22", 0));
    assert_eq!(strikes_of(&service, "alice"), 0);
}

#[test]
fn three_wrong_attempts_lock_the_account() {
    let mut service = service_with(vec![user("bob", "correct horse", 0)]);
    for attempt in 1..=3u8 {
        let error = service.validate_login("bob".to_string(), "nope".to_string()).unwrap_err();
        assert_eq!(error.kind(), UserReqErrorKind::InvalidDetails);
        assert_eq!(strikes_of(&service, "bob"), attempt);
    }
    assert_eq!(strikes_of(&service, "bob"), LOCK_THRESHOLD);
    let error =
        service.validate_login("bob".to_string(), "correct horse".to_string()).unwrap_err();
    assert_eq!(error.kind(), UserReqErrorKind::AccountLocked);
    assert_eq!(error.message, "This account is locked out");
    assert_eq!(strikes_of(&service, "bob"), 3);
}

#[test]
fn deleting_a_missing_user_is_invalid_details() {
    let mut service = service_with(vec![user("alice", "hunter22", 0)]);
    let error = service.delete_user("carol".to_string()).unwrap_err();
    assert_eq!(error.kind(), UserReqErrorKind::InvalidDetails);
    assert_eq!(error.message, "could not find user");
    assert_eq!(service.list_users(), vec![user("alice", "hunter22", 0)]);
}

#[test]
fn correct_password_resets_from_every_unlocked_count() {
    for strikes in 0..LOCK_THRESHOLD {
        let mut service = service_with(vec![user("erin", "s3cret-pass", strikes)]);
        let result = service.validate_login("erin".to_string(), "s3cret-pass".to_string());
        assert_eq!(result.unwrap(), user("erin", "s3cret-pass", 0));
        assert_eq!(strikes_of(&service, "erin"), 0);
    }
}

#[test]
fn wrong_password_adds_exactly_one_strike() {
    for strikes in 0..LOCK_THRESHOLD {
        let mut service = service_with(vec![user("erin", "s3cret-pass", strikes)]);
        let error =
            service.validate_login("erin".to_string(), "s3cret-pasS".to_string()).unwrap_err();
        assert_eq!(error.kind(), UserReqErrorKind::InvalidDetails);
        assert_eq!(error.message, "The username or password was incorrect.");
        assert_eq!(strikes_of(&service, "erin"), strikes + 1);
    }
}

#[test]
fn locked_account_refuses_every_password_and_keeps_its_count() {
    for strikes in [3u8, 4, 17, 255] {
        for password in ["s3cret-pass", "anything else", ""] {
            let mut service = service_with(vec![user("erin", "s3cret-pass", strikes)]);
            let error =
                service.validate_login("erin".to_string(), password.to_string()).unwrap_err();
            assert_eq!(error.kind(), UserReqErrorKind::AccountLocked);
            assert_eq!(strikes_of(&service, "erin"), strikes);
        }
    }
}

#[test]
fn unknown_username_fails_like_a_wrong_password() {
    let mut service = service_with(vec![user("erin", "s3cret-pass", 1)]);
    let unknown =
        service.validate_login("nobody".to_string(), "s3cret-pass".to_string()).unwrap_err();
    let wrong = service.validate_login("erin".to_string(), "guess".to_string()).unwrap_err();
    assert_eq!(unknown.kind(), wrong.kind());
    assert_eq!(unknown.message, wrong.message);
    assert_eq!(unknown.kind(), UserReqErrorKind::InvalidDetails);
    assert_eq!(service.list_users(), vec![user("erin", "s3cret-pass", 2)]);
}

#[test]
fn login_on_an_empty_service_is_invalid_details() {
    let mut service = service_with(vec![]);
    let error = service.validate_login("".to_string(), "".to_string()).unwrap_err();
    assert_eq!(error.kind(), UserReqErrorKind::InvalidDetails);
    assert_eq!(service.list_users().len(), 0);
}

#[test]
fn login_leaves_other_users_alone() {
    let mut service =
        service_with(vec![user("a", "pw-a", 1), user("b", "pw-b", 2), user("c", "pw-c", 3)]);
    assert!(service.validate_login("b".to_string(), "wrong".to_string()).is_err());
    assert_eq!(
        service.list_users(),
        vec![user("a", "pw-a", 1), user("b", "pw-b", 3), user("c", "pw-c", 3)]
    );
    assert!(service.validate_login("a".to_string(), "pw-a".to_string()).is_ok());
    assert_eq!(
        service.list_users(),
        vec![user("a", "pw-a", 0), user("b", "pw-b", 3), user("c", "pw-c", 3)]
    );
}

#[test]
fn unlock_of_an_unlocked_user_changes_nothing() {
    let mut service = service_with(vec![user("erin", "s3cret-pass", 0), user("finn", "pw", 2)]);
    assert!(service.unlock_user("erin".to_string()).is_ok());
    assert_eq!(service.list_users(), vec![user("erin", "s3cret-pass", 0), user("finn", "pw", 2)]);
    assert!(service.unlock_user("erin".to_string()).is_ok());
    assert_eq!(strikes_of(&service, "erin"), 0);
}

#[test]
fn unlock_resets_a_locked_user_and_login_works_again() {
    let mut service = service_with(vec![user("gail", "pw-gail-1", 3)]);
    assert!(service.validate_login("gail".to_string(), "pw-gail-1".to_string()).is_err());
    assert!(service.unlock_user("gail".to_string()).is_ok());
    assert_eq!(strikes_of(&service, "gail"), 0);
    assert!(service.validate_login("gail".to_string(), "pw-gail-1".to_string()).is_ok());
}

#[test]
fn unlock_of_a_missing_user_succeeds_and_changes_nothing() {
    let mut service = service_with(vec![user("gail", "pw-gail-1", 3)]);
    assert!(service.unlock_user("nobody".to_string()).is_ok());
    assert_eq!(service.list_users(), vec![user("gail", "pw-gail-1", 3)]);
}

#[test]
fn added_user_is_found_with_no_strikes_and_its_own_fields() {
    let mut service = service_with(vec![user("gail", "pw-gail-1", 3)]);
    let new_user = User::from_parts(
        "hugo".to_string(),
        "pw-hugo".to_string(),
        Date::new(1999, 12, 31).unwrap(),
        AccessLevel::TEACHER,
        7,
    );
    assert!(service.add_user(new_user).is_ok());
    let found = service.store().find_by_username(&"hugo".to_string()).unwrap();
    assert_eq!(found.username(), "hugo");
    assert_eq!(found.password(), "pw-hugo");
    assert_eq!(found.date_of_birth(), Date::new(1999, 12, 31).unwrap());
    assert_eq!(*found.access_level(), AccessLevel::TEACHER);
    assert_eq!(found.strikes(), 0);
    assert_eq!(service.list_users().len(), 2);
}

#[test]
fn adding_a_taken_username_fails_and_stores_nothing() {
    let mut service = service_with(vec![user("gail", "pw-gail-1", 1)]);
    let error = service.add_user(user("gail", "another", 0)).unwrap_err();
    assert_eq!(error.kind(), UserReqErrorKind::AddUserError);
    assert_eq!(error.message, "Could not add user object to database");
    assert_eq!(service.list_users(), vec![user("gail", "pw-gail-1", 1)]);
}

#[test]
fn delete_removes_only_the_named_user() {
    let mut service =
        service_with(vec![user("a", "pw-a", 1), user("b", "pw-b", 2), user("c", "pw-c", 3)]);
    assert!(service.delete_user("b".to_string()).is_ok());
    assert_eq!(service.list_users(), vec![user("a", "pw-a", 1), user("c", "pw-c", 3)]);
    assert!(service.store().find_by_username(&"b".to_string()).is_none());
    assert!(service.delete_user("b".to_string()).is_err());
}

#[test]
fn two_attempts_decided_from_one_reading_both_count() {
    let mut store = UserStore::new();
    assert!(store.insert(user("ivy", "pw-ivy-99", 2)));
    let name = "ivy".to_string();
    let first_reading = store.find_by_username(&name).unwrap();
    let second_reading = store.find_by_username(&name).unwrap();
    let first = decide_login(Lookup::Found(first_reading), &"guess one".to_string());
    let second = decide_login(Lookup::Found(second_reading), &"guess two".to_string());
    assert_eq!(first.write, StrikeWrite::Increment);
    assert_eq!(second.write, StrikeWrite::Increment);
    assert!(store.add_strike(&name));
    assert!(store.add_strike(&name));
    assert_eq!(store.find_by_username(&name).unwrap().strikes(), 4);
}
