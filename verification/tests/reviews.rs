use db_manager::responses::{QuizReview, Response};
use db_manager::reviews::ReviewLog;
use db_manager::service::AuthService;
use db_manager::store::UserStore;
use db_manager::{AccessLevel, Date, User};

fn review(username: &str, answers: &[&str]) -> QuizReview {
    let responses = answers
        .iter()
        .map(|a| Response::new("What is 6 x 7?".to_string(), a.to_string(), "42".to_string()))
        .collect();
    QuizReview::new(username.to_string(), responses)
}

fn names(reviews: &[QuizReview]) -> Vec<String> {
    reviews.iter().map(|r| r.username.clone()).collect()
}

fn pupil(name: &str) -> User {
    User::from_parts(
        name.to_string(),
        "pass-word".to_string(),
        Date::new(2008, 8, 8).unwrap(),
        AccessLevel::USER,
        0,
    )
}

#[test]
fn response_is_correct_when_submitted_equals_answer() {
    let response = Response::new("Q".to_string(), "42".to_string(), "42".to_string());
    assert!(response.is_correct());
    assert_eq!(response.question(), "Q");
    assert_eq!(response.submitted(), "42");
    assert_eq!(response.answer(), "42");
}

#[test]
fn response_is_wrong_when_submitted_differs() {
    for submitted in ["41", "42 ", " 42", "", "forty-two", "4 2"] {
        let response = Response::new("Q".to_string(), submitted.to_string(), "42".to_string());
        assert!(!response.is_correct(), "{submitted}");
        assert_eq!(response.submitted(), submitted);
    }
}

#[test]
fn empty_answer_matches_empty_submission() {
    assert!(Response::new("Q".to_string(), String::new(), String::new()).is_correct());
}

#[test]
fn clone_of_a_response_is_equal() {
    let response = Response::new("Q".to_string(), "41".to_string(), "42".to_string());
    assert_eq!(response.clone(), response);
}

#[test]
fn quiz_review_holds_name_and_responses() {
    let made = review("mia", &["42", "41"]);
    assert_eq!(made.username, "mia");
    assert_eq!(made.responses.len(), 2);
    assert!(made.responses[0].is_correct());
    assert!(!made.responses[1].is_correct());
}

#[test]
fn clone_of_a_quiz_review_has_the_same_name_and_responses() {
    let made = review("mia", &["42", "41"]);
    let copy = made.clone();
    assert_eq!(copy.username, made.username);
    assert_eq!(copy.responses, made.responses);
}

#[test]
fn review_log_keeps_the_order_of_adding() {
    let mut log = ReviewLog::new();
    assert_eq!(log.len(), 0);
    log.add(review("mia", &["42"]));
    log.add(review("noa", &[]));
    log.add(review("mia", &["1", "2"]));
    assert_eq!(log.len(), 3);
    let listed = log.list();
    assert_eq!(names(&listed), vec!["mia", "noa", "mia"]);
    assert_eq!(listed[0].responses, review("mia", &["42"]).responses);
    assert_eq!(listed[1].responses.len(), 0);
    assert_eq!(listed[2].responses, review("mia", &["1", "2"]).responses);
}

#[test]
fn remove_of_drops_every_review_of_the_user_and_no_other() {
    let mut log = ReviewLog::new();
    for name in ["mia", "noa", "mia", "oli", "mia"] {
        log.add(review(name, &[name]));
    }
    log.remove_of(&"mia".to_string());
    let listed = log.list();
    assert_eq!(names(&listed), vec!["noa", "oli"]);
    assert_eq!(listed[0].responses, review("noa", &["noa"]).responses);
    assert_eq!(listed[1].responses, review("oli", &["oli"]).responses);
}

#[test]
fn remove_of_an_unnamed_user_changes_nothing() {
    let mut log = ReviewLog::new();
    log.add(review("noa", &["42"]));
    log.remove_of(&"mia".to_string());
    assert_eq!(names(&log.list()), vec!["noa"]);
    let mut empty = ReviewLog::new();
    empty.remove_of(&"mia".to_string());
    assert_eq!(empty.len(), 0);
}

#[test]
fn deleting_a_user_removes_the_reviews_of_that_user() {
    let mut store = UserStore::new();
    assert!(store.insert(pupil("mia")));
    assert!(store.insert(pupil("noa")));
    let mut service = AuthService::new(store);
    for name in ["mia", "noa", "mia"] {
        assert!(service.add_quiz_review(review(name, &["42"])).is_ok());
    }
    assert_eq!(names(&service.get_quiz_reviews()), vec!["mia", "noa", "mia"]);
    assert!(service.delete_user("mia".to_string()).is_ok());
    assert_eq!(names(&service.get_quiz_reviews()), vec!["noa"]);
    assert_eq!(service.list_users(), vec![pupil("noa")]);
}

#[test]
fn failed_delete_keeps_every_review() {
    let mut store = UserStore::new();
    assert!(store.insert(pupil("noa")));
    let mut service = AuthService::new(store);
    assert!(service.add_quiz_review(review("ghost", &["42"])).is_ok());
    assert!(service.delete_user("ghost".to_string()).is_err());
    assert_eq!(names(&service.get_quiz_reviews()), vec!["ghost"]);
}

#[test]
fn login_and_unlock_leave_the_reviews_alone() {
    let mut store = UserStore::new();
    assert!(store.insert(pupil("noa")));
    let mut service = AuthService::new(store);
    assert!(service.add_quiz_review(review("noa", &["42"])).is_ok());
    assert!(service.validate_login("noa".to_string(), "wrong".to_string()).is_err());
    assert!(service.unlock_user("noa".to_string()).is_ok());
    assert!(service.add_user(pupil("oli")).is_ok());
    assert_eq!(names(&service.get_quiz_reviews()), vec!["noa"]);
}
