use db_manager::auth::Lookup;
use db_manager::catalog::{
    conclude_add_review, conclude_add_set, keep_decoded, listed_reviews, listed_sets,
    listed_users, question_set_outcome, set_removal_step, SetRemovalStep,
};
use db_manager::questions::{PartialQuestion, QuestionSet};
use db_manager::requests::{UserReqError, UserReqErrorKind};
use db_manager::responses::QuizReview;
use db_manager::{AccessLevel, Date, User};

fn set(name: &str) -> QuestionSet {
    let question = PartialQuestion {
        title: Some("t".to_string()),
        markup: Some("m".to_string()),
        calculator_allowed: Some(true),
        answer: Some("a".to_string()),
    }
    .build()
    .unwrap();
    QuestionSet::new(name.to_string(), "author".to_string(), vec![question])
}

fn person(name: &str) -> User {
    User::from_parts(
        name.to_string(),
        "pw".to_string(),
        Date::new(2000, 10, 20).unwrap(),
        AccessLevel::USER,
        1,
    )
}

fn expect_failure(error: UserReqError, kind: UserReqErrorKind, message: &str) {
    assert_eq!(error.kind(), kind);
    assert_eq!(error.message, message);
}

#[test]
fn keep_decoded_drops_the_gaps_and_keeps_the_order() {
    assert_eq!(keep_decoded(vec![Some(3), None, Some(1), Some(2), None]), vec![3, 1, 2]);
    assert_eq!(keep_decoded(vec![None, None, Some(7)]), vec![7]);
    assert_eq!(keep_decoded(vec![Some(7), Some(7)]), vec![7, 7]);
}

#[test]
fn keep_decoded_of_nothing_is_nothing() {
    assert_eq!(keep_decoded::<u8>(vec![]), Vec::<u8>::new());
    assert_eq!(keep_decoded::<u8>(vec![None, None]), Vec::<u8>::new());
}

#[test]
fn listed_users_passes_over_undecoded_documents() {
    let listed = listed_users(Some(vec![Some(person("a")), None, Some(person("b"))])).unwrap();
    assert_eq!(listed, vec![person("a"), person("b")]);
}

#[test]
fn listed_users_of_an_unread_collection_fails() {
    expect_failure(
        listed_users(None).unwrap_err(),
        UserReqErrorKind::FetchUsersError,
        "could not fetch users",
    );
}

#[test]
fn listed_sets_outcomes() {
    let listed = listed_sets(Some(vec![None, Some(set("x")), Some(set("y"))])).unwrap();
    assert_eq!(listed, vec![set("x"), set("y")]);
    expect_failure(
        listed_sets(None).unwrap_err(),
        UserReqErrorKind::FetchQuestionsError,
        "could not fetch question sets",
    );
}

#[test]
fn listed_reviews_outcomes() {
    let reviews = vec![Some(QuizReview::new("a".to_string(), vec![])), None];
    let listed = listed_reviews(Some(reviews)).unwrap();
    assert_eq!(listed.len(), 1);
    assert_eq!(listed[0].username, "a");
    expect_failure(
        listed_reviews(None).unwrap_err(),
        UserReqErrorKind::FetchReviewsError,
        "could not fetch quiz reviews",
    );
}

#[test]
fn question_set_outcomes() {
    assert_eq!(question_set_outcome(Lookup::Found(set("x"))).unwrap(), set("x"));
    expect_failure(
        question_set_outcome(Lookup::Missing).unwrap_err(),
        UserReqErrorKind::InvalidDetails,
        "could not find question set",
    );
    expect_failure(
        question_set_outcome(Lookup::Unreachable).unwrap_err(),
        UserReqErrorKind::ConnectionError,
        "db operation failed",
    );
}

fn stopped(step: SetRemovalStep) -> Result<(), UserReqError> {
    match step {
        SetRemovalStep::Stop(result) => result,
        SetRemovalStep::RemoveSet => panic!("the removal asked for a write"),
    }
}

#[test]
fn set_removal_steps() {
    let found = Lookup::Found(set("x"));
    assert!(matches!(set_removal_step(&found, None), SetRemovalStep::RemoveSet));
    assert!(stopped(set_removal_step(&found, Some(true))).is_ok());
    expect_failure(
        stopped(set_removal_step(&found, Some(false))).unwrap_err(),
        UserReqErrorKind::DeleteQuestionsError,
        "the question could not be deleted",
    );
    expect_failure(
        stopped(set_removal_step(&Lookup::Missing, None)).unwrap_err(),
        UserReqErrorKind::InvalidDetails,
        "could not find question set",
    );
    expect_failure(
        stopped(set_removal_step(&Lookup::Unreachable, None)).unwrap_err(),
        UserReqErrorKind::ConnectionError,
        "db operation failed",
    );
}

#[test]
fn set_and_review_write_outcomes() {
    assert!(conclude_add_set(true).is_ok());
    expect_failure(
        conclude_add_set(false).unwrap_err(),
        UserReqErrorKind::AddSetError,
        "could not add question set to database",
    );
    assert!(conclude_add_review(true).is_ok());
    expect_failure(
        conclude_add_review(false).unwrap_err(),
        UserReqErrorKind::AddReviewError,
        "could not add quiz review to database",
    );
}
