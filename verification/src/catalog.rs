//! The rules for requests on question sets and quiz reviews, and for reading
//! a whole collection.
//!
//! As in `auth`, every function here is a decision: it takes what a
//! collection answered and says what the caller gets back.

use crate::auth::{done_view, failure, operation_failed, users_not_fetched, Lookup};
use crate::order::reversed;
use crate::questions::{QuestionSet, QuestionSetView};
use crate::requests::{UserReqError, UserReqErrorKind, UserReqErrorView};
use crate::responses::QuizReview;
use crate::user::User;
use vstd::prelude::*;

verus! {

/// The failure of asking for, or removing, a question set that does not
/// exist.
pub open spec fn set_not_found() -> UserReqErrorView {
    UserReqErrorView {
        kind: UserReqErrorKind::InvalidDetails,
        message: "could not find question set"@,
    }
}

/// The failure of storing a question set.
pub open spec fn set_not_added() -> UserReqErrorView {
    UserReqErrorView {
        kind: UserReqErrorKind::AddSetError,
        message: "could not add question set to database"@,
    }
}

/// The failure of removing a question set.
pub open spec fn set_not_deleted() -> UserReqErrorView {
    UserReqErrorView {
        kind: UserReqErrorKind::DeleteQuestionsError,
        message: "the question could not be deleted"@,
    }
}

/// The failure of listing the question sets.
pub open spec fn sets_not_fetched() -> UserReqErrorView {
    UserReqErrorView {
        kind: UserReqErrorKind::FetchQuestionsError,
        message: "could not fetch question sets"@,
    }
}

/// The failure of listing the quiz reviews.
pub open spec fn reviews_not_fetched() -> UserReqErrorView {
    UserReqErrorView {
        kind: UserReqErrorKind::FetchReviewsError,
        message: "could not fetch quiz reviews"@,
    }
}

/// The failure of storing a quiz review.
pub open spec fn review_not_added() -> UserReqErrorView {
    UserReqErrorView {
        kind: UserReqErrorKind::AddReviewError,
        message: "could not add quiz review to database"@,
    }
}

/// What asking for a question set is answered with, given what the lookup
/// found.
pub open spec fn set_outcome(lookup: Lookup<QuestionSetView>) -> Result<
    QuestionSetView,
    UserReqErrorView,
> {
    match lookup {
        Lookup::Unreachable => Err(operation_failed()),
        Lookup::Missing => Err(set_not_found()),
        Lookup::Found(set) => Ok(set),
    }
}

/// What the removal of a question set does next, as contents.
pub enum SetRemovalStepView {
    Stop(Result<(), UserReqErrorView>),
    RemoveSet,
}

/// What the removal of a question set does next, given what the lookup of
/// its name found and, once the removal was tried, whether it went through.
pub open spec fn set_removal_next(
    lookup: Lookup<QuestionSetView>,
    removed: Option<bool>,
) -> SetRemovalStepView {
    match lookup {
        Lookup::Unreachable => SetRemovalStepView::Stop(Err(operation_failed())),
        Lookup::Missing => SetRemovalStepView::Stop(Err(set_not_found())),
        Lookup::Found(_) => match removed {
            None => SetRemovalStepView::RemoveSet,
            Some(true) => SetRemovalStepView::Stop(Ok(())),
            Some(false) => SetRemovalStepView::Stop(Err(set_not_deleted())),
        },
    }
}

/// What the removal of a question set does next.
#[derive(Debug)]
pub enum SetRemovalStep {
    /// The removal is over, with this answer to the caller.
    Stop(Result<(), UserReqError>),
    /// The question set is to be removed.
    RemoveSet,
}

impl View for SetRemovalStep {
    type V = SetRemovalStepView;

    open spec fn view(&self) -> SetRemovalStepView {
        match self {
            SetRemovalStep::Stop(result) => SetRemovalStepView::Stop(done_view(*result)),
            SetRemovalStep::RemoveSet => SetRemovalStepView::RemoveSet,
        }
    }
}

/// The items of `items` that are there, in their order.
pub open spec fn kept<T>(items: Seq<Option<T>>) -> Seq<T>
    decreases items.len(),
{
    if items.len() == 0 {
        Seq::empty()
    } else {
        match items.last() {
            Some(item) => kept(items.drop_last()).push(item),
            None => kept(items.drop_last()),
        }
    }
}

/// Answers a request for one question set from what the lookup found.
pub fn question_set_outcome(lookup: Lookup<QuestionSet>) -> (result: Result<
    QuestionSet,
    UserReqError,
>)
    ensures
        match result {
            Ok(set) => set_outcome(lookup@) == Ok::<_, UserReqErrorView>(set@),
            Err(error) => set_outcome(lookup@) == Err::<QuestionSetView, _>(error@),
        },
{
    match lookup {
        Lookup::Unreachable => Err(
            failure(UserReqErrorKind::ConnectionError, "db operation failed"),
        ),
        Lookup::Missing => Err(
            failure(UserReqErrorKind::InvalidDetails, "could not find question set"),
        ),
        Lookup::Found(set) => Ok(set),
    }
}

/// Decides what storing a question set ends in, given whether the collection
/// took it.
pub fn conclude_add_set(inserted: bool) -> (result: Result<(), UserReqError>)
    ensures
        done_view(result) == if inserted {
            Ok::<_, UserReqErrorView>(())
        } else {
            Err(set_not_added())
        },
{
    if inserted {
        Ok(())
    } else {
        Err(failure(UserReqErrorKind::AddSetError, "could not add question set to database"))
    }
}

/// Says what the removal of a question set does next.
///
/// `removed` is `None` until the removal was tried, and then says whether it
/// went through. A set that does not exist cannot be removed.
pub fn set_removal_step(lookup: &Lookup<QuestionSet>, removed: Option<bool>) -> (step:
    SetRemovalStep)
    ensures
        step@ == set_removal_next(lookup@, removed),
        step is RemoveSet <==> lookup@ is Found && removed is None,
{
    match lookup {
        Lookup::Unreachable => SetRemovalStep::Stop(
            Err(failure(UserReqErrorKind::ConnectionError, "db operation failed")),
        ),
        Lookup::Missing => SetRemovalStep::Stop(
            Err(failure(UserReqErrorKind::InvalidDetails, "could not find question set")),
        ),
        Lookup::Found(_) => match removed {
            None => SetRemovalStep::RemoveSet,
            Some(true) => SetRemovalStep::Stop(Ok(())),
            Some(false) => SetRemovalStep::Stop(
                Err(
                    failure(
                        UserReqErrorKind::DeleteQuestionsError,
                        "the question could not be deleted",
                    ),
                ),
            ),
        },
    }
}

/// Decides what storing a quiz review ends in, given whether the collection
/// took it.
pub fn conclude_add_review(inserted: bool) -> (result: Result<(), UserReqError>)
    ensures
        done_view(result) == if inserted {
            Ok::<_, UserReqErrorView>(())
        } else {
            Err(review_not_added())
        },
{
    if inserted {
        Ok(())
    } else {
        Err(failure(UserReqErrorKind::AddReviewError, "could not add quiz review to database"))
    }
}

/// Drops the items that are not there and keeps the others in their order.
///
/// A collection is read document by document, and a document that cannot be
/// decoded is passed over rather than failing the whole read.
pub fn keep_decoded<T>(items: Vec<Option<T>>) -> (decoded: Vec<T>)
    ensures
        decoded@ == kept(items@),
{
    let ghost all = items@;
    let mut pending = reversed(items);
    let mut decoded: Vec<T> = Vec::new();
    assert(all.subrange(0, 0) =~= Seq::empty());
    while pending.len() > 0
        invariant
            pending@.len() <= all.len(),
            forall|k: int|
                0 <= k < pending@.len() ==> #[trigger] pending@[k] == all[all.len() - 1 - k],
            decoded@ == kept(all.subrange(0, all.len() - pending@.len())),
        decreases pending@.len(),
    {
        let ghost done = all.len() - pending@.len();
        assert(all.subrange(0, done + 1).drop_last() =~= all.subrange(0, done));
        assert(all.subrange(0, done + 1).last() == all[done]);
        match pending.pop() {
            Some(Some(item)) => {
                decoded.push(item);
            },
            _ => {},
        }
    }
    assert(all.subrange(0, all.len() as int) =~= all);
    decoded
}

/// Answers a request for all users.
///
/// `fetched` is `None` when the collection could not be read, and else holds
/// one entry per document: the user, or `None` for a document that could not
/// be decoded.
pub fn listed_users(fetched: Option<Vec<Option<User>>>) -> (result: Result<
    Vec<User>,
    UserReqError,
>)
    ensures
        match result {
            Ok(users) => fetched matches Some(items) && users@ == kept(items@),
            Err(error) => fetched is None && error@ == users_not_fetched(),
        },
{
    match fetched {
        Some(items) => Ok(keep_decoded(items)),
        None => Err(failure(UserReqErrorKind::FetchUsersError, "could not fetch users")),
    }
}

/// Answers a request for all question sets. `fetched` is as for
/// `listed_users`.
pub fn listed_sets(fetched: Option<Vec<Option<QuestionSet>>>) -> (result: Result<
    Vec<QuestionSet>,
    UserReqError,
>)
    ensures
        match result {
            Ok(sets) => fetched matches Some(items) && sets@ == kept(items@),
            Err(error) => fetched is None && error@ == sets_not_fetched(),
        },
{
    match fetched {
        Some(items) => Ok(keep_decoded(items)),
        None => Err(
            failure(UserReqErrorKind::FetchQuestionsError, "could not fetch question sets"),
        ),
    }
}

/// Answers a request for all quiz reviews. `fetched` is as for
/// `listed_users`.
pub fn listed_reviews(fetched: Option<Vec<Option<QuizReview>>>) -> (result: Result<
    Vec<QuizReview>,
    UserReqError,
>)
    ensures
        match result {
            Ok(reviews) => fetched matches Some(items) && reviews@ == kept(items@),
            Err(error) => fetched is None && error@ == reviews_not_fetched(),
        },
{
    match fetched {
        Some(items) => Ok(keep_decoded(items)),
        None => Err(failure(UserReqErrorKind::FetchReviewsError, "could not fetch quiz reviews")),
    }
}

} // verus!
