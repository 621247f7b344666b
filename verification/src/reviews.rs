//! The quiz reviews of all users, held in memory.
//!
//! A review names the user that took the quiz. When a user is removed, the
//! reviews that name the user are removed first, so that none is left
//! pointing at a user that is gone.

use crate::order::reversed;
use crate::responses::{QuizReview, QuizReviewView};
use vstd::prelude::*;

verus! {

/// The contents of a sequence of reviews.
pub open spec fn review_views(reviews: Seq<QuizReview>) -> Seq<QuizReviewView> {
    Seq::new(reviews.len(), |i: int| reviews[i]@)
}

/// The reviews of `reviews` that do not name `name`, in their order.
pub open spec fn reviews_without(reviews: Seq<QuizReviewView>, name: Seq<char>) -> Seq<
    QuizReviewView,
>
    decreases reviews.len(),
{
    if reviews.len() == 0 {
        Seq::empty()
    } else if reviews.last().username == name {
        reviews_without(reviews.drop_last(), name)
    } else {
        reviews_without(reviews.drop_last(), name).push(reviews.last())
    }
}

/// Some review of `reviews` names `name`.
pub open spec fn names_user(reviews: Seq<QuizReviewView>, name: Seq<char>) -> bool {
    exists|i: int| 0 <= i < reviews.len() && (#[trigger] reviews[i]).username == name
}

/// Once the reviews of a user are removed, no review names the user, and
/// every review that is left was there before.
pub proof fn lemma_reviews_without(reviews: Seq<QuizReviewView>, name: Seq<char>)
    ensures
        !names_user(reviews_without(reviews, name), name),
        reviews_without(reviews, name).len() <= reviews.len(),
        forall|i: int|
            0 <= i < reviews_without(reviews, name).len() ==> reviews.contains(
                #[trigger] reviews_without(reviews, name)[i],
            ),
        !names_user(reviews, name) ==> reviews_without(reviews, name) == reviews,
    decreases reviews.len(),
{
    if reviews.len() > 0 {
        let front = reviews.drop_last();
        lemma_reviews_without(front, name);
        let left = reviews_without(reviews, name);
        assert forall|i: int| 0 <= i < left.len() implies reviews.contains(#[trigger] left[i]) by {
            if i < reviews_without(front, name).len() {
                let k = choose|k: int|
                    0 <= k < front.len() && front[k] == reviews_without(front, name)[i];
                assert(reviews[k] == left[i]);
            } else {
                assert(reviews[reviews.len() - 1] == left[i]);
            }
        }
        if names_user(left, name) {
            let i = choose|i: int| 0 <= i < left.len() && (#[trigger] left[i]).username == name;
            if i < reviews_without(front, name).len() {
                assert(reviews_without(front, name)[i].username == name);
            }
        }
        if !names_user(reviews, name) {
            assert(reviews[reviews.len() - 1].username != name);
            if names_user(front, name) {
                let i = choose|i: int|
                    0 <= i < front.len() && (#[trigger] front[i]).username == name;
                assert(reviews[i].username == name);
            }
            assert(left =~= reviews);
        }
    }
}

/// The quiz reviews of the application, kept in memory in the order in which
/// they were added.
#[derive(Debug)]
pub struct ReviewLog {
    reviews: Vec<QuizReview>,
}

impl View for ReviewLog {
    type V = Seq<QuizReviewView>;

    closed spec fn view(&self) -> Seq<QuizReviewView> {
        review_views(self.reviews@)
    }
}

impl ReviewLog {
    /// A log without reviews.
    pub fn new() -> (log: ReviewLog)
        ensures
            log@ == Seq::<QuizReviewView>::empty(),
    {
        let log = ReviewLog { reviews: Vec::new() };
        assert(log@ =~= Seq::<QuizReviewView>::empty());
        log
    }

    /// The number of reviews.
    pub fn len(&self) -> (count: usize)
        ensures
            count == self@.len(),
    {
        self.reviews.len()
    }

    /// Appends a review.
    pub fn add(&mut self, review: QuizReview)
        ensures
            final(self)@ == old(self)@.push(review@),
    {
        self.reviews.push(review);
        assert(self@ =~= old(self)@.push(review@));
    }

    /// Copies of all reviews, in the order in which they were added.
    pub fn list(&self) -> (reviews: Vec<QuizReview>)
        ensures
            review_views(reviews@) == self@,
    {
        let mut reviews: Vec<QuizReview> = Vec::with_capacity(self.reviews.len());
        let mut i: usize = 0;
        while i < self.reviews.len()
            invariant
                i <= self.reviews.len(),
                reviews@.len() == i,
                forall|k: int| 0 <= k < i ==> (#[trigger] reviews@[k])@ == self.reviews@[k]@,
            decreases self.reviews.len() - i,
        {
            reviews.push(self.reviews[i].clone());
            i += 1;
        }
        assert(review_views(reviews@) =~= self@);
        reviews
    }

    /// Removes every review that names `username` and keeps the others in
    /// their order.
    pub fn remove_of(&mut self, username: &String)
        ensures
            final(self)@ == reviews_without(old(self)@, username@),
            !names_user(final(self)@, username@),
    {
        let ghost all = self@;
        let mut taken: Vec<QuizReview> = Vec::new();
        core::mem::swap(&mut taken, &mut self.reviews);
        let mut pending = reversed(taken);
        let mut left: Vec<QuizReview> = Vec::new();
        assert(all.subrange(0, 0) =~= Seq::empty());
        assert(review_views(left@) =~= Seq::empty());
        while pending.len() > 0
            invariant
                pending@.len() <= all.len(),
                forall|k: int|
                    0 <= k < pending@.len() ==> (#[trigger] pending@[k])@ == all[all.len() - 1
                        - k],
                review_views(left@) == reviews_without(
                    all.subrange(0, all.len() - pending@.len()),
                    username@,
                ),
            decreases pending@.len(),
        {
            let ghost done = all.len() - pending@.len();
            let ghost before = review_views(left@);
            assert(all.subrange(0, done + 1).drop_last() =~= all.subrange(0, done));
            assert(all.subrange(0, done + 1).last() == all[done]);
            match pending.pop() {
                Some(review) => {
                    if review.username != *username {
                        left.push(review);
                        assert(review_views(left@) =~= before.push(review@));
                    }
                },
                None => {},
            }
        }
        assert(all.subrange(0, all.len() as int) =~= all);
        self.reviews = left;
        proof {
            lemma_reviews_without(all, username@);
        }
    }
}

} // verus!
