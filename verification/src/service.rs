//! The account service: login with lockout, registration, unlock and removal
//! over an in-memory user store, and the quiz reviews that go when their user
//! goes.
//!
//! The service holds no state of its own between calls. Each request looks
//! the user up, lets the rules of `auth` decide, and carries out the write
//! they ask for. A request has the store to itself from its lookup to its
//! write, because it borrows the service mutably.

use crate::auth::{
    account_locked, as_registered, conclude_add_user, conclude_login, decide_login, done_view,
    is_locked, login_outcome, login_view, login_write, removal_step, removal_steps_left,
    unlock_step, user_not_added, user_not_found, wrong_credentials, Lookup, RemovalProgress,
    RemovalStep, StrikeWrite, UnlockStep, LOCK_THRESHOLD,
};
use crate::catalog::conclude_add_review;
use crate::requests::{UserReqError, UserReqErrorView};
use crate::responses::{QuizReview, QuizReviewView};
use crate::reviews::{names_user, review_views, reviews_without, ReviewLog};
use crate::store::{
    distinct_names, holds, lemma_push, lemma_record_at, lemma_with_strike_added,
    lemma_with_strikes, lemma_without, position, record, views, with_strike_added,
    with_strikes, without, UserStore,
};
use crate::user::{User, UserView};
use vstd::prelude::*;

verus! {

/// What a lookup of `name` in `records` answers. An in-memory store is always
/// reached.
pub open spec fn found(records: Seq<UserView>, name: Seq<char>) -> Lookup<UserView> {
    match record(records, name) {
        Some(user) => Lookup::Found(user),
        None => Lookup::Missing,
    }
}

/// `records` after the strike counter of `name` was written as `write` says.
pub open spec fn after_write(records: Seq<UserView>, name: Seq<char>, write: StrikeWrite) -> Seq<
    UserView,
> {
    match write {
        StrikeWrite::Keep => records,
        StrikeWrite::Reset => with_strikes(records, name, 0),
        StrikeWrite::Increment => with_strike_added(records, name),
    }
}

/// `records` after a login attempt with `name` and `password`.
pub open spec fn after_login(records: Seq<UserView>, name: Seq<char>, password: Seq<char>) -> Seq<
    UserView,
> {
    after_write(records, name, login_write(found(records, name), password))
}

/// `records` after `user` was registered: a taken username changes nothing, a
/// free one gets the record with its strikes at 0.
pub open spec fn after_add(records: Seq<UserView>, user: UserView) -> Seq<UserView> {
    if holds(records, user.username) {
        records
    } else {
        records.push(user.with_strikes(0))
    }
}

/// No record of `records` has more strikes than it takes to lock an account.
pub open spec fn capped(records: Seq<UserView>) -> bool {
    forall|i: int| 0 <= i < records.len() ==> (#[trigger] records[i]).strikes <= LOCK_THRESHOLD
}

/// The account service.
#[derive(Debug)]
pub struct AuthService {
    store: UserStore,
    reviews: ReviewLog,
}

impl View for AuthService {
    type V = Seq<UserView>;

    closed spec fn view(&self) -> Seq<UserView> {
        self.store@
    }
}

impl AuthService {
    /// What every service keeps: no two of its users share a username.
    pub open spec fn wf(&self) -> bool {
        distinct_names(self@)
    }

    /// The quiz reviews that the service holds, in the order in which they
    /// were added.
    pub closed spec fn reviews(&self) -> Seq<QuizReviewView> {
        self.reviews@
    }

    /// A service over the given store, without quiz reviews.
    pub fn new(store: UserStore) -> (service: AuthService)
        requires
            store.wf(),
        ensures
            service@ == store@,
            service.reviews() == Seq::<QuizReviewView>::empty(),
            service.wf(),
    {
        AuthService { store, reviews: ReviewLog::new() }
    }

    /// The store behind the service, for reading.
    pub fn store(&self) -> (store: &UserStore)
        ensures
            store@ == self@,
    {
        &self.store
    }

    /// Checks a username and password, and keeps count of failed attempts.
    ///
    /// - Unknown username: fails as a wrong password does; nothing changes.
    /// - Locked account (`LOCK_THRESHOLD` strikes or more): fails as locked,
    ///   whatever the password; nothing changes.
    /// - Correct password: succeeds with the user's record, and the strikes
    ///   are reset to 0.
    /// - Wrong password: fails, and the user gets one more strike.
    ///
    /// No other user's record changes.
    pub fn validate_login(&mut self, username: String, password: String) -> (result: Result<
        User,
        UserReqError,
    >)
        requires
            old(self).wf(),
        ensures
            final(self).wf(),
            login_view(result) == login_outcome(found(old(self)@, username@), password@),
            final(self)@ == after_login(old(self)@, username@, password@),
            final(self).reviews() == old(self).reviews(),
            forall|other: Seq<char>|
                other != username@ ==> record(final(self)@, other) == record(old(self)@, other),
            record(old(self)@, username@) is None ==> {
                &&& login_view(result) == Err::<UserView, _>(wrong_credentials())
                &&& final(self)@ == old(self)@
            },
            record(old(self)@, username@) matches Some(user) ==> {
                &&& user.strikes >= LOCK_THRESHOLD ==> {
                    &&& login_view(result) == Err::<UserView, _>(account_locked())
                    &&& final(self)@ == old(self)@
                }
                &&& user.strikes < LOCK_THRESHOLD && user.password == password@ ==> {
                    &&& login_view(result) == Ok::<_, UserReqErrorView>(user.with_strikes(0))
                    &&& record(final(self)@, username@) == Some(user.with_strikes(0))
                }
                &&& user.strikes < LOCK_THRESHOLD && user.password != password@ ==> {
                    &&& login_view(result) == Err::<UserView, _>(wrong_credentials())
                    &&& record(final(self)@, username@) == Some(
                        user.with_strikes((user.strikes + 1) as u8),
                    )
                }
            },
    {
        proof {
            lemma_with_strikes(self@, username@, 0);
            lemma_with_strike_added(self@, username@);
        }
        let lookup: Lookup<User> = match self.store.find_by_username(&username) {
            Some(user) => Lookup::Found(user),
            None => Lookup::Missing,
        };
        let decision = decide_login(lookup, &password);
        let written = match decision.write {
            StrikeWrite::Keep => true,
            StrikeWrite::Reset => self.store.set_strikes(&username, 0),
            StrikeWrite::Increment => self.store.add_strike(&username),
        };
        conclude_login(decision, written).outcome
    }

    /// Registers a user.
    ///
    /// The record is stored with its strikes at 0, whatever it came with.
    /// Fails, and stores nothing, exactly when the username is taken.
    pub fn add_user(&mut self, new_user: User) -> (result: Result<(), UserReqError>)
        requires
            old(self).wf(),
        ensures
            final(self).wf(),
            final(self)@ == after_add(old(self)@, new_user@),
            final(self).reviews() == old(self).reviews(),
            done_view(result) == if holds(old(self)@, new_user@.username) {
                Err(user_not_added())
            } else {
                Ok::<_, UserReqErrorView>(())
            },
            result is Ok ==> record(final(self)@, new_user@.username) == Some(
                new_user@.with_strikes(0),
            ),
            forall|other: Seq<char>|
                other != new_user@.username ==> record(final(self)@, other) == record(
                    old(self)@,
                    other,
                ),
    {
        let fresh = as_registered(&new_user);
        proof {
            if !holds(self@, fresh@.username) {
                lemma_push(self@, fresh@);
            }
        }
        let inserted = self.store.insert(fresh);
        conclude_add_user(inserted)
    }

    /// Resets the strikes of a user to 0.
    ///
    /// Always succeeds. An unknown username changes nothing, and so does a
    /// user whose strikes are 0 already. No other user's record changes.
    pub fn unlock_user(&mut self, username: String) -> (result: Result<(), UserReqError>)
        requires
            old(self).wf(),
        ensures
            final(self).wf(),
            result is Ok,
            final(self)@ == with_strikes(old(self)@, username@, 0),
            final(self).reviews() == old(self).reviews(),
            record(old(self)@, username@) is None ==> final(self)@ == old(self)@,
            record(old(self)@, username@) matches Some(user) ==> {
                &&& record(final(self)@, username@) == Some(user.with_strikes(0))
                &&& user.strikes == 0 ==> final(self)@ == old(self)@
            },
            forall|other: Seq<char>|
                other != username@ ==> record(final(self)@, other) == record(old(self)@, other),
    {
        let lookup: Lookup<User> = match self.store.find_by_username(&username) {
            Some(user) => Lookup::Found(user),
            None => Lookup::Missing,
        };
        let ghost before = self@;
        let mut written: Option<bool> = None;
        loop
            invariant
                self.wf(),
                before == old(self)@,
                distinct_names(before),
                lookup@ == found(before, username@),
                self.reviews() == old(self).reviews(),
                match written {
                    None => self@ == before,
                    Some(done) => done && self@ == with_strikes(before, username@, 0),
                },
            decreases (if written is None { 1nat } else { 0nat }),
        {
            match unlock_step(&lookup, written) {
                UnlockStep::Stop(result) => {
                    proof {
                        lemma_with_strikes(before, username@, 0);
                        lemma_reset_of_unstruck(before, username@);
                    }
                    return result;
                },
                UnlockStep::ResetStrikes => {
                    written = Some(self.store.set_strikes(&username, 0));
                },
            }
        }
    }

    /// Removes a user, and first the quiz reviews that name the user.
    ///
    /// Fails, and changes nothing, exactly when there is no user of that
    /// name. No other user's record changes, and no review of another user
    /// goes.
    pub fn delete_user(&mut self, username: String) -> (result: Result<(), UserReqError>)
        requires
            old(self).wf(),
        ensures
            final(self).wf(),
            final(self)@ == without(old(self)@, username@),
            done_view(result) == if holds(old(self)@, username@) {
                Ok::<_, UserReqErrorView>(())
            } else {
                Err(user_not_found())
            },
            !holds(final(self)@, username@),
            forall|other: Seq<char>|
                other != username@ ==> record(final(self)@, other) == record(old(self)@, other),
            final(self).reviews() == if holds(old(self)@, username@) {
                reviews_without(old(self).reviews(), username@)
            } else {
                old(self).reviews()
            },
            result is Ok ==> !names_user(final(self).reviews(), username@),
    {
        let lookup: Lookup<User> = match self.store.find_by_username(&username) {
            Some(user) => Lookup::Found(user),
            None => Lookup::Missing,
        };
        let ghost before = self@;
        let ghost reviews_before = self.reviews();
        let mut progress = RemovalProgress::Looked;
        loop
            invariant
                self.wf(),
                before == old(self)@,
                reviews_before == old(self).reviews(),
                distinct_names(before),
                lookup@ == found(before, username@),
                progress is Looked || lookup@ is Found,
                match progress {
                    RemovalProgress::Looked => self@ == before && self.reviews()
                        == reviews_before,
                    RemovalProgress::ReviewsTried(done) => done && self@ == before
                        && self.reviews() == reviews_without(reviews_before, username@)
                        && !names_user(self.reviews(), username@),
                    RemovalProgress::RecordTried(done) => done && self@ == without(
                        before,
                        username@,
                    ) && self.reviews() == reviews_without(reviews_before, username@)
                        && !names_user(self.reviews(), username@),
                },
            decreases removal_steps_left(progress),
        {
            match removal_step(&lookup, progress) {
                RemovalStep::Stop(result) => {
                    proof {
                        lemma_without(before, username@);
                    }
                    return result;
                },
                RemovalStep::RemoveReviews => {
                    self.reviews.remove_of(&username);
                    progress = RemovalProgress::ReviewsTried(true);
                },
                RemovalStep::RemoveRecord => {
                    progress = RemovalProgress::RecordTried(self.store.delete(&username));
                },
            }
        }
    }

    /// Copies of the records of all users, in the order of their
    /// registration.
    pub fn list_users(&self) -> (users: Vec<User>)
        ensures
            views(users@) == self@,
    {
        self.store.list()
    }

    /// Stores the review of a finished quiz. Always succeeds.
    pub fn add_quiz_review(&mut self, new_review: QuizReview) -> (result: Result<
        (),
        UserReqError,
    >)
        ensures
            result is Ok,
            final(self).reviews() == old(self).reviews().push(new_review@),
            final(self)@ == old(self)@,
    {
        self.reviews.add(new_review);
        conclude_add_review(true)
    }

    /// Copies of all quiz reviews, in the order in which they were added.
    pub fn get_quiz_reviews(&self) -> (reviews: Vec<QuizReview>)
        ensures
            review_views(reviews@) == self.reviews(),
    {
        self.reviews.list()
    }
}

/// Resetting the strikes of a user that has none changes nothing.
pub proof fn lemma_reset_of_unstruck(records: Seq<UserView>, name: Seq<char>)
    requires
        distinct_names(records),
    ensures
        record(records, name) matches Some(user) && user.strikes == 0 ==> with_strikes(
            records,
            name,
            0,
        ) == records,
{
    if holds(records, name) {
        let p = position(records, name);
        if records[p].strikes == 0 {
            assert forall|i: int| 0 <= i < records.len() implies with_strikes(records, name, 0)[i]
                == records[i] by {
                if records[i].username == name {
                    lemma_record_at(records, i);
                }
            }
            assert(with_strikes(records, name, 0) =~= records);
        }
    }
}

/// Unlocking is idempotent: a second unlock leaves what the first one left,
/// and the user's strikes at 0.
pub proof fn lemma_unlock_is_idempotent(records: Seq<UserView>, name: Seq<char>)
    requires
        distinct_names(records),
    ensures
        with_strikes(with_strikes(records, name, 0), name, 0) == with_strikes(records, name, 0),
        record(records, name) matches Some(user) ==> record(
            with_strikes(with_strikes(records, name, 0), name, 0),
            name,
        ) == Some(user.with_strikes(0)),
{
    lemma_with_strikes(records, name, 0);
    assert(with_strikes(with_strikes(records, name, 0), name, 0) =~= with_strikes(
        records,
        name,
        0,
    ));
}

/// A user that was just registered is found under its username, with its
/// strikes at 0 and every other field as it was given.
pub proof fn lemma_added_user_is_found(records: Seq<UserView>, user: UserView)
    requires
        distinct_names(records),
        !holds(records, user.username),
    ensures
        record(after_add(records, user), user.username) == Some(user.with_strikes(0)),
        found(after_add(records, user), user.username) == Lookup::Found(
            user.with_strikes(0),
        ),
{
    lemma_push(records, user.with_strikes(0));
}

/// No strike is lost: when two login attempts with a wrong password were both
/// decided from the same reading of an unlocked account, both strikes are
/// counted once both writes have arrived.
pub proof fn lemma_no_strike_is_lost(
    records: Seq<UserView>,
    name: Seq<char>,
    first_password: Seq<char>,
    second_password: Seq<char>,
)
    requires
        distinct_names(records),
        record(records, name) matches Some(user) && !is_locked(user.strikes) && user.password
            != first_password && user.password != second_password,
    ensures
        login_write(found(records, name), first_password) == StrikeWrite::Increment,
        login_write(found(records, name), second_password) == StrikeWrite::Increment,
        record(records, name) matches Some(user) ==> record(
            with_strike_added(with_strike_added(records, name), name),
            name,
        ) == Some(user.with_strikes((user.strikes + 2) as u8)),
{
    lemma_with_strike_added(records, name);
    lemma_with_strike_added(with_strike_added(records, name), name);
}

/// The strike counters stay within the lock threshold: when no user has more
/// strikes than it takes to lock an account, no login, registration, unlock
/// or removal gives a user more.
pub proof fn lemma_requests_keep_the_cap(
    records: Seq<UserView>,
    name: Seq<char>,
    password: Seq<char>,
    user: UserView,
)
    requires
        distinct_names(records),
        capped(records),
    ensures
        capped(after_login(records, name, password)),
        capped(after_add(records, user)),
        capped(with_strikes(records, name, 0)),
        capped(without(records, name)),
{
    let logged = after_login(records, name, password);
    assert forall|i: int| 0 <= i < logged.len() implies (#[trigger] logged[i]).strikes
        <= LOCK_THRESHOLD by {
        assert(records[i].strikes <= LOCK_THRESHOLD);
        if records[i].username == name {
            lemma_record_at(records, i);
        }
    }
    let added = after_add(records, user);
    assert forall|i: int| 0 <= i < added.len() implies (#[trigger] added[i]).strikes
        <= LOCK_THRESHOLD by {
        if i < records.len() {
            assert(records[i].strikes <= LOCK_THRESHOLD);
        }
    }
    let reset = with_strikes(records, name, 0);
    assert forall|i: int| 0 <= i < reset.len() implies (#[trigger] reset[i]).strikes
        <= LOCK_THRESHOLD by {
        assert(records[i].strikes <= LOCK_THRESHOLD);
    }
    let removed = without(records, name);
    assert forall|i: int| 0 <= i < removed.len() implies (#[trigger] removed[i]).strikes
        <= LOCK_THRESHOLD by {
        if holds(records, name) {
            let p = position(records, name);
            let k = if i < p { i } else { i + 1 };
            assert(removed[i] == records[k]);
            assert(records[k].strikes <= LOCK_THRESHOLD);
        } else {
            assert(records[i].strikes <= LOCK_THRESHOLD);
        }
    }
}

/// The strike that reaches the threshold locks: after a wrong password on an
/// account one strike short of the threshold, the account is locked.
pub proof fn lemma_last_strike_locks(
    records: Seq<UserView>,
    name: Seq<char>,
    password: Seq<char>,
)
    requires
        distinct_names(records),
        record(records, name) matches Some(user) && user.strikes + 1 == LOCK_THRESHOLD
            && user.password != password,
    ensures
        record(after_login(records, name, password), name) matches Some(user) && is_locked(
            user.strikes,
        ),
{
    lemma_with_strike_added(records, name);
}

/// A login attempt never unlocks: a locked account is locked after any
/// attempt, right password or wrong, and nothing else changes either.
pub proof fn lemma_login_never_unlocks(
    records: Seq<UserView>,
    name: Seq<char>,
    password: Seq<char>,
)
    requires
        distinct_names(records),
        record(records, name) matches Some(user) && is_locked(user.strikes),
    ensures
        after_login(records, name, password) == records,
        login_outcome(found(records, name), password) == Err::<UserView, _>(account_locked()),
{
}

} // verus!
