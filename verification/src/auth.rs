//! The rules of login with lockout, registration, unlock and account removal.
//!
//! Every function here is a decision: it takes what the user collection
//! answered and says what the caller gets back and what has to be written.
//! None of them touches a store. Whoever owns the store (the in-memory
//! service of this crate, or a program that talks to a database) looks the
//! user up, asks here, and carries out the write.
//!
//! A login is decided before anything is written. If the write that follows
//! fails, the decision stands and the failed write is reported beside it.
//!
//! An unlock and a removal are decided step by step: the caller says how far
//! it has come and is told what to do next, so that the order of the writes
//! is fixed here and not by the caller.

use crate::requests::{UserReqError, UserReqErrorKind, UserReqErrorView};
use crate::user::{User, UserView};
use vstd::prelude::*;
use vstd::string::StringExecFns;

verus! {

/// The number of strikes from which an account is locked.
pub const LOCK_THRESHOLD: u8 = 3;

/// What a collection answered when asked for a record by its name.
#[derive(Debug)]
pub enum Lookup<T> {
    /// The collection could not be reached.
    Unreachable,
    /// The collection holds no record of that name.
    Missing,
    /// The record of that name.
    Found(T),
}

impl<T: View> View for Lookup<T> {
    type V = Lookup<T::V>;

    open spec fn view(&self) -> Lookup<T::V> {
        match self {
            Lookup::Unreachable => Lookup::Unreachable,
            Lookup::Missing => Lookup::Missing,
            Lookup::Found(record) => Lookup::Found(record@),
        }
    }
}

/// What has to happen to the strike counter of the user that was looked up.
#[derive(Clone, Copy, Debug, PartialEq, Eq, Structural)]
pub enum StrikeWrite {
    /// Nothing is written.
    Keep,
    /// The counter is set to 0.
    Reset,
    /// One strike is added to the counter as it stands when the write
    /// arrives, not to the value that was read.
    Increment,
}

/// What an unlock does next.
#[derive(Debug)]
pub enum UnlockStep {
    /// The unlock is over, with this answer to the caller.
    Stop(Result<(), UserReqError>),
    /// The strikes of the user are to be set to 0.
    ResetStrikes,
}

impl View for UnlockStep {
    type V = UnlockStepView;

    open spec fn view(&self) -> UnlockStepView {
        match self {
            UnlockStep::Stop(result) => UnlockStepView::Stop(done_view(*result)),
            UnlockStep::ResetStrikes => UnlockStepView::ResetStrikes,
        }
    }
}

/// How far the removal of an account has come.
#[derive(Clone, Copy, Debug, PartialEq, Eq, Structural)]
pub enum RemovalProgress {
    /// The user was looked up and nothing was written yet.
    Looked,
    /// The removal of the user's quiz reviews was tried, and went through or
    /// not.
    ReviewsTried(bool),
    /// The reviews are gone, and the removal of the user's record was tried,
    /// and went through or not.
    RecordTried(bool),
}

/// What the removal of an account does next.
#[derive(Debug)]
pub enum RemovalStep {
    /// The removal is over, with this answer to the caller.
    Stop(Result<(), UserReqError>),
    /// The quiz reviews that name the user are to be removed.
    RemoveReviews,
    /// The record of the user is to be removed.
    RemoveRecord,
}

impl View for RemovalStep {
    type V = RemovalStepView;

    open spec fn view(&self) -> RemovalStepView {
        match self {
            RemovalStep::Stop(result) => RemovalStepView::Stop(done_view(*result)),
            RemovalStep::RemoveReviews => RemovalStepView::RemoveReviews,
            RemovalStep::RemoveRecord => RemovalStepView::RemoveRecord,
        }
    }
}

/// A login attempt, decided: what the caller is told, and what is written.
#[derive(Debug)]
pub struct LoginDecision {
    pub outcome: Result<User, UserReqError>,
    pub write: StrikeWrite,
}

/// A login attempt, finished: what the caller is told, and the write that
/// failed, if one did.
#[derive(Debug)]
pub struct LoginReport {
    pub outcome: Result<User, UserReqError>,
    pub bookkeeping: Option<UserReqError>,
}

/// The contents of the result of a login.
pub open spec fn login_view(result: Result<User, UserReqError>) -> Result<
    UserView,
    UserReqErrorView,
> {
    match result {
        Ok(user) => Ok(user@),
        Err(error) => Err(error@),
    }
}

/// The contents of the result of a request that returns nothing.
pub open spec fn done_view(result: Result<(), UserReqError>) -> Result<(), UserReqErrorView> {
    match result {
        Ok(_) => Ok(()),
        Err(error) => Err(error@),
    }
}

/// The contents of a failure that may be absent.
pub open spec fn failure_view(failure: Option<UserReqError>) -> Option<UserReqErrorView> {
    match failure {
        Some(error) => Some(error@),
        None => None,
    }
}

/// The failure of a login with an unknown username or a wrong password. The
/// two are told apart by nothing.
pub open spec fn wrong_credentials() -> UserReqErrorView {
    UserReqErrorView {
        kind: UserReqErrorKind::InvalidDetails,
        message: "The username or password was incorrect."@,
    }
}

/// The failure of a login to a locked account.
pub open spec fn account_locked() -> UserReqErrorView {
    UserReqErrorView {
        kind: UserReqErrorKind::AccountLocked,
        message: "This account is locked out"@,
    }
}

/// The failure of a login or an unlock whose lookup did not reach the
/// collection.
pub open spec fn user_not_fetched() -> UserReqErrorView {
    UserReqErrorView {
        kind: UserReqErrorKind::ConnectionError,
        message: "Could not fetch user"@,
    }
}

/// The failure of a removal whose lookup did not reach the collection.
pub open spec fn operation_failed() -> UserReqErrorView {
    UserReqErrorView { kind: UserReqErrorKind::ConnectionError, message: "db operation failed"@ }
}

/// The failure of removing a user that does not exist.
pub open spec fn user_not_found() -> UserReqErrorView {
    UserReqErrorView { kind: UserReqErrorKind::InvalidDetails, message: "could not find user"@ }
}

/// The failure of a registration that the collection did not take.
pub open spec fn user_not_added() -> UserReqErrorView {
    UserReqErrorView {
        kind: UserReqErrorKind::AddUserError,
        message: "Could not add user object to database"@,
    }
}

/// The failure of the write that resets the strikes after a login.
pub open spec fn strike_reset_failed() -> UserReqErrorView {
    UserReqErrorView {
        kind: UserReqErrorKind::StrikeResetError,
        message: "Strike Reset Failed."@,
    }
}

/// The failure of the write that adds a strike after a login.
pub open spec fn strike_add_failed() -> UserReqErrorView {
    UserReqErrorView { kind: UserReqErrorKind::StrikeAddError, message: "Strike Add Failed."@ }
}

/// The failure of the write that unlocks an account.
pub open spec fn strikes_not_reset() -> UserReqErrorView {
    UserReqErrorView {
        kind: UserReqErrorKind::StrikeResetError,
        message: "strikes could not be reset"@,
    }
}

/// The failure of a removal that stopped because the quiz reviews of the user
/// could not be removed. The user was not removed, and the kind says so.
pub open spec fn reviews_not_deleted() -> UserReqErrorView {
    UserReqErrorView {
        kind: UserReqErrorKind::DeleteUserError,
        message: "could not delete quiz reviews"@,
    }
}

/// The failure of removing the record of a user.
pub open spec fn user_not_deleted() -> UserReqErrorView {
    UserReqErrorView {
        kind: UserReqErrorKind::DeleteUserError,
        message: "the user could not be deleted"@,
    }
}

/// The failure of listing the users.
pub open spec fn users_not_fetched() -> UserReqErrorView {
    UserReqErrorView {
        kind: UserReqErrorKind::FetchUsersError,
        message: "could not fetch users"@,
    }
}

/// An account with this many strikes is locked.
pub open spec fn is_locked(strikes: u8) -> bool {
    strikes >= LOCK_THRESHOLD
}

/// What a login is answered with, given what the lookup found.
pub open spec fn login_outcome(lookup: Lookup<UserView>, password: Seq<char>) -> Result<
    UserView,
    UserReqErrorView,
> {
    match lookup {
        Lookup::Unreachable => Err(user_not_fetched()),
        Lookup::Missing => Err(wrong_credentials()),
        Lookup::Found(user) => if is_locked(user.strikes) {
            Err(account_locked())
        } else if user.password == password {
            Ok(user.with_strikes(0))
        } else {
            Err(wrong_credentials())
        },
    }
}

/// What a login writes, given what the lookup found.
pub open spec fn login_write(lookup: Lookup<UserView>, password: Seq<char>) -> StrikeWrite {
    match lookup {
        Lookup::Unreachable => StrikeWrite::Keep,
        Lookup::Missing => StrikeWrite::Keep,
        Lookup::Found(user) => if is_locked(user.strikes) {
            StrikeWrite::Keep
        } else if user.password == password {
            StrikeWrite::Reset
        } else {
            StrikeWrite::Increment
        },
    }
}

/// The failure that is reported when a write of a login does not go through.
pub open spec fn login_write_failure(write: StrikeWrite) -> Option<UserReqErrorView> {
    match write {
        StrikeWrite::Keep => None,
        StrikeWrite::Reset => Some(strike_reset_failed()),
        StrikeWrite::Increment => Some(strike_add_failed()),
    }
}

/// What an unlock does next, as contents.
pub enum UnlockStepView {
    Stop(Result<(), UserReqErrorView>),
    ResetStrikes,
}

/// What an unlock does next, given what the lookup found and, once the reset
/// of the strikes was tried, whether it went through.
pub open spec fn unlock_next(lookup: Lookup<UserView>, written: Option<bool>) -> UnlockStepView {
    match lookup {
        Lookup::Unreachable => UnlockStepView::Stop(Err(user_not_fetched())),
        Lookup::Missing => UnlockStepView::Stop(Ok(())),
        Lookup::Found(_) => match written {
            None => UnlockStepView::ResetStrikes,
            Some(true) => UnlockStepView::Stop(Ok(())),
            Some(false) => UnlockStepView::Stop(Err(strikes_not_reset())),
        },
    }
}

/// Whether a removal may go ahead, or the failure it ends in.
pub open spec fn delete_go_ahead(lookup: Lookup<UserView>) -> Result<(), UserReqErrorView> {
    match lookup {
        Lookup::Unreachable => Err(operation_failed()),
        Lookup::Missing => Err(user_not_found()),
        Lookup::Found(_) => Ok(()),
    }
}

/// What a removal does next, as contents.
pub enum RemovalStepView {
    Stop(Result<(), UserReqErrorView>),
    RemoveReviews,
    RemoveRecord,
}

/// What a removal does next, given what the lookup found and how far the
/// removal has come.
pub open spec fn removal_next(
    lookup: Lookup<UserView>,
    progress: RemovalProgress,
) -> RemovalStepView {
    match delete_go_ahead(lookup) {
        Err(error) => RemovalStepView::Stop(Err(error)),
        Ok(_) => match progress {
            RemovalProgress::Looked => RemovalStepView::RemoveReviews,
            RemovalProgress::ReviewsTried(false) => RemovalStepView::Stop(
                Err(reviews_not_deleted()),
            ),
            RemovalProgress::ReviewsTried(true) => RemovalStepView::RemoveRecord,
            RemovalProgress::RecordTried(false) => RemovalStepView::Stop(Err(user_not_deleted())),
            RemovalProgress::RecordTried(true) => RemovalStepView::Stop(Ok(())),
        },
    }
}

/// The number of writes that a removal may still ask for.
pub open spec fn removal_steps_left(progress: RemovalProgress) -> nat {
    match progress {
        RemovalProgress::Looked => 2,
        RemovalProgress::ReviewsTried(_) => 1,
        RemovalProgress::RecordTried(_) => 0,
    }
}

/// A failure of the given kind with the given message.
pub(crate) fn failure(kind: UserReqErrorKind, message: &str) -> (error: UserReqError)
    ensures
        error@ == (UserReqErrorView { kind, message: message@ }),
{
    UserReqError::new(kind, String::from_str(message))
}

/// Decides a login attempt from what the lookup of the username found.
///
/// Nothing is written for a lookup that failed, for an unknown username and
/// for a locked account. A locked account stays locked whatever the password.
/// A correct password resets the strikes, and the record that is returned
/// already shows them at 0. A wrong password adds one strike. An unknown
/// username and a wrong password get the same answer.
pub fn decide_login(lookup: Lookup<User>, password: &String) -> (decision: LoginDecision)
    ensures
        login_view(decision.outcome) == login_outcome(lookup@, password@),
        decision.write == login_write(lookup@, password@),
        decision.outcome matches Err(error) ==> {
            ||| error@.kind == UserReqErrorKind::ConnectionError
            ||| error@.kind == UserReqErrorKind::InvalidDetails
            ||| error@.kind == UserReqErrorKind::AccountLocked
        },
        lookup@ is Unreachable ==> {
            &&& login_view(decision.outcome) == Err::<UserView, _>(user_not_fetched())
            &&& decision.write == StrikeWrite::Keep
        },
        lookup@ is Missing ==> {
            &&& login_view(decision.outcome) == Err::<UserView, _>(wrong_credentials())
            &&& decision.write == StrikeWrite::Keep
        },
        lookup@ matches Lookup::Found(user) ==> {
            &&& user.strikes >= LOCK_THRESHOLD ==> {
                &&& login_view(decision.outcome) == Err::<UserView, _>(account_locked())
                &&& decision.write == StrikeWrite::Keep
            }
            &&& user.strikes < LOCK_THRESHOLD && user.password == password@ ==> {
                &&& login_view(decision.outcome) == Ok::<_, UserReqErrorView>(
                    user.with_strikes(0),
                )
                &&& decision.write == StrikeWrite::Reset
            }
            &&& user.strikes < LOCK_THRESHOLD && user.password != password@ ==> {
                &&& login_view(decision.outcome) == Err::<UserView, _>(wrong_credentials())
                &&& decision.write == StrikeWrite::Increment
            }
        },
{
    match lookup {
        Lookup::Unreachable => LoginDecision {
            outcome: Err(failure(UserReqErrorKind::ConnectionError, "Could not fetch user")),
            write: StrikeWrite::Keep,
        },
        Lookup::Missing => LoginDecision {
            outcome: Err(
                failure(
                    UserReqErrorKind::InvalidDetails,
                    "The username or password was incorrect.",
                ),
            ),
            write: StrikeWrite::Keep,
        },
        Lookup::Found(user) => {
            if user.strikes() >= LOCK_THRESHOLD {
                LoginDecision {
                    outcome: Err(
                        failure(UserReqErrorKind::AccountLocked, "This account is locked out"),
                    ),
                    write: StrikeWrite::Keep,
                }
            } else if *user.password() == *password {
                LoginDecision { outcome: Ok(user.with_strikes(0)), write: StrikeWrite::Reset }
            } else {
                LoginDecision {
                    outcome: Err(
                        failure(
                            UserReqErrorKind::InvalidDetails,
                            "The username or password was incorrect.",
                        ),
                    ),
                    write: StrikeWrite::Increment,
                }
            }
        },
    }
}

/// Finishes a login once its write was tried.
///
/// The answer to the caller is the one that was decided, whether or not the
/// write went through. A write that failed is reported beside it, as a
/// failure to reset or to add a strike.
pub fn conclude_login(decision: LoginDecision, write_succeeded: bool) -> (report: LoginReport)
    ensures
        login_view(report.outcome) == login_view(decision.outcome),
        failure_view(report.bookkeeping) == if write_succeeded {
            None
        } else {
            login_write_failure(decision.write)
        },
{
    let bookkeeping = if write_succeeded {
        None
    } else {
        match decision.write {
            StrikeWrite::Keep => None,
            StrikeWrite::Reset => Some(
                failure(UserReqErrorKind::StrikeResetError, "Strike Reset Failed."),
            ),
            StrikeWrite::Increment => Some(
                failure(UserReqErrorKind::StrikeAddError, "Strike Add Failed."),
            ),
        }
    };
    LoginReport { outcome: decision.outcome, bookkeeping }
}

/// Decides what registering a user ends in, given whether the collection took
/// the record.
pub fn conclude_add_user(inserted: bool) -> (result: Result<(), UserReqError>)
    ensures
        done_view(result) == if inserted {
            Ok::<_, UserReqErrorView>(())
        } else {
            Err(user_not_added())
        },
{
    if inserted {
        Ok(())
    } else {
        Err(failure(UserReqErrorKind::AddUserError, "Could not add user object to database"))
    }
}

/// Says what an unlock does next.
///
/// `written` is `None` until the reset of the strikes was tried, and then
/// says whether it went through. An unknown username is no failure: there is
/// nothing to unlock, and nothing is written. A known one has its strikes
/// reset, locked or not, and the unlock succeeds exactly when that write did.
pub fn unlock_step(lookup: &Lookup<User>, written: Option<bool>) -> (step: UnlockStep)
    ensures
        step@ == unlock_next(lookup@, written),
        step is ResetStrikes <==> lookup@ is Found && written is None,
        step matches UnlockStep::Stop(Err(error)) ==> {
            ||| error@.kind == UserReqErrorKind::ConnectionError
            ||| error@.kind == UserReqErrorKind::StrikeResetError
        },
{
    match lookup {
        Lookup::Unreachable => UnlockStep::Stop(
            Err(failure(UserReqErrorKind::ConnectionError, "Could not fetch user")),
        ),
        Lookup::Missing => UnlockStep::Stop(Ok(())),
        Lookup::Found(_) => match written {
            None => UnlockStep::ResetStrikes,
            Some(true) => UnlockStep::Stop(Ok(())),
            Some(false) => UnlockStep::Stop(
                Err(failure(UserReqErrorKind::StrikeResetError, "strikes could not be reset")),
            ),
        },
    }
}

/// Says what the removal of an account does next.
///
/// Removing a user that does not exist is a failure, unlike unlocking one.
/// The quiz reviews of the user go first, so that none is left pointing at a
/// user that is gone: the record is removed only once the reviews are. If the
/// reviews cannot be removed the removal stops, the record stays, and the
/// caller is told that the user was not removed.
pub fn removal_step(lookup: &Lookup<User>, progress: RemovalProgress) -> (step: RemovalStep)
    ensures
        step@ == removal_next(lookup@, progress),
        step is RemoveReviews <==> lookup@ is Found && progress == RemovalProgress::Looked,
        step is RemoveRecord <==> lookup@ is Found && progress == RemovalProgress::ReviewsTried(
            true,
        ),
        !(step is Stop) ==> removal_steps_left(progress) > 0,
        step matches RemovalStep::Stop(Err(error)) ==> {
            ||| error@.kind == UserReqErrorKind::ConnectionError
            ||| error@.kind == UserReqErrorKind::InvalidDetails
            ||| error@.kind == UserReqErrorKind::DeleteUserError
        },
{
    match lookup {
        Lookup::Unreachable => RemovalStep::Stop(
            Err(failure(UserReqErrorKind::ConnectionError, "db operation failed")),
        ),
        Lookup::Missing => RemovalStep::Stop(
            Err(failure(UserReqErrorKind::InvalidDetails, "could not find user")),
        ),
        Lookup::Found(_) => match progress {
            RemovalProgress::Looked => RemovalStep::RemoveReviews,
            RemovalProgress::ReviewsTried(false) => RemovalStep::Stop(
                Err(failure(UserReqErrorKind::DeleteUserError, "could not delete quiz reviews")),
            ),
            RemovalProgress::ReviewsTried(true) => RemovalStep::RemoveRecord,
            RemovalProgress::RecordTried(false) => RemovalStep::Stop(
                Err(failure(UserReqErrorKind::DeleteUserError, "the user could not be deleted")),
            ),
            RemovalProgress::RecordTried(true) => RemovalStep::Stop(Ok(())),
        },
    }
}

/// The reviews go first: the record of a user is asked to be removed only
/// once the quiz reviews that name the user are gone, and when they cannot be
/// removed the removal ends in a failure without asking for the record.
pub proof fn lemma_reviews_go_first(lookup: Lookup<UserView>, progress: RemovalProgress)
    ensures
        removal_next(lookup, progress) is RemoveRecord ==> progress
            == RemovalProgress::ReviewsTried(true),
        progress == RemovalProgress::ReviewsTried(false) ==> removal_next(lookup, progress)
            matches RemovalStepView::Stop(Err(_)),
        progress == RemovalProgress::Looked ==> !(removal_next(lookup, progress)
            is RemoveRecord),
{
}

/// The record under which a new user is stored: the record as it was given,
/// with its strikes at 0.
pub fn as_registered(new_user: &User) -> (account: User)
    ensures
        account@ == new_user@.with_strikes(0),
{
    new_user.with_strikes(0)
}

} // verus!
