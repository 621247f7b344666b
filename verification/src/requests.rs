//! The failures that a request to the account system can end in.
//!
//! Every failure has a kind, for callers that branch on it, and a message
//! that can be shown to the user as it is.

use vstd::prelude::*;
use vstd::string::{StringExecFns, StringSliceAdditionalSpecFns};
use vstd::utf8::{
    encode_utf8_valid_utf8, is_char_boundary, is_char_boundary_iff_not_is_continuation_byte,
};

verus! {

/// The classes of failure.
#[derive(Clone, Copy, Debug, PartialEq, Eq, Structural)]
pub enum UserReqErrorKind {
    InvalidDetails,
    AccountLocked,
    ConnectionError,
    SerdeError,
    AddUserError,
    AddSetError,
    StrikeAddError,
    StrikeResetError,
    DeleteUserError,
    FetchUsersError,
    FetchQuestionsError,
    DeleteQuestionsError,
    FetchReviewsError,
    AddReviewError,
}

/// The name of a kind: the name of its variant.
pub open spec fn kind_name(kind: UserReqErrorKind) -> Seq<char> {
    match kind {
        UserReqErrorKind::InvalidDetails => "InvalidDetails"@,
        UserReqErrorKind::AccountLocked => "AccountLocked"@,
        UserReqErrorKind::ConnectionError => "ConnectionError"@,
        UserReqErrorKind::SerdeError => "SerdeError"@,
        UserReqErrorKind::AddUserError => "AddUserError"@,
        UserReqErrorKind::AddSetError => "AddSetError"@,
        UserReqErrorKind::StrikeAddError => "StrikeAddError"@,
        UserReqErrorKind::StrikeResetError => "StrikeResetError"@,
        UserReqErrorKind::DeleteUserError => "DeleteUserError"@,
        UserReqErrorKind::FetchUsersError => "FetchUsersError"@,
        UserReqErrorKind::FetchQuestionsError => "FetchQuestionsError"@,
        UserReqErrorKind::DeleteQuestionsError => "DeleteQuestionsError"@,
        UserReqErrorKind::FetchReviewsError => "FetchReviewsError"@,
        UserReqErrorKind::AddReviewError => "AddReviewError"@,
    }
}

impl UserReqErrorKind {
    /// The name of this kind.
    pub fn name(&self) -> (name: &'static str)
        ensures
            name@ == kind_name(*self),
    {
        match self {
            UserReqErrorKind::InvalidDetails => "InvalidDetails",
            UserReqErrorKind::AccountLocked => "AccountLocked",
            UserReqErrorKind::ConnectionError => "ConnectionError",
            UserReqErrorKind::SerdeError => "SerdeError",
            UserReqErrorKind::AddUserError => "AddUserError",
            UserReqErrorKind::AddSetError => "AddSetError",
            UserReqErrorKind::StrikeAddError => "StrikeAddError",
            UserReqErrorKind::StrikeResetError => "StrikeResetError",
            UserReqErrorKind::DeleteUserError => "DeleteUserError",
            UserReqErrorKind::FetchUsersError => "FetchUsersError",
            UserReqErrorKind::FetchQuestionsError => "FetchQuestionsError",
            UserReqErrorKind::DeleteQuestionsError => "DeleteQuestionsError",
            UserReqErrorKind::FetchReviewsError => "FetchReviewsError",
            UserReqErrorKind::AddReviewError => "AddReviewError",
        }
    }
}

/// A failed request: its kind and the message for the user.
#[derive(Debug)]
pub struct UserReqError {
    kind: UserReqErrorKind,
    pub message: String,
}

/// The mathematical content of a `UserReqError`.
pub struct UserReqErrorView {
    pub kind: UserReqErrorKind,
    pub message: Seq<char>,
}

impl View for UserReqError {
    type V = UserReqErrorView;

    closed spec fn view(&self) -> UserReqErrorView {
        UserReqErrorView { kind: self.kind, message: self.message@ }
    }
}

impl Clone for UserReqError {
    fn clone(&self) -> (copy: UserReqError)
        ensures
            copy@ == self@,
    {
        UserReqError { kind: self.kind, message: self.message.clone() }
    }
}

/// The text that `describe` gives for a failure: the kind's name in square
/// brackets, a space, and the message.
pub open spec fn description(error: UserReqErrorView) -> Seq<char> {
    "["@ + kind_name(error.kind) + "] "@ + error.message
}

impl UserReqError {
    /// A failure of the given kind with the given message.
    pub fn new(kind: UserReqErrorKind, message: String) -> (error: UserReqError)
        ensures
            error@ == (UserReqErrorView { kind, message: message@ }),
    {
        UserReqError { kind, message }
    }

    /// The failure of a command whose answer could not be decoded, with the
    /// decoder's text as its message.
    pub fn serde_failure(text: String) -> (error: UserReqError)
        ensures
            error@ == (UserReqErrorView { kind: UserReqErrorKind::SerdeError, message: text@ }),
    {
        UserReqError { kind: UserReqErrorKind::SerdeError, message: text }
    }

    /// The class of this failure.
    pub fn kind(&self) -> (kind: UserReqErrorKind)
        ensures
            kind == self@.kind,
    {
        self.kind
    }

    /// The message for the user.
    pub fn message(&self) -> (message: &String)
        ensures
            message@ == self@.message,
    {
        &self.message
    }

    /// The failure written out for a log or a console.
    pub fn describe(&self) -> (text: String)
        ensures
            text@ == description(self@),
    {
        let mut text = String::from_str("[");
        text.append(self.kind.name());
        text.append("] ");
        text.append(self.message.as_str());
        text
    }
}

/// The number of bytes that stand before the failure in the text of a failed
/// command.
pub const PAYLOAD_LEAD: usize = 15;

/// The number of bytes that stand behind the failure in the text of a failed
/// command.
pub const PAYLOAD_TRAIL: usize = 2;

/// The text is long enough to hold a lead and a trail, and both end where a
/// character ends.
pub open spec fn has_payload(bytes: Seq<u8>) -> bool {
    &&& bytes.len() >= PAYLOAD_LEAD + PAYLOAD_TRAIL
    &&& is_char_boundary(bytes, PAYLOAD_LEAD as int)
    &&& is_char_boundary(bytes, bytes.len() - PAYLOAD_TRAIL)
}

/// The bytes between the lead and the trail.
pub open spec fn payload_bytes(bytes: Seq<u8>) -> Seq<u8> {
    bytes.subrange(PAYLOAD_LEAD as int, bytes.len() - PAYLOAD_TRAIL)
}

/// Cuts the encoded failure out of the text that a failed command comes back
/// with: the text without its lead and its trail.
///
/// Returns `None` exactly when the text is too short or would be cut inside
/// a character. What is cut out is handed on to be decoded; it is not looked
/// at here.
pub fn command_payload(value: &str) -> (payload: Option<&str>)
    ensures
        match payload {
            Some(p) => has_payload(value.spec_bytes()) && p.spec_bytes() == payload_bytes(
                value.spec_bytes(),
            ),
            None => !has_payload(value.spec_bytes()),
        },
{
    let n = value.as_bytes().len();
    if n < PAYLOAD_LEAD + PAYLOAD_TRAIL {
        return None;
    }
    if !value.is_char_boundary(PAYLOAD_LEAD) || !value.is_char_boundary(n - PAYLOAD_TRAIL) {
        return None;
    }
    let (_, rest) = value.split_at(PAYLOAD_LEAD);
    let m = rest.as_bytes().len();
    proof {
        let bytes = value.spec_bytes();
        let tail = rest.spec_bytes();
        encode_utf8_valid_utf8(value@);
        encode_utf8_valid_utf8(rest@);
        assert(tail[m - PAYLOAD_TRAIL] == bytes[n - PAYLOAD_TRAIL]);
        is_char_boundary_iff_not_is_continuation_byte(bytes, n - PAYLOAD_TRAIL);
        is_char_boundary_iff_not_is_continuation_byte(tail, m - PAYLOAD_TRAIL);
    }
    let (payload, _) = rest.split_at(m - PAYLOAD_TRAIL);
    assert(payload.spec_bytes() =~= payload_bytes(value.spec_bytes()));
    Some(payload)
}

} // verus!
