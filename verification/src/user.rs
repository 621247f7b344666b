//! User records and the roles they can hold.

use crate::date::{parse_date, parsed_date, Date};
use vstd::prelude::*;

verus! {

/// What a user is allowed to do in the rest of the application.
#[allow(non_camel_case_types)]
#[derive(PartialEq, Eq, Clone, Copy, Debug, Structural)]
pub enum AccessLevel {
    USER,
    TEACHER,
    ADMIN,
}

/// One registrant, as the user collection stores it.
#[derive(Debug, PartialEq, Eq)]
pub struct User {
    username: String,
    password: String,
    date_of_birth: Date,
    access_level: AccessLevel,
    strikes: u8,
}

/// The mathematical content of a `User`.
pub struct UserView {
    pub username: Seq<char>,
    pub password: Seq<char>,
    pub date_of_birth: Date,
    pub access_level: AccessLevel,
    pub strikes: u8,
}

impl UserView {
    /// The same record with its strike counter replaced.
    pub open spec fn with_strikes(self, strikes: u8) -> UserView {
        UserView { strikes, ..self }
    }
}

impl View for User {
    type V = UserView;

    closed spec fn view(&self) -> UserView {
        UserView {
            username: self.username@,
            password: self.password@,
            date_of_birth: self.date_of_birth,
            access_level: self.access_level,
            strikes: self.strikes,
        }
    }
}

impl Clone for User {
    fn clone(&self) -> (copy: User)
        ensures
            copy@ == self@,
    {
        User {
            username: self.username.clone(),
            password: self.password.clone(),
            date_of_birth: self.date_of_birth,
            access_level: self.access_level,
            strikes: self.strikes,
        }
    }
}

impl User {
    /// Builds the record of a new registrant from the text of a registration
    /// form. The strike counter starts at 0.
    ///
    /// `date_of_birth` must be a date written as `YYYY-MM-DD`; `try_new`
    /// accepts any text.
    pub fn new(
        username: String,
        password: String,
        date_of_birth: String,
        access_level: AccessLevel,
    ) -> (user: User)
        requires
            parsed_date(date_of_birth@) is Some,
        ensures
            user@ == (UserView {
                username: username@,
                password: password@,
                date_of_birth: parsed_date(date_of_birth@)->0,
                access_level,
                strikes: 0,
            }),
    {
        let date = parse_date(date_of_birth.as_str());
        User::from_parts(username, password, date.unwrap(), access_level, 0)
    }

    /// Builds the record of a new registrant, or returns `None` when
    /// `date_of_birth` is not a date written as `YYYY-MM-DD`.
    pub fn try_new(
        username: String,
        password: String,
        date_of_birth: String,
        access_level: AccessLevel,
    ) -> (user: Option<User>)
        ensures
            parsed_date(date_of_birth@) is Some <==> user is Some,
            user matches Some(u) ==> u@ == (UserView {
                username: username@,
                password: password@,
                date_of_birth: parsed_date(date_of_birth@)->0,
                access_level,
                strikes: 0,
            }),
    {
        match parse_date(date_of_birth.as_str()) {
            Some(_) => Some(User::new(username, password, date_of_birth, access_level)),
            None => None,
        }
    }

    /// Rebuilds a record from its stored fields.
    pub fn from_parts(
        username: String,
        password: String,
        date_of_birth: Date,
        access_level: AccessLevel,
        strikes: u8,
    ) -> (user: User)
        ensures
            user@ == (UserView {
                username: username@,
                password: password@,
                date_of_birth,
                access_level,
                strikes,
            }),
    {
        User { username, password, date_of_birth, access_level, strikes }
    }

    /// A copy of this record with its strike counter replaced.
    pub fn with_strikes(&self, strikes: u8) -> (user: User)
        ensures
            user@ == self@.with_strikes(strikes),
    {
        User {
            username: self.username.clone(),
            password: self.password.clone(),
            date_of_birth: self.date_of_birth,
            access_level: self.access_level,
            strikes,
        }
    }

    /// The name that identifies this user.
    pub fn username(&self) -> (name: &String)
        ensures
            name@ == self@.username,
    {
        &self.username
    }

    /// The password that a login must supply.
    pub fn password(&self) -> (password: &String)
        ensures
            password@ == self@.password,
    {
        &self.password
    }

    /// The user's date of birth.
    pub fn date_of_birth(&self) -> (date: Date)
        ensures
            date == self@.date_of_birth,
    {
        self.date_of_birth
    }

    /// The number of failed logins since the last successful one or the last
    /// unlock.
    pub fn strikes(&self) -> (strikes: u8)
        ensures
            strikes == self@.strikes,
    {
        self.strikes
    }

    /// The user's role.
    pub fn access_level(&self) -> (level: &AccessLevel)
        ensures
            *level == self@.access_level,
    {
        &self.access_level
    }
}

} // verus!
