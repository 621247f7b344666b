//! The account system of a maths revision quiz tool.
//!
//! - `user`, `date`: the record of a registrant.
//! - `requests`: the failures that a request can end in.
//! - `auth`: the rules of login with lockout, unlock and removal, as
//!   decisions on what a lookup found.
//! - `store`: keyed storage of user records, in memory.
//! - `reviews`: the quiz reviews of all users, in memory.
//! - `service`: the account service over the store, and what holds of its
//!   requests taken together.
//! - `catalog`: the rules for requests on question sets and quiz reviews.
//! - `questions`, `responses`, `commands`: the data that the quiz pages and
//!   the commands carry.

pub mod auth;
pub mod catalog;
pub mod commands;
pub mod date;
mod order;
pub mod questions;
pub mod requests;
pub mod responses;
pub mod reviews;
pub mod service;
pub mod store;
pub mod user;

pub use date::Date;
pub use user::{AccessLevel, User, UserView};
