//! Keyed storage of user records, held in memory.
//!
//! The store is modelled as the sequence of its records in the order in which
//! they were inserted. No two records share a username, so a username names at
//! most one record. The strike counter is changed in place, either to a given
//! value or by one step, so that a step decided from an old reading of the
//! counter is never lost.

use crate::user::{User, UserView};
use vstd::prelude::*;

verus! {

/// No two records of `records` have the same username.
pub open spec fn distinct_names(records: Seq<UserView>) -> bool {
    forall|i: int, j: int|
        #![trigger records[i], records[j]]
        0 <= i < j < records.len() ==> records[i].username != records[j].username
}

/// Some record of `records` is named `name`.
pub open spec fn holds(records: Seq<UserView>, name: Seq<char>) -> bool {
    exists|i: int| 0 <= i < records.len() && (#[trigger] records[i]).username == name
}

/// The place of a record named `name`, where there is one.
pub open spec fn position(records: Seq<UserView>, name: Seq<char>) -> int {
    choose|i: int| 0 <= i < records.len() && (#[trigger] records[i]).username == name
}

/// The record named `name`, if there is one.
pub open spec fn record(records: Seq<UserView>, name: Seq<char>) -> Option<UserView> {
    if holds(records, name) {
        Some(records[position(records, name)])
    } else {
        None
    }
}

/// The counter that follows `strikes` when one more strike is added. It stops
/// at the largest value the counter can hold.
pub open spec fn next_strike(strikes: u8) -> u8 {
    if strikes < u8::MAX {
        (strikes + 1) as u8
    } else {
        strikes
    }
}

/// `records` with the strike counter of the record named `name` set to
/// `strikes`.
pub open spec fn with_strikes(records: Seq<UserView>, name: Seq<char>, strikes: u8) -> Seq<
    UserView,
> {
    Seq::new(
        records.len(),
        |i: int|
            if records[i].username == name {
                records[i].with_strikes(strikes)
            } else {
                records[i]
            },
    )
}

/// `records` with one strike added to the record named `name`.
pub open spec fn with_strike_added(records: Seq<UserView>, name: Seq<char>) -> Seq<UserView> {
    Seq::new(
        records.len(),
        |i: int|
            if records[i].username == name {
                records[i].with_strikes(next_strike(records[i].strikes))
            } else {
                records[i]
            },
    )
}

/// `records` without the record named `name`.
pub open spec fn without(records: Seq<UserView>, name: Seq<char>) -> Seq<UserView> {
    if holds(records, name) {
        records.remove(position(records, name))
    } else {
        records
    }
}

/// The contents of a sequence of users.
pub open spec fn views(users: Seq<User>) -> Seq<UserView> {
    Seq::new(users.len(), |i: int| users[i]@)
}

/// Among distinct names, the record at a place is the record of its name.
pub proof fn lemma_record_at(records: Seq<UserView>, i: int)
    requires
        distinct_names(records),
        0 <= i < records.len(),
    ensures
        holds(records, records[i].username),
        position(records, records[i].username) == i,
        record(records, records[i].username) == Some(records[i]),
{
    let name = records[i].username;
    let p = position(records, name);
    assert(0 <= p < records.len() && records[p].username == name);
    if p < i {
        assert(records[p].username != records[i].username);
    } else if i < p {
        assert(records[i].username != records[p].username);
    }
}

/// Among distinct names, no other place holds the name of the record at
/// place `i`.
proof fn lemma_no_other_place(records: Seq<UserView>, i: int)
    requires
        distinct_names(records),
        0 <= i < records.len(),
    ensures
        forall|k: int|
            0 <= k < records.len() && k != i ==> (#[trigger] records[k]).username
                != records[i].username,
{
    assert forall|k: int| 0 <= k < records.len() && k != i implies (#[trigger] records[k]).username
        != records[i].username by {
        if k < i {
            assert(records[k].username != records[i].username);
        } else {
            assert(records[i].username != records[k].username);
        }
    }
}

/// `after` is `before` with nothing but strike counters changed.
spec fn differs_in_strikes_only(before: Seq<UserView>, after: Seq<UserView>) -> bool {
    &&& before.len() == after.len()
    &&& forall|i: int|
        0 <= i < before.len() ==> #[trigger] after[i] == before[i].with_strikes(after[i].strikes)
}

/// Changing strike counters keeps the names distinct and every name at its
/// place.
proof fn lemma_strikes_changed(before: Seq<UserView>, after: Seq<UserView>)
    requires
        distinct_names(before),
        differs_in_strikes_only(before, after),
    ensures
        distinct_names(after),
        forall|name: Seq<char>| holds(after, name) == holds(before, name),
        forall|name: Seq<char>|
            holds(before, name) ==> position(after, name) == position(before, name),
{
    assert forall|i: int, j: int|
        #![trigger after[i], after[j]]
        0 <= i < j < after.len() implies after[i].username != after[j].username by {
        assert(before[i].username != before[j].username);
    }
    assert forall|name: Seq<char>| holds(after, name) == holds(before, name) by {
        if holds(after, name) {
            let p = position(after, name);
            assert(before[p].username == name);
        }
        if holds(before, name) {
            let p = position(before, name);
            assert(after[p].username == name);
        }
    }
    assert forall|name: Seq<char>| holds(before, name) implies position(after, name)
        == position(before, name) by {
        let p = position(before, name);
        assert(after[p].username == name);
        lemma_record_at(after, p);
    }
}

/// Changing a strike counter keeps the names distinct, changes the record of
/// that name and no other.
pub proof fn lemma_with_strikes(records: Seq<UserView>, name: Seq<char>, strikes: u8)
    requires
        distinct_names(records),
    ensures
        distinct_names(with_strikes(records, name, strikes)),
        forall|other: Seq<char>|
            holds(with_strikes(records, name, strikes), other) == holds(records, other),
        record(records, name) matches Some(u) ==> record(
            with_strikes(records, name, strikes),
            name,
        ) == Some(u.with_strikes(strikes)),
        !holds(records, name) ==> with_strikes(records, name, strikes) == records,
        forall|other: Seq<char>|
            other != name ==> record(with_strikes(records, name, strikes), other) == record(
                records,
                other,
            ),
{
    let after = with_strikes(records, name, strikes);
    lemma_strikes_changed(records, after);
    if !holds(records, name) {
        assert(after =~= records);
    }
}

/// Adding a strike keeps the names distinct, changes the record of that name
/// and no other.
pub proof fn lemma_with_strike_added(records: Seq<UserView>, name: Seq<char>)
    requires
        distinct_names(records),
    ensures
        distinct_names(with_strike_added(records, name)),
        forall|other: Seq<char>|
            holds(with_strike_added(records, name), other) == holds(records, other),
        record(records, name) matches Some(u) ==> record(with_strike_added(records, name), name)
            == Some(u.with_strikes(next_strike(u.strikes))),
        !holds(records, name) ==> with_strike_added(records, name) == records,
        forall|other: Seq<char>|
            other != name ==> record(with_strike_added(records, name), other) == record(
                records,
                other,
            ),
{
    let after = with_strike_added(records, name);
    lemma_strikes_changed(records, after);
    if !holds(records, name) {
        assert(after =~= records);
    }
}

/// A record appended under a new name is found under that name, and no other
/// name finds a different record than before.
pub proof fn lemma_push(records: Seq<UserView>, user: UserView)
    requires
        distinct_names(records),
        !holds(records, user.username),
    ensures
        distinct_names(records.push(user)),
        record(records.push(user), user.username) == Some(user),
        forall|other: Seq<char>|
            other != user.username ==> record(records.push(user), other) == record(
                records,
                other,
            ),
{
    let after = records.push(user);
    assert forall|i: int, j: int|
        #![trigger after[i], after[j]]
        0 <= i < j < after.len() implies after[i].username != after[j].username by {
        if j == records.len() {
            assert(records[i].username != user.username);
        } else {
            assert(records[i].username != records[j].username);
        }
    }
    lemma_record_at(after, records.len() as int);
    assert forall|other: Seq<char>| other != user.username implies record(after, other) == record(
        records,
        other,
    ) by {
        if holds(records, other) {
            let p = position(records, other);
            assert(after[p] == records[p]);
            lemma_record_at(after, p);
        } else if holds(after, other) {
            let p = position(after, other);
            assert(records[p].username == other);
        }
    }
}

/// The place in the whole sequence of what stands at place `i` once the
/// record at place `gap` is removed.
spec fn shifted(i: int, gap: int) -> int {
    if i < gap {
        i
    } else {
        i + 1
    }
}

/// After a record is removed its name finds nothing, and no other name finds
/// a different record than before.
pub proof fn lemma_without(records: Seq<UserView>, name: Seq<char>)
    requires
        distinct_names(records),
    ensures
        distinct_names(without(records, name)),
        !holds(without(records, name), name),
        forall|other: Seq<char>|
            other != name ==> record(without(records, name), other) == record(records, other),
{
    let after = without(records, name);
    if holds(records, name) {
        let p = position(records, name);
        assert forall|i: int| 0 <= i < after.len() implies #[trigger] after[i] == records[shifted(
            i,
            p,
        )] by {}
        assert forall|i: int, j: int|
            #![trigger after[i], after[j]]
            0 <= i < j < after.len() implies after[i].username != after[j].username by {
            assert(records[shifted(i, p)].username != records[shifted(j, p)].username);
        }
        if holds(after, name) {
            let q = position(after, name);
            assert(records[shifted(q, p)].username == name);
            lemma_record_at(records, shifted(q, p));
        }
        assert forall|other: Seq<char>| other != name implies record(after, other) == record(
            records,
            other,
        ) by {
            if holds(records, other) {
                let q = position(records, other);
                let a = if q < p {
                    q
                } else {
                    q - 1
                };
                assert(after[a] == records[q]);
                lemma_record_at(after, a);
            } else if holds(after, other) {
                let q = position(after, other);
                assert(records[shifted(q, p)].username == other);
            }
        }
    }
}

/// The user records of the application, kept in memory.
#[derive(Debug)]
pub struct UserStore {
    records: Vec<User>,
}

impl View for UserStore {
    type V = Seq<UserView>;

    closed spec fn view(&self) -> Seq<UserView> {
        views(self.records@)
    }
}

impl UserStore {
    /// What every store keeps: no two of its records share a username.
    pub open spec fn wf(&self) -> bool {
        distinct_names(self@)
    }

    /// A store without records.
    pub fn new() -> (store: UserStore)
        ensures
            store@ == Seq::<UserView>::empty(),
            store.wf(),
    {
        let store = UserStore { records: Vec::new() };
        assert(store@ =~= Seq::<UserView>::empty());
        store
    }

    /// The number of records.
    pub fn len(&self) -> (count: usize)
        ensures
            count == self@.len(),
    {
        self.records.len()
    }

    /// The place of the record named `username`, if there is one.
    fn find_position(&self, username: &String) -> (place: Option<usize>)
        requires
            self.wf(),
        ensures
            match place {
                Some(i) => i < self@.len() && self@[i as int].username == username@
                    && holds(self@, username@) && position(self@, username@) == i,
                None => !holds(self@, username@),
            },
    {
        let mut i: usize = 0;
        while i < self.records.len()
            invariant
                self.wf(),
                i <= self.records.len(),
                self@.len() == self.records.len(),
                forall|k: int| 0 <= k < i ==> (#[trigger] self@[k]).username != username@,
            decreases self.records.len() - i,
        {
            assert(self@[i as int] == self.records[i as int]@);
            if *self.records[i].username() == *username {
                proof {
                    lemma_record_at(self@, i as int);
                }
                return Some(i);
            }
            i += 1;
        }
        None
    }

    /// Looks a record up by username.
    ///
    /// Returns a copy of the record, or `None` when no record has that name:
    /// that is an answer, not a failure.
    pub fn find_by_username(&self, username: &String) -> (found: Option<User>)
        requires
            self.wf(),
        ensures
            match found {
                Some(user) => record(self@, username@) == Some(user@),
                None => record(self@, username@) is None,
            },
    {
        match self.find_position(username) {
            Some(i) => Some(self.records[i].clone()),
            None => None,
        }
    }

    /// Adds a record.
    ///
    /// Returns `true` and appends the record when no record has its username
    /// yet. Returns `false` and leaves the store as it is when one has.
    pub fn insert(&mut self, user: User) -> (added: bool)
        requires
            old(self).wf(),
        ensures
            added == !holds(old(self)@, user@.username),
            added ==> final(self)@ == old(self)@.push(user@),
            !added ==> final(self)@ == old(self)@,
            final(self).wf(),
    {
        match self.find_position(user.username()) {
            Some(_) => false,
            None => {
                proof {
                    lemma_push(self@, user@);
                    assert(views(self.records@.push(user)) =~= self@.push(user@));
                }
                self.records.push(user);
                true
            },
        }
    }

    /// Overwrites the strike counter of the record named `username`.
    ///
    /// Returns whether there is such a record; without one nothing changes.
    pub fn set_strikes(&mut self, username: &String, value: u8) -> (changed: bool)
        requires
            old(self).wf(),
        ensures
            changed == holds(old(self)@, username@),
            final(self)@ == with_strikes(old(self)@, username@, value),
            final(self).wf(),
    {
        match self.find_position(username) {
            Some(i) => {
                let updated = self.records[i].with_strikes(value);
                proof {
                    lemma_with_strikes(self@, username@, value);
                    lemma_no_other_place(self@, i as int);
                    assert(views(self.records@.update(i as int, updated)) =~= with_strikes(
                        self@,
                        username@,
                        value,
                    ));
                }
                self.records.set(i, updated);
                true
            },
            None => {
                proof {
                    lemma_with_strikes(self@, username@, value);
                }
                false
            },
        }
    }

    /// Adds one strike to the record named `username`, in one step.
    ///
    /// Returns whether there is such a record; without one nothing changes.
    pub fn add_strike(&mut self, username: &String) -> (changed: bool)
        requires
            old(self).wf(),
        ensures
            changed == holds(old(self)@, username@),
            final(self)@ == with_strike_added(old(self)@, username@),
            final(self).wf(),
    {
        match self.find_position(username) {
            Some(i) => {
                let strikes = self.records[i].strikes();
                let next = if strikes < u8::MAX {
                    strikes + 1
                } else {
                    strikes
                };
                let updated = self.records[i].with_strikes(next);
                proof {
                    lemma_with_strike_added(self@, username@);
                    lemma_no_other_place(self@, i as int);
                    assert(views(self.records@.update(i as int, updated)) =~= with_strike_added(
                        self@,
                        username@,
                    ));
                }
                self.records.set(i, updated);
                true
            },
            None => {
                proof {
                    lemma_with_strike_added(self@, username@);
                }
                false
            },
        }
    }

    /// Removes the record named `username`.
    ///
    /// Returns whether there was such a record; removing a name that is not
    /// there changes nothing and is no failure.
    pub fn delete(&mut self, username: &String) -> (removed: bool)
        requires
            old(self).wf(),
        ensures
            removed == holds(old(self)@, username@),
            final(self)@ == without(old(self)@, username@),
            final(self).wf(),
    {
        match self.find_position(username) {
            Some(i) => {
                proof {
                    lemma_without(self@, username@);
                    assert(views(self.records@.remove(i as int)) =~= without(self@, username@));
                }
                self.records.remove(i);
                true
            },
            None => false,
        }
    }

    /// Copies of all records, in the order in which they were inserted.
    pub fn list(&self) -> (users: Vec<User>)
        ensures
            views(users@) == self@,
    {
        let mut users: Vec<User> = Vec::new();
        let mut i: usize = 0;
        while i < self.records.len()
            invariant
                i <= self.records.len(),
                users@.len() == i,
                forall|k: int| 0 <= k < i ==> (#[trigger] users@[k])@ == self@[k],
            decreases self.records.len() - i,
        {
            users.push(self.records[i].clone());
            i += 1;
        }
        assert(views(users@) =~= self@);
        users
    }
}

} // verus!
