//! Shopping lists and their items, the guard that keeps a list to its
//! family, and which change notifications reach whom.

use vstd::prelude::*;
use std::sync::Arc;
use crate::auth::Status;
use crate::families::GuardStep;
use crate::sql::{SqlValue, SqlValueView, params_view};
use crate::text::{path_id, path_id_of};

verus! {

/// A shopping list of a family.
#[derive(Debug)]
pub struct List {
    pub list_id: u64,
    pub name: String,
    pub family_id: u64,
    pub items: Option<Vec<Item>>,
}

/// An entry of a list.
#[derive(Debug)]
pub struct Item {
    pub item_id: u64,
    pub list_id: u64,
    pub name: String,
    pub amount: u64,
}

impl List {
    /// A list that is not stored yet (id 0) and whose items are not loaded.
    pub fn new(name: String, family_id: u64) -> (r: List)
        ensures
            r.list_id == 0,
            r.name == name,
            r.family_id == family_id,
            r.items is None,
    {
        List { list_id: 0, name, items: None, family_id }
    }

    /// The statement that stores a list.
    pub fn insert_stmt() -> (r: &'static str)
        ensures
            r@ == "INSERT INTO lists (`name`, family_id, list_id) VALUES (?, ?, ?);"@,
    {
        "INSERT INTO lists (`name`, family_id, list_id) VALUES (?, ?, ?);"
    }

    /// The parameters of `insert_stmt`: name, family, id.
    pub fn insert_params(&self) -> (r: Vec<SqlValue>)
        ensures
            params_view(r@) == seq![
                SqlValueView::Text(self.name@),
                SqlValueView::UInt(self.family_id),
                SqlValueView::UInt(self.list_id),
            ],
    {
        let mut r = Vec::new();
        r.push(SqlValue::Text(self.name.clone()));
        r.push(SqlValue::UInt(self.family_id));
        r.push(SqlValue::UInt(self.list_id));
        assert(params_view(r@) =~= seq![
            SqlValueView::Text(self.name@),
            SqlValueView::UInt(self.family_id),
            SqlValueView::UInt(self.list_id),
        ]);
        r
    }
}

impl Item {
    /// A new entry of list `list_id`: not stored yet (id 0), amount one.
    pub fn new(list_id: u64, name: String) -> (r: Item)
        ensures
            r.item_id == 0,
            r.list_id == list_id,
            r.name == name,
            r.amount == 1,
    {
        Item { item_id: 0, list_id, name, amount: 1 }
    }

    /// The parameters of `INSERT INTO list_items (list_id, name, amount)`.
    pub fn insert_params(&self) -> (r: Vec<SqlValue>)
        ensures
            params_view(r@) == seq![
                SqlValueView::UInt(self.list_id),
                SqlValueView::Text(self.name@),
                SqlValueView::UInt(self.amount),
            ],
    {
        let mut r = Vec::new();
        r.push(SqlValue::UInt(self.list_id));
        r.push(SqlValue::Text(self.name.clone()));
        r.push(SqlValue::UInt(self.amount));
        assert(params_view(r@) =~= seq![
            SqlValueView::UInt(self.list_id),
            SqlValueView::Text(self.name@),
            SqlValueView::UInt(self.amount),
        ]);
        r
    }
}

/// Sent when a list's data changes, to tell the members of the list's family
/// to refresh it.
#[derive(Debug)]
pub struct ItemChangeMessage {
    /// Who made the change.
    pub user_id: u64,
    pub list_id: u64,
    /// Who may see the list (shared, so that copies do not copy it).
    pub members: Arc<Vec<u64>>,
}

impl ItemChangeMessage {
    pub fn new(user_id: u64, list_id: u64, members: Vec<u64>) -> (r: ItemChangeMessage)
        ensures
            r.user_id == user_id,
            r.list_id == list_id,
            r.members@ == members@,
    {
        ItemChangeMessage { user_id, list_id, members: Arc::new(members) }
    }

    /// Whether this change is sent to `user_id`'s socket: never to the user
    /// who made it, and only to members of the list's family.
    pub fn should_notify(&self, user_id: u64) -> (r: bool)
        ensures
            r == (self.user_id != user_id && self.members@.contains(user_id)),
    {
        if self.user_id == user_id {
            return false;
        }
        let members: &Vec<u64> = &*self.members;
        let mut i: usize = 0;
        while i < members.len()
            invariant
                i <= members@.len(),
                members@ == self.members@,
                self.user_id != user_id,
                forall|j: int| 0 <= j < i ==> members@[j] != user_id,
            decreases members.len() - i,
        {
            if members[i] == user_id {
                assert(members@[i as int] == user_id);
                return true;
            }
            i = i + 1;
        }
        false
    }
}

/// The lists guard: a request without a session is unauthorized; one whose
/// path starts with a list id must come from a member of the list's family;
/// others go through.
pub fn list_guard_step(user: Option<u64>, path: &str) -> (r: GuardStep)
    ensures
        r == match user {
            None => GuardStep::Respond(Status::Unauthorized),
            Some(u) => match path_id(path@) {
                Some(l) => GuardStep::CheckAccess { id: l, user_id: u },
                None => GuardStep::Forward,
            },
        },
{
    match user {
        None => GuardStep::Respond(Status::Unauthorized),
        Some(u) => match path_id_of(path) {
            Some(l) => GuardStep::CheckAccess { id: l, user_id: u },
            None => GuardStep::Forward,
        },
    }
}

/// Deleting an item: 404 when there is no such item, else the deletion's
/// result (200, or 500 when it failed).
pub fn delete_item_status(found: bool, deleted: Option<Result<(), ()>>) -> (r: Status)
    ensures
        r == if !found {
            Status::NotFound
        } else {
            match deleted {
                Some(Ok(())) => Status::Success,
                _ => Status::InternalServerError,
            }
        },
{
    if !found {
        return Status::NotFound;
    }
    match deleted {
        Some(Ok(())) => Status::Success,
        _ => Status::InternalServerError,
    }
}

} // verus!
