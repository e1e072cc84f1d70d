//! Families: the groups of users that share lists, and the guard that keeps
//! the family API to a family's members.

use vstd::prelude::*;
use crate::auth::Status;
use crate::sql::{SqlValue, SqlValueView, params_view};
use crate::text::{path_id, path_id_of};
use crate::users::User;

verus! {

/// A group (family) of users that have access to lists. A family owns
/// lists, and several users belong to a family.
#[derive(Debug)]
pub struct Family {
    pub family_id: u64,
    pub family_name: String,
    pub members: Option<Vec<User>>,
}

impl Family {
    /// A family that is not stored yet (id 0) and whose members are not loaded.
    pub fn new(family_name: String) -> (r: Family)
        ensures
            r.family_id == 0,
            r.family_name == family_name,
            r.members is None,
    {
        Family { family_id: 0, family_name, members: None }
    }

    /// The statement that stores a family.
    pub fn insert_stmt() -> (r: &'static str)
        ensures
            r@ == "INSERT INTO families (family_name, family_id) VALUES (?, ?);"@,
    {
        "INSERT INTO families (family_name, family_id) VALUES (?, ?);"
    }

    /// The parameters of `insert_stmt`: name, then id.
    pub fn insert_params(&self) -> (r: Vec<SqlValue>)
        ensures
            params_view(r@) == seq![SqlValueView::Text(self.family_name@), SqlValueView::UInt(self.family_id)],
    {
        let mut r = Vec::new();
        r.push(SqlValue::Text(self.family_name.clone()));
        r.push(SqlValue::UInt(self.family_id));
        assert(params_view(r@) =~= seq![SqlValueView::Text(self.family_name@), SqlValueView::UInt(self.family_id)]);
        r
    }
}

/// What a guard does with a request before any database work.
#[derive(Debug, PartialEq, Eq)]
pub enum GuardStep {
    /// Let the request through.
    Forward,
    /// Let it through only if `user_id` belongs to the family or list `id`.
    CheckAccess { id: u64, user_id: u64 },
    /// Answer at once.
    Respond(Status),
}

/// What a guard does once the access check has come back.
#[derive(Debug, PartialEq, Eq)]
pub enum GuardOutcome {
    Forward,
    Respond(Status),
}

/// The families guard: a request without a session is forbidden; one whose
/// path starts with a family id must come from a member of that family;
/// others (the family list itself) go through.
pub fn families_guard_step(user: Option<u64>, path: &str) -> (r: GuardStep)
    ensures
        r == match user {
            None => GuardStep::Respond(Status::Forbidden),
            Some(u) => match path_id(path@) {
                Some(f) => GuardStep::CheckAccess { id: f, user_id: u },
                None => GuardStep::Forward,
            },
        },
{
    match user {
        None => GuardStep::Respond(Status::Forbidden),
        Some(u) => match path_id_of(path) {
            Some(f) => GuardStep::CheckAccess { id: f, user_id: u },
            None => GuardStep::Forward,
        },
    }
}

/// What the access check decides: members go through, others are forbidden, and
/// a failed check is an internal error.
pub fn access_outcome(check: Result<bool, ()>) -> (r: GuardOutcome)
    ensures
        r == match check {
            Ok(true) => GuardOutcome::Forward,
            Ok(false) => GuardOutcome::Respond(Status::Forbidden),
            Err(_) => GuardOutcome::Respond(Status::InternalServerError),
        },
{
    match check {
        Ok(true) => GuardOutcome::Forward,
        Ok(false) => GuardOutcome::Respond(Status::Forbidden),
        Err(_) => GuardOutcome::Respond(Status::InternalServerError),
    }
}

/// Adding a member: refused (400) when the user already belongs to the family.
pub fn add_member_decision(is_member: bool) -> (r: Option<Status>)
    ensures
        r == (if is_member { Some(Status::BadRequest) } else { None::<Status> }),
{
    if is_member { Some(Status::BadRequest) } else { None }
}

/// Removing a member: refused (400) when the user does not exist or is not a
/// member of the family.
pub fn remove_member_decision(user_exists: bool, is_member: bool) -> (r: Option<Status>)
    ensures
        r == (if !user_exists || !is_member { Some(Status::BadRequest) } else { None::<Status> }),
{
    if !user_exists || !is_member { Some(Status::BadRequest) } else { None }
}

} // verus!
