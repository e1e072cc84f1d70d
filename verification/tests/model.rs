use listo_rs::families::{access_outcome, add_member_decision, families_guard_step, remove_member_decision, Family, GuardOutcome, GuardStep};
use listo_rs::lists::{delete_item_status, list_guard_step, Item, ItemChangeMessage, List};
use listo_rs::auth::Status;
use listo_rs::sql::SqlValue;
use listo_rs::text::{parse_u16, parse_u64, path_id_of, u64_to_string};
use listo_rs::users::{uuid_from_column, User};

#[test]
fn new_family_is_unsaved() {
    let f = Family::new(String::from("Smiths"));
    assert_eq!(f.family_id, 0);
    assert_eq!(f.family_name, "Smiths");
    assert!(f.members.is_none());
    assert_eq!(f.insert_params(), vec![SqlValue::Text(String::from("Smiths")), SqlValue::UInt(0)]);
}

#[test]
fn new_list_and_item() {
    let l = List::new(String::from("Groceries"), 3);
    assert_eq!((l.list_id, l.family_id), (0, 3));
    assert!(l.items.is_none());
    assert_eq!(l.insert_params(), vec![SqlValue::Text(String::from("Groceries")), SqlValue::UInt(3), SqlValue::UInt(0)]);
    let i = Item::new(4, String::from("Milk"));
    assert_eq!((i.item_id, i.list_id, i.amount), (0, 4, 1));
    assert_eq!(i.insert_params(), vec![SqlValue::UInt(4), SqlValue::Text(String::from("Milk")), SqlValue::UInt(1)]);
}

#[test]
fn change_messages_reach_other_members_only() {
    let m = ItemChangeMessage::new(1, 10, vec![1, 2, 3]);
    assert!(!m.should_notify(1));
    assert!(m.should_notify(2));
    assert!(!m.should_notify(4));
}

#[test]
fn guards() {
    assert_eq!(families_guard_step(None, "/3/members"), GuardStep::Respond(Status::Forbidden));
    assert_eq!(families_guard_step(Some(7), "/3/members"), GuardStep::CheckAccess { id: 3, user_id: 7 });
    assert_eq!(families_guard_step(Some(7), "/"), GuardStep::Forward);
    assert_eq!(list_guard_step(None, "/"), GuardStep::Respond(Status::Unauthorized));
    assert_eq!(list_guard_step(Some(1), "/12/items"), GuardStep::CheckAccess { id: 12, user_id: 1 });
    assert_eq!(access_outcome(Ok(true)), GuardOutcome::Forward);
    assert_eq!(access_outcome(Ok(false)), GuardOutcome::Respond(Status::Forbidden));
    assert_eq!(access_outcome(Err(())), GuardOutcome::Respond(Status::InternalServerError));
}

#[test]
fn member_and_item_decisions() {
    assert_eq!(add_member_decision(true), Some(Status::BadRequest));
    assert_eq!(add_member_decision(false), None);
    assert_eq!(remove_member_decision(false, true), Some(Status::BadRequest));
    assert_eq!(remove_member_decision(true, false), Some(Status::BadRequest));
    assert_eq!(remove_member_decision(true, true), None);
    assert_eq!(delete_item_status(false, None), Status::NotFound);
    assert_eq!(delete_item_status(true, Some(Ok(()))), Status::Success);
    assert_eq!(delete_item_status(true, Some(Err(()))), Status::InternalServerError);
}

#[test]
fn numbers() {
    assert_eq!(parse_u64("0"), Some(0));
    assert_eq!(parse_u64("18446744073709551615"), Some(u64::MAX));
    assert_eq!(parse_u64("18446744073709551616"), None);
    assert_eq!(parse_u64("+"), None);
    assert_eq!(parse_u64("-1"), None);
    assert_eq!(parse_u64(""), None);
    assert_eq!(parse_u16("3306"), Some(3306));
    assert_eq!(parse_u16("65536"), None);
    assert_eq!(u64_to_string(1234567890), "1234567890");
    assert_eq!(path_id_of("/42/items/7"), Some(42));
    assert_eq!(path_id_of("/x"), None);
    assert_eq!(path_id_of("nopath"), None);
}

#[test]
fn users_confirm_the_password_they_were_made_with() {
    let u = User::new(String::from("a@b.co"), String::from("SomePassword")).unwrap();
    assert_eq!(u.confirm_password("SomePassword"), Ok(true));
    assert_eq!(u.confirm_password("wrongpassword"), Ok(false));
    assert!(!u.is_temp);
    assert!(u.uuid.is_some());
}

#[test]
fn temporary_users_never_pass() {
    let u = User::new_webauthn("a@b.co", 5);
    assert!(u.is_temp);
    assert_eq!(u.confirm_password(""), Ok(false));
    let broken = User::from_parts(1, String::from("x@y.z"), String::from("not a hash"), false, None);
    assert!(broken.confirm_password("x").is_err());
}

#[test]
fn user_parameters() {
    let u = User::from_parts(9, String::from("x@y.z"), String::from("h"), true, Some(0x0123456789abcdef0123456789abcdef));
    assert_eq!(
        u.update_params(),
        vec![
            SqlValue::Text(String::from("x@y.z")),
            SqlValue::Text(String::from("h")),
            SqlValue::Bool(true),
            SqlValue::Text(String::from("01234567-89ab-cdef-0123-456789abcdef")),
            SqlValue::UInt(9),
        ]
    );
}

#[test]
fn passkey_ids_read_from_their_column() {
    assert_eq!(
        uuid_from_column(Some(String::from("01234567-89ab-cdef-0123-456789abcdef"))),
        Some(0x0123456789abcdef0123456789abcdef)
    );
    assert_eq!(uuid_from_column(Some(String::from("not a uuid"))), None);
    assert_eq!(uuid_from_column(None), None);
}

#[test]
fn new_users_get_a_version_four_passkey_id() {
    let u = User::new(String::from("a@b.co"), String::from("SomePassword")).unwrap();
    assert_eq!((u.uuid.unwrap() >> 76) & 0xf, 4);
    assert_eq!(u.user_id, 0);
}
